use transit_light::model::{Color, Departure};
use transit_light::outcome::{
    FetchError, PublishOutcome, classify_fetch, classify_publish, run_decision,
};

fn quiet_departure() -> Departure {
    Departure {
        delay: Some(0),
        cancelled: None,
        line: None,
    }
}

#[test]
fn success_with_body_is_ok() {
    let r = classify_fetch(200, Some(vec![quiet_departure()]));
    let list = r.expect("a decoded body on a success status is passed through");
    assert_eq!(list.len(), 1);
}

#[test]
fn success_statuses_span_the_2xx_range() {
    assert!(classify_fetch(204, Some(vec![])).is_ok());
    assert!(classify_fetch(299, Some(vec![])).is_ok());
    assert!(matches!(
        classify_fetch(300, Some(vec![])),
        Err(FetchError::StationUnavailable { status: 300 })
    ));
    assert!(matches!(
        classify_fetch(199, Some(vec![])),
        Err(FetchError::StationUnavailable { status: 199 })
    ));
}

#[test]
fn undecodable_success_body_is_malformed() {
    assert!(matches!(
        classify_fetch(200, None),
        Err(FetchError::MalformedResponse)
    ));
}

#[test]
fn non_success_is_station_unavailable() {
    assert!(matches!(
        classify_fetch(404, None),
        Err(FetchError::StationUnavailable { status: 404 })
    ));
    assert!(matches!(
        classify_fetch(503, Some(vec![quiet_departure()])),
        Err(FetchError::StationUnavailable { status: 503 })
    ));
}

#[test]
fn publish_outcomes() {
    assert!(matches!(classify_publish(200), PublishOutcome::Updated));
    assert!(matches!(classify_publish(204), PublishOutcome::Updated));
    assert!(matches!(
        classify_publish(500),
        PublishOutcome::IndicatorUnavailable { status: 500 }
    ));
}

#[test]
fn fetch_notices() {
    let e = FetchError::StationUnavailable { status: 404 };
    assert_eq!(
        e.notice().unwrap(),
        "Failed to fetch station info. Status: 404"
    );
    assert!(FetchError::MalformedResponse.notice().is_none());
    let e = FetchError::Transport {
        detail: "connection refused".to_string(),
    };
    assert!(e.notice().is_none());
}

#[test]
fn publish_notices() {
    assert_eq!(
        PublishOutcome::Updated.notice(),
        "Successfully updated awtrix light."
    );
    let o = PublishOutcome::IndicatorUnavailable { status: 503 };
    assert_eq!(
        o.notice(),
        "Failed to update awtrix light. Status: 503"
    );
}

#[test]
fn run_publishes_the_decided_color_on_ok() {
    let r = run_decision(Ok(vec![quiet_departure()]));
    assert_eq!(r, Some(Color { r: 255, g: 0, b: 0 }));
    let r = run_decision(Ok(vec![Departure {
        delay: Some(420),
        cancelled: None,
        line: None,
    }]));
    assert_eq!(
        r,
        Some(Color {
            r: 255,
            g: 255,
            b: 0
        })
    );
}

#[test]
fn run_skips_publishing_on_any_fetch_failure() {
    assert_eq!(run_decision(Err(FetchError::MalformedResponse)), None);
    assert_eq!(
        run_decision(Err(FetchError::StationUnavailable { status: 502 })),
        None
    );
    assert_eq!(
        run_decision(Err(FetchError::Transport {
            detail: "timed out".to_string()
        })),
        None
    );
}
