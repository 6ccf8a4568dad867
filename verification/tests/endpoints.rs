use transit_light::endpoints::{
    Config, decimal_string, departures_url, indicator_payload, indicator_url,
};
use transit_light::model::Color;

fn config() -> Config {
    Config {
        indicator_host: "display.local".to_string(),
        indicator_path: "3".to_string(),
        departures_host: "transit.example".to_string(),
        station_id: "900012345".to_string(),
        direction: "900054321".to_string(),
        duration: "30".to_string(),
    }
}

#[test]
fn departures_url_shape() {
    let u = departures_url(&config());
    assert_eq!(
        u,
        "http://transit.example/stops/900012345/departures?direction=900054321&duration=30"
    );
}

#[test]
fn departures_url_with_empty_settings() {
    let c = Config {
        indicator_host: String::new(),
        indicator_path: String::new(),
        departures_host: String::new(),
        station_id: String::new(),
        direction: String::new(),
        duration: String::new(),
    };
    assert_eq!(
        departures_url(&c),
        "http:///stops//departures?direction=&duration="
    );
    assert_eq!(indicator_url(&c), "http:///api/indicator");
}

#[test]
fn indicator_url_shape() {
    let u = indicator_url(&config());
    assert_eq!(u, "http://display.local/api/indicator3");
}

#[test]
fn payload_for_red() {
    let c = Color { r: 255, g: 0, b: 0 };
    assert_eq!(indicator_payload(&c), "{\"color\":[255,0,0]}");
}

#[test]
fn payload_for_yellow() {
    let c = Color {
        r: 255,
        g: 255,
        b: 0,
    };
    assert_eq!(indicator_payload(&c), "{\"color\":[255,255,0]}");
}

#[test]
fn payload_for_mixed_channels() {
    let c = Color { r: 0, g: 17, b: 3 };
    assert_eq!(indicator_payload(&c), "{\"color\":[0,17,3]}");
}

#[test]
fn decimal_rendering() {
    assert_eq!(decimal_string(0), "0");
    assert_eq!(decimal_string(7), "7");
    assert_eq!(decimal_string(10), "10");
    assert_eq!(decimal_string(42), "42");
    assert_eq!(decimal_string(100), "100");
    assert_eq!(decimal_string(304), "304");
    assert_eq!(decimal_string(65535), "65535");
}
