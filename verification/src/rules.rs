//! The color rule engine: a pure decision over an ordered departure list.
//!
//! Departures are scanned in order; for each one the rules are tried in
//! priority order (cancelled, bus, severe delay, moderate delay) and the
//! first rule that matches anywhere decides the color. When nothing matches,
//! the fail-safe default is the alert color.

use vstd::prelude::*;
use vstd::string::StringExecFns;

use crate::model::{Color, Departure, red, yellow};

verus! {

/// The delay threshold, in seconds, at which a departure alone turns the
/// indicator red.
pub const SEVERE_DELAY_SECONDS: i32 = 600;

/// The delay threshold, in seconds, at which a departure alone turns the
/// indicator yellow.
pub const MODERATE_DELAY_SECONDS: i32 = 300;

/// The delay a departure counts for: its reported delay, or zero when the
/// source omitted the field.
pub open spec fn effective_delay(d: Departure) -> int {
    match d.delay {
        Some(v) => v as int,
        None => 0,
    }
}

/// Whether a departure is cancelled; an absent flag counts as not cancelled.
pub open spec fn is_cancelled(d: Departure) -> bool {
    d.cancelled == Some(true)
}

/// Whether a departure's line is a bus; an absent line or product name never
/// matches.
pub open spec fn is_bus(d: Departure) -> bool {
    match d.line {
        Some(l) => match l.product_name {
            Some(p) => p@ == "Bus"@,
            None => false,
        },
        None => false,
    }
}

/// Which rule, if any, a single departure matches, tried in priority order.
#[derive(Clone, Copy, PartialEq, Eq, Structural, Debug)]
pub enum Verdict {
    Cancelled,
    Bus,
    SevereDelay,
    ModerateDelay,
    NoMatch,
}

/// The highest-priority rule that a single departure matches.
pub open spec fn verdict_of(d: Departure) -> Verdict {
    if is_cancelled(d) {
        Verdict::Cancelled
    } else if is_bus(d) {
        Verdict::Bus
    } else if effective_delay(d) >= SEVERE_DELAY_SECONDS {
        Verdict::SevereDelay
    } else if effective_delay(d) >= MODERATE_DELAY_SECONDS {
        Verdict::ModerateDelay
    } else {
        Verdict::NoMatch
    }
}

/// The verdict over a whole departure list: the verdict of the earliest
/// departure that matches any rule, or `NoMatch` when none does (in
/// particular when the list is empty).
pub open spec fn decision(s: Seq<Departure>) -> Verdict
    decreases s.len(),
{
    if s.len() == 0 {
        Verdict::NoMatch
    } else if verdict_of(s[0]) != Verdict::NoMatch {
        verdict_of(s[0])
    } else {
        decision(s.drop_first())
    }
}

/// The color a verdict maps to: yellow for a moderate delay, red for every
/// other verdict — `NoMatch` included, the fail-safe default.
pub open spec fn verdict_color(v: Verdict) -> Color {
    if v is ModerateDelay {
        yellow()
    } else {
        red()
    }
}

/// The color decided for a whole departure list.
pub open spec fn decided_color(s: Seq<Departure>) -> Color {
    verdict_color(decision(s))
}

impl Verdict {
    /// The color this verdict maps to.
    pub fn color(&self) -> (c: Color)
        ensures
            c == verdict_color(*self),
    {
        match self {
            Verdict::ModerateDelay => Color { r: 255, g: 255, b: 0 },
            _ => Color { r: 255, g: 0, b: 0 },
        }
    }

    /// The observable notice a matched rule emits, none for `NoMatch`.
    pub fn notice(&self) -> (m: Option<String>)
        ensures
            m is Some <==> *self != Verdict::NoMatch,
            *self == Verdict::Cancelled ==> m->Some_0@ == "Train is cancelled!"@,
            *self == Verdict::Bus ==> m->Some_0@ == "Transport type is bus!"@,
            *self == Verdict::SevereDelay ==> m->Some_0@ == "Delay is over second threshold!"@,
            *self == Verdict::ModerateDelay ==> m->Some_0@ == "Delay is over first threshold!"@,
    {
        match self {
            Verdict::Cancelled => Some(String::from_str("Train is cancelled!")),
            Verdict::Bus => Some(String::from_str("Transport type is bus!")),
            Verdict::SevereDelay => Some(String::from_str("Delay is over second threshold!")),
            Verdict::ModerateDelay => Some(String::from_str("Delay is over first threshold!")),
            Verdict::NoMatch => None,
        }
    }
}

/// The highest-priority rule that `d` matches, tried in priority order.
pub fn departure_verdict(d: &Departure) -> (v: Verdict)
    ensures
        v == verdict_of(*d),
{
    match d.cancelled {
        Some(true) => {
            return Verdict::Cancelled;
        },
        _ => {},
    }
    let bus = String::from_str("Bus");
    match &d.line {
        Some(l) => match &l.product_name {
            Some(p) => {
                if *p == bus {
                    return Verdict::Bus;
                }
            },
            None => {},
        },
        None => {},
    }
    let delay: i32 = match d.delay {
        Some(v) => v,
        None => 0,
    };
    if delay >= SEVERE_DELAY_SECONDS {
        Verdict::SevereDelay
    } else if delay >= MODERATE_DELAY_SECONDS {
        Verdict::ModerateDelay
    } else {
        Verdict::NoMatch
    }
}

/// Skipping a prefix in which no departure matches any rule does not change
/// the decision.
pub proof fn lemma_decision_skip(s: Seq<Departure>, i: int)
    requires
        0 <= i <= s.len(),
        forall|j: int| 0 <= j < i ==> verdict_of(s[j]) == Verdict::NoMatch,
    ensures
        decision(s) == decision(s.skip(i)),
    decreases i,
{
    if i > 0 {
        assert(s.skip(0) =~= s);
        assert forall|j: int| 0 <= j < i - 1 implies verdict_of(
            #[trigger] s.drop_first()[j],
        ) == Verdict::NoMatch by {
            assert(s.drop_first()[j] == s[j + 1]);
        }
        lemma_decision_skip(s.drop_first(), i - 1);
        assert(s.drop_first().skip(i - 1) =~= s.skip(i));
    } else {
        assert(s.skip(0) =~= s);
    }
}

/// The verdict over a whole departure list: the verdict of the earliest
/// departure that matches any rule, or `NoMatch` when none does.
pub fn evaluate_departures(departures: &Vec<Departure>) -> (v: Verdict)
    ensures
        v == decision(departures@),
{
    let n = departures.len();
    let mut i: usize = 0;
    while i < n
        invariant
            n == departures@.len(),
            0 <= i <= n,
            forall|j: int| 0 <= j < i ==> verdict_of(departures@[j]) == Verdict::NoMatch,
        decreases n - i,
    {
        let v = departure_verdict(&departures[i]);
        if v != Verdict::NoMatch {
            proof {
                lemma_decision_skip(departures@, i as int);
                assert(departures@.skip(i as int)[0] == departures@[i as int]);
            }
            return v;
        }
        i = i + 1;
    }
    proof {
        lemma_decision_skip(departures@, n as int);
    }
    Verdict::NoMatch
}

/// The color decided for a whole departure list: the pure rule engine.
pub fn decide(departures: &Vec<Departure>) -> (c: Color)
    ensures
        c == decided_color(departures@),
        departures@.len() == 0 ==> c == red(),
    {
    let v = evaluate_departures(departures);
    v.color()
}

} // verus!
