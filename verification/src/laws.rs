//! Laws of the rule engine, stated and proved over the specification.
//!
//! Each lemma fixes how the decided color follows from the earliest matching
//! departure, and that the engine is a pure function of its input.

use vstd::prelude::*;

use crate::model::{Departure, red, yellow};
use crate::rules::{
    MODERATE_DELAY_SECONDS, SEVERE_DELAY_SECONDS, Verdict, decided_color, decision,
    effective_delay, is_bus, is_cancelled, lemma_decision_skip, verdict_of,
};

verus! {

/// A cancelled departure that comes at or before every other matching
/// departure decides the color: red.
pub proof fn lemma_cancelled_earliest_red(s: Seq<Departure>, i: int)
    requires
        0 <= i < s.len(),
        is_cancelled(s[i]),
        forall|j: int| 0 <= j < i ==> verdict_of(s[j]) == Verdict::NoMatch,
    ensures
        decision(s) == Verdict::Cancelled,
        decided_color(s) == red(),
{
    lemma_decision_skip(s, i);
    assert(s.skip(i)[0] == s[i]);
}

/// A bus departure that is not cancelled and comes before every other
/// matching departure decides the color: red.
pub proof fn lemma_bus_earliest_red(s: Seq<Departure>, i: int)
    requires
        0 <= i < s.len(),
        is_bus(s[i]),
        !is_cancelled(s[i]),
        forall|j: int| 0 <= j < i ==> verdict_of(s[j]) == Verdict::NoMatch,
    ensures
        decision(s) == Verdict::Bus,
        decided_color(s) == red(),
{
    lemma_decision_skip(s, i);
    assert(s.skip(i)[0] == s[i]);
}

/// A severely delayed departure (neither cancelled nor a bus) that comes
/// before every other matching departure decides the color: red.
pub proof fn lemma_severe_delay_earliest_red(s: Seq<Departure>, i: int)
    requires
        0 <= i < s.len(),
        effective_delay(s[i]) >= SEVERE_DELAY_SECONDS,
        !is_cancelled(s[i]),
        !is_bus(s[i]),
        forall|j: int| 0 <= j < i ==> verdict_of(s[j]) == Verdict::NoMatch,
    ensures
        decision(s) == Verdict::SevereDelay,
        decided_color(s) == red(),
{
    lemma_decision_skip(s, i);
    assert(s.skip(i)[0] == s[i]);
}

/// A moderately delayed departure (below the severe threshold, neither
/// cancelled nor a bus) that comes before every other matching departure
/// decides the color: yellow.
pub proof fn lemma_moderate_delay_earliest_yellow(s: Seq<Departure>, i: int)
    requires
        0 <= i < s.len(),
        MODERATE_DELAY_SECONDS <= effective_delay(s[i]) < SEVERE_DELAY_SECONDS,
        !is_cancelled(s[i]),
        !is_bus(s[i]),
        forall|j: int| 0 <= j < i ==> verdict_of(s[j]) == Verdict::NoMatch,
    ensures
        decision(s) == Verdict::ModerateDelay,
        decided_color(s) == yellow(),
{
    lemma_decision_skip(s, i);
    assert(s.skip(i)[0] == s[i]);
}

/// A departure below the moderate threshold, neither cancelled nor a bus,
/// matches no rule at all: it is skipped over.
pub proof fn lemma_quiet_departure_no_match(d: Departure)
    requires
        effective_delay(d) < MODERATE_DELAY_SECONDS,
        !is_cancelled(d),
        !is_bus(d),
    ensures
        verdict_of(d) == Verdict::NoMatch,
{
}

/// When no departure in the list matches any rule — in particular when the
/// list is empty — the fail-safe default applies: red.
pub proof fn lemma_no_match_defaults_red(s: Seq<Departure>)
    requires
        forall|j: int| 0 <= j < s.len() ==> verdict_of(s[j]) == Verdict::NoMatch,
    ensures
        decision(s) == Verdict::NoMatch,
        decided_color(s) == red(),
{
    lemma_decision_skip(s, s.len() as int);
}

/// The empty departure list decides the fail-safe default: red.
pub proof fn lemma_empty_list_red(s: Seq<Departure>)
    requires
        s.len() == 0,
    ensures
        decided_color(s) == red(),
{
}

/// The rule engine is a pure function of the departure list: equal inputs
/// decide equal verdicts and equal colors, however often it is asked.
pub proof fn lemma_decision_deterministic(s1: Seq<Departure>, s2: Seq<Departure>)
    requires
        s1 == s2,
    ensures
        decision(s1) == decision(s2),
        decided_color(s1) == decided_color(s2),
{
}

} // verus!
