//! A traffic-light decision library for transit departures.
//!
//! Given the list of upcoming departures at a stop, the library derives a
//! single indicator color: red when a departure is cancelled, is a bus, or is
//! severely delayed (and as the fail-safe default), yellow for a moderate
//! delay. It also builds the request URLs and the indicator payload, and
//! classifies HTTP outcomes into the library's error taxonomy.

pub mod endpoints;
pub mod laws;
pub mod model;
pub mod outcome;
pub mod rules;
