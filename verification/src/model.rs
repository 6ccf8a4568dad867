//! Data shapes for one departure and for the indicator color.

use vstd::prelude::*;

verus! {

/// Transport line metadata attached to a departure. The product name is
/// absent when the source omitted it.
pub struct Line {
    pub product_name: Option<String>,
}

/// One scheduled departure as reported by the departures endpoint. Every
/// field may be absent; defaulting (absent delay counts as no delay, absent
/// cancellation as not cancelled) is part of the rule specification, not of
/// the data shape.
pub struct Departure {
    pub delay: Option<i32>,
    pub cancelled: Option<bool>,
    pub line: Option<Line>,
}

/// An RGB color, one byte per channel.
#[derive(Clone, Copy, PartialEq, Eq, Structural, Debug)]
pub struct Color {
    pub r: u8,
    pub g: u8,
    pub b: u8,
}

/// The alert color: full red.
pub open spec fn red() -> Color {
    Color { r: 255, g: 0, b: 0 }
}

/// The warning color: full red and green.
pub open spec fn yellow() -> Color {
    Color { r: 255, g: 255, b: 0 }
}

impl Color {
    /// The alert color, red.
    pub fn alert() -> (c: Color)
        ensures
            c == red(),
    {
        Color { r: 255, g: 0, b: 0 }
    }

    /// The warning color, yellow.
    pub fn warning() -> (c: Color)
        ensures
            c == yellow(),
    {
        Color { r: 255, g: 255, b: 0 }
    }
}

} // verus!
