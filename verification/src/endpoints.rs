//! Request building: the departures URL, the indicator URL, and the
//! indicator payload body, each pinned to an exact character sequence.

use vstd::prelude::*;
use vstd::string::StringExecFns;

use crate::model::Color;

verus! {

/// The six process-wide settings, read once at start and immutable after.
pub struct Config {
    pub indicator_host: String,
    pub indicator_path: String,
    pub departures_host: String,
    pub station_id: String,
    pub direction: String,
    pub duration: String,
}

/// The characters of the departures query URL.
pub open spec fn departures_url_chars(
    host: Seq<char>,
    station: Seq<char>,
    direction: Seq<char>,
    duration: Seq<char>,
) -> Seq<char> {
    "http://"@ + host + "/stops/"@ + station + "/departures?direction="@ + direction
        + "&duration="@ + duration
}

/// The characters of the indicator update URL.
pub open spec fn indicator_url_chars(host: Seq<char>, path: Seq<char>) -> Seq<char> {
    "http://"@ + host + "/api/indicator"@ + path
}

/// The digit character for one decimal digit; digits outside 0..=9 never
/// arise from a remainder.
pub open spec fn digit_char(d: int) -> char {
    if d == 0 {
        '0'
    } else if d == 1 {
        '1'
    } else if d == 2 {
        '2'
    } else if d == 3 {
        '3'
    } else if d == 4 {
        '4'
    } else if d == 5 {
        '5'
    } else if d == 6 {
        '6'
    } else if d == 7 {
        '7'
    } else if d == 8 {
        '8'
    } else {
        '9'
    }
}

/// The decimal digit characters of a non-negative integer, most significant
/// first, with no leading zero except for zero itself.
pub open spec fn decimal_chars(n: int) -> Seq<char>
    decreases n,
{
    if n < 10 {
        seq![digit_char(n)]
    } else {
        decimal_chars(n / 10).push(digit_char(n % 10))
    }
}

/// The characters of the indicator payload body for a color.
pub open spec fn payload_chars(c: Color) -> Seq<char> {
    "{\"color\":["@ + decimal_chars(c.r as int) + ","@ + decimal_chars(c.g as int) + ","@
        + decimal_chars(c.b as int) + "]}"@
}

/// The departures query URL for this configuration.
pub fn departures_url(c: &Config) -> (u: String)
    ensures
        u@ == departures_url_chars(c.departures_host@, c.station_id@, c.direction@, c.duration@),
{
    let u = String::from_str("http://");
    let u = u.concat(c.departures_host.as_str());
    let u = u.concat("/stops/");
    let u = u.concat(c.station_id.as_str());
    let u = u.concat("/departures?direction=");
    let u = u.concat(c.direction.as_str());
    let u = u.concat("&duration=");
    let u = u.concat(c.duration.as_str());
    u
}

/// The indicator update URL for this configuration.
pub fn indicator_url(c: &Config) -> (u: String)
    ensures
        u@ == indicator_url_chars(c.indicator_host@, c.indicator_path@),
{
    let u = String::from_str("http://");
    let u = u.concat(c.indicator_host.as_str());
    let u = u.concat("/api/indicator");
    let u = u.concat(c.indicator_path.as_str());
    u
}

/// The one-character string for a decimal digit.
fn digit_str(d: u16) -> (s: &'static str)
    requires
        d < 10,
    ensures
        s@ == seq![digit_char(d as int)],
{
    proof {
        reveal_strlit("0");
        reveal_strlit("1");
        reveal_strlit("2");
        reveal_strlit("3");
        reveal_strlit("4");
        reveal_strlit("5");
        reveal_strlit("6");
        reveal_strlit("7");
        reveal_strlit("8");
        reveal_strlit("9");
    }
    match d {
        0 => "0",
        1 => "1",
        2 => "2",
        3 => "3",
        4 => "4",
        5 => "5",
        6 => "6",
        7 => "7",
        8 => "8",
        _ => "9",
    }
}

/// Appends the decimal digits of `n` to `out`.
fn push_decimal(n: u16, out: &mut String)
    ensures
        final(out)@ == old(out)@ + decimal_chars(n as int),
    decreases n,
{
    if n < 10 {
        out.append(digit_str(n));
    } else {
        push_decimal(n / 10, out);
        out.append(digit_str(n % 10));
        assert(out@ =~= old(out)@ + decimal_chars(n as int));
    }
}

/// The decimal digit string of a number, most significant digit first.
pub fn decimal_string(n: u16) -> (s: String)
    ensures
        s@ == decimal_chars(n as int),
{
    let mut s = String::new();
    push_decimal(n, &mut s);
    proof {
        assert(s@ =~= decimal_chars(n as int));
    }
    s
}

/// The indicator payload body for a color.
pub fn indicator_payload(c: &Color) -> (s: String)
    ensures
        s@ == payload_chars(*c),
{
    let mut s = String::from_str("{\"color\":[");
    push_decimal(c.r as u16, &mut s);
    s.append(",");
    push_decimal(c.g as u16, &mut s);
    s.append(",");
    push_decimal(c.b as u16, &mut s);
    s.append("]}");
    proof {
        assert(s@ =~= payload_chars(*c));
    }
    s
}

} // verus!
