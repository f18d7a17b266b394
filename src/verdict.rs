//! Verdicts and the coloured markers that prefix report lines.

use vstd::prelude::*;
use vstd::string::StringExecFns;

verus! {

/// The verdict for one example, or `CE` for a whole run whose build failed.
#[derive(Clone, Copy, Debug, PartialEq, Eq, Structural)]
pub enum Res {
    AC,
    WA,
    CE,
    RE,
    TLE,
    /// The harness itself failed (spawn error, I/O error, judge protocol violation).
    InternalError,
}

/// Prefix of a report line: success, failure, or plain information.
#[derive(Clone, Copy, Debug, PartialEq, Eq, Structural)]
pub enum Marker {
    Plus,
    Minus,
    X,
}

pub open spec fn marker_text(m: Marker) -> Seq<char> {
    match m {
        Marker::Plus => "\x1b[32m[+]\x1b[m"@,
        Marker::Minus => "\x1b[31m[-]\x1b[m"@,
        Marker::X => "\x1b[35m[x]\x1b[m"@,
    }
}

/// The marker that heads the summary line of a verdict.
pub open spec fn marker_of(r: Res) -> Marker {
    if r == Res::AC {
        Marker::Plus
    } else {
        Marker::Minus
    }
}

impl Marker {
    /// The coloured text of the marker.
    pub fn text(&self) -> (r: String)
        ensures
            r@ == marker_text(*self),
    {
        match self {
            Marker::Plus => String::from_str("\x1b[32m[+]\x1b[m"),
            Marker::Minus => String::from_str("\x1b[31m[-]\x1b[m"),
            Marker::X => String::from_str("\x1b[35m[x]\x1b[m"),
        }
    }

    /// `value` prefixed by the success marker and a space.
    pub fn plus(value: &str) -> (r: String)
        ensures
            r@ == marker_text(Marker::Plus) + " "@ + value@,
    {
        Marker::Plus.text().concat(" ").concat(value)
    }

    /// `value` prefixed by the failure marker and a space.
    pub fn minus(value: &str) -> (r: String)
        ensures
            r@ == marker_text(Marker::Minus) + " "@ + value@,
    {
        Marker::Minus.text().concat(" ").concat(value)
    }
}

impl From<Res> for Marker {
    fn from(value: Res) -> (r: Marker) {
        match value {
            Res::AC => Marker::Plus,
            _ => Marker::Minus,
        }
    }
}

impl vstd::std_specs::convert::FromSpecImpl<Res> for Marker {
    open spec fn obeys_from_spec() -> bool {
        true
    }

    open spec fn from_spec(v: Res) -> Marker {
        marker_of(v)
    }
}

/// Message for a file that could not be created.
pub fn create_err(path: &str) -> (r: String)
    ensures
        r@ == marker_text(Marker::Minus) + " something went wrong creating "@ + path@,
{
    Marker::Minus.text().concat(" something went wrong creating ").concat(path)
}

/// Message for a file that could not be written.
pub fn write_err(path: &str) -> (r: String)
    ensures
        r@ == marker_text(Marker::Minus) + " something went wrong writing to "@ + path@,
{
    Marker::Minus.text().concat(" something went wrong writing to ").concat(path)
}

} // verus!
