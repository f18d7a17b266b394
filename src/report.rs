//! The text of the report: one block per example, one summary line per
//! scored example, and the message of a failed build.

use vstd::prelude::*;
use vstd::string::{StrSliceExecFns, StringExecFns};
use crate::engine::Outcome;
use crate::example::IO;
use crate::verdict::{Marker, Res, marker_of, marker_text};

verus! {

pub open spec fn digit_char(d: nat) -> char {
    "0123456789"@[d as int]
}

/// The decimal digits of a number, without leading zeros.
pub open spec fn decimal_digits(n: nat) -> Seq<char>
    decreases n,
{
    if n < 10 {
        seq![digit_char(n)]
    } else {
        decimal_digits(n / 10).push(digit_char(n % 10))
    }
}

/// A number written in decimal.
pub fn decimal_text(n: u128) -> (r: String)
    ensures
        r@ == decimal_digits(n as nat),
    decreases n,
{
    let digits = "0123456789";
    proof {
        reveal_strlit("0123456789");
    }
    let d = (n % 10) as usize;
    let last = String::from_str(digits.substring_char(d, d + 1));
    assert(last@ =~= seq![digit_char(d as nat)]);
    if n < 10 {
        last
    } else {
        let r = decimal_text(n / 10).concat(last.as_str());
        assert(r@ =~= decimal_digits((n / 10) as nat).push(digit_char((n % 10) as nat)));
        r
    }
}

/// The first line of an example's block.
pub open spec fn header(index: nat) -> Seq<char> {
    marker_text(Marker::X) + " \x1b[35mexample"@ + decimal_digits(index + 1) + "\x1b[m\n"@
}

/// A titled part of a block.
pub open spec fn section(title: Seq<char>, body: Seq<char>) -> Seq<char> {
    marker_text(Marker::X) + " "@ + title + ":\n"@ + body + "\n"@
}

pub open spec fn time_line(ms: nat) -> Seq<char> {
    marker_text(Marker::X) + " time: "@ + decimal_digits(ms) + "\n"@
}

/// The coloured name of a verdict.
pub open spec fn label(r: Res) -> Seq<char> {
    match r {
        Res::AC => "\x1b[32mAC\x1b[m"@,
        Res::WA => "\x1b[33mWA\x1b[m"@,
        Res::CE => "\x1b[33mCE\x1b[m"@,
        Res::RE => "\x1b[33mRE\x1b[m"@,
        Res::TLE => "\x1b[33mTLE\x1b[m"@,
        Res::InternalError => "\x1b[32mError\x1b[m"@,
    }
}

/// The verdict line of a block; `TLE` and `CE` are followed by a blank line.
pub open spec fn verdict_line(r: Res) -> Seq<char> {
    if r == Res::TLE || r == Res::CE {
        marker_text(marker_of(r)) + " "@ + label(r) + "\n\n"@
    } else {
        marker_text(marker_of(r)) + " "@ + label(r) + "\n"@
    }
}

pub open spec fn note_part(note: Option<Seq<char>>) -> Seq<char> {
    match note {
        Some(d) => section("discription"@, d),
        None => Seq::empty(),
    }
}

/// The block of one example: its verdict, the judge's note, the input, the
/// expected output where it was not met, what the candidate printed and
/// how long it ran. A harness failure shows its message instead.
pub open spec fn example_block(
    index: nat,
    input: Seq<char>,
    expected: Seq<char>,
    verdict: Res,
    note: Option<Seq<char>>,
    stdout: Seq<char>,
    stderr: Seq<char>,
    ms: nat,
) -> Seq<char> {
    let head = header(index) + verdict_line(verdict);
    let ran = section("output"@, stdout) + "\n"@ + section("stderr"@, stderr) + time_line(ms) + "\n"@;
    match verdict {
        Res::TLE => head + section("input"@, input) + section("correct output"@, expected)
            + time_line(ms),
        Res::AC => head + note_part(note) + "\n"@ + section("input"@, input) + ran,
        Res::WA => head + note_part(note) + "\n"@ + section("input"@, input) + section(
            "correct output"@,
            expected,
        ) + ran,
        Res::RE => head + section("input"@, input) + ran,
        _ => head + marker_text(Marker::X) + " Error message or detail\n"@ + match note {
            Some(m) => m,
            None => Seq::empty(),
        } + "\n"@,
    }
}

fn section_text(title: &str, body: &str) -> (r: String)
    ensures
        r@ == section(title@, body@),
{
    Marker::X.text().concat(" ").concat(title).concat(":\n").concat(body).concat("\n")
}

fn time_text(ms: u128) -> (r: String)
    ensures
        r@ == time_line(ms as nat),
{
    Marker::X.text().concat(" time: ").concat(decimal_text(ms).as_str()).concat("\n")
}

/// The coloured name of a verdict.
pub fn label_text(r: Res) -> (s: String)
    ensures
        s@ == label(r),
{
    match r {
        Res::AC => String::from_str("\x1b[32mAC\x1b[m"),
        Res::WA => String::from_str("\x1b[33mWA\x1b[m"),
        Res::CE => String::from_str("\x1b[33mCE\x1b[m"),
        Res::RE => String::from_str("\x1b[33mRE\x1b[m"),
        Res::TLE => String::from_str("\x1b[33mTLE\x1b[m"),
        Res::InternalError => String::from_str("\x1b[32mError\x1b[m"),
    }
}

fn verdict_text(r: Res) -> (s: String)
    ensures
        s@ == verdict_line(r),
{
    let line = Marker::from(r).text().concat(" ").concat(label_text(r).as_str());
    if r == Res::TLE || r == Res::CE {
        line.concat("\n\n")
    } else {
        line.concat("\n")
    }
}

pub open spec fn opt_string(s: Option<String>) -> Option<Seq<char>> {
    match s {
        Some(t) => Some(t@),
        None => None,
    }
}

/// The block of the example at 0-based `index`.
pub fn example_report(
    index: usize,
    io: &IO,
    outcome: &Outcome,
    stdout: &str,
    stderr: &str,
    ms: u128,
) -> (r: String)
    ensures
        r@ == example_block(
            index as nat,
            io.input@,
            io.output@,
            outcome.verdict,
            opt_string(outcome.note),
            stdout@,
            stderr@,
            ms as nat,
        ),
{
    let head = Marker::X.text().concat(" \x1b[35mexample").concat(
        decimal_text(index as u128 + 1).as_str(),
    ).concat("\x1b[m\n").concat(verdict_text(outcome.verdict).as_str());
    let input = section_text("input", io.input.as_str());
    let expected = section_text("correct output", io.output.as_str());
    let ran = section_text("output", stdout).concat("\n").concat(
        section_text("stderr", stderr).as_str(),
    ).concat(time_text(ms).as_str()).concat("\n");
    let note = match &outcome.note {
        Some(d) => section_text("discription", d.as_str()),
        None => String::new(),
    };
    match outcome.verdict {
        Res::TLE => head.concat(input.as_str()).concat(expected.as_str()).concat(
            time_text(ms).as_str(),
        ),
        Res::AC => head.concat(note.as_str()).concat("\n").concat(input.as_str()).concat(
            ran.as_str(),
        ),
        Res::WA => head.concat(note.as_str()).concat("\n").concat(input.as_str()).concat(
            expected.as_str(),
        ).concat(ran.as_str()),
        Res::RE => head.concat(input.as_str()).concat(ran.as_str()),
        _ => {
            let message = match &outcome.note {
                Some(m) => m.clone(),
                None => String::new(),
            };
            head.concat(Marker::X.text().as_str()).concat(" Error message or detail\n").concat(
                message.as_str(),
            ).concat("\n")
        },
    }
}

/// The summary line of the example at 0-based `index`.
pub fn summary_line(index: usize, r: Res) -> (s: String)
    ensures
        s@ == marker_text(marker_of(r)) + " example"@ + decimal_digits(index as nat + 1) + ": "@
            + label(r),
{
    Marker::from(r).text().concat(" example").concat(decimal_text(index as u128 + 1).as_str()).concat(
        ": ",
    ).concat(label_text(r).as_str())
}

/// The message of a failed build, with its error stream.
pub fn build_failure_report(stderr: &str) -> (s: String)
    ensures
        s@ == verdict_line(Res::CE) + section("stderr"@, stderr@),
{
    verdict_text(Res::CE).concat(section_text("stderr", stderr).as_str())
}

} // verus!
