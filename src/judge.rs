//! The external-judge protocol: how the judge is invoked and how its answer
//! is read.

use vstd::prelude::*;
use vstd::string::{StrSliceExecFns, StringExecFns};
use crate::config::{texts, copy_texts};
use crate::verdict::{Marker, marker_text};

verus! {

/// What a finished process left: its exit code (none when a signal ended
/// it) and its two output streams as text.
#[derive(Debug)]
pub struct RunOutput {
    pub exit_code: Option<i32>,
    pub stdout: String,
    pub stderr: String,
}

/// A process to start: program, arguments and the text for its input stream.
#[derive(Debug)]
pub struct CommandLine {
    pub program: String,
    pub args: Vec<String>,
    pub input: String,
}

pub struct CommandLineView {
    pub program: Seq<char>,
    pub args: Seq<Seq<char>>,
    pub input: Seq<char>,
}

impl View for CommandLine {
    type V = CommandLineView;

    open spec fn view(&self) -> CommandLineView {
        CommandLineView { program: self.program@, args: texts(self.args@), input: self.input@ }
    }
}

/// The judge's answer: whether the output is accepted, and the optional
/// explanation on its second line.
#[derive(Debug)]
pub struct JudgeVerdict {
    pub accepted: bool,
    pub note: Option<String>,
}

/// Why the judge gave no answer.
#[derive(Debug)]
pub enum JudgeError {
    /// The judge exited with a status other than 0; its error stream.
    Failed(String),
    /// The first line of its output was neither `true` nor `false`.
    BadFormat,
}

/// The judge invocation for a candidate output `result` and the expected
/// output: the configured command with both appended as arguments, and both
/// on the input stream, one per line.
pub open spec fn judge_command(cmd: Seq<Seq<char>>, result: Seq<char>, expected: Seq<char>) -> CommandLineView {
    CommandLineView {
        program: cmd[0],
        args: cmd.drop_first() + seq![result, expected],
        input: result + "\n"@ + expected,
    }
}

/// Index of the first line break at or after `from`, or the length.
pub open spec fn line_end(s: Seq<char>, from: int) -> int
    decreases s.len() - from,
{
    if from >= s.len() {
        s.len() as int
    } else if s[from] == '\n' {
        from
    } else {
        line_end(s, from + 1)
    }
}

pub open spec fn first_line(s: Seq<char>) -> Seq<char> {
    s.subrange(0, line_end(s, 0))
}

/// The second line, present whenever the output holds a line break.
pub open spec fn second_line(s: Seq<char>) -> Option<Seq<char>> {
    let e = line_end(s, 0);
    if e < s.len() {
        Some(s.subrange(e + 1, line_end(s, e + 1)))
    } else {
        None
    }
}

/// What a judge's output means: `Some(verdict)` when its first line is
/// exactly `true` or `false`, `None` when the protocol is broken.
pub open spec fn judge_reading(s: Seq<char>) -> Option<bool> {
    if first_line(s) == "true"@ {
        Some(true)
    } else if first_line(s) == "false"@ {
        Some(false)
    } else {
        None
    }
}

/// Index of the first line break at or after `from`, or the length.
fn find_line_end(s: &str, len: usize, from: usize) -> (r: usize)
    requires
        len == s@.len(),
        from <= len,
    ensures
        r == line_end(s@, from as int),
        from <= r <= len,
{
    let mut i: usize = from;
    while i < len
        invariant
            from <= i <= len,
            len == s@.len(),
            line_end(s@, from as int) == line_end(s@, i as int),
        decreases len - i,
    {
        if s.get_char(i) == '\n' {
            return i;
        }
        i = i + 1;
    }
    i
}

/// Reads the judge's output: the first line decides, the second, if any, is
/// the explanation.
pub fn parse_judge_output(out: &str) -> (r: Result<JudgeVerdict, JudgeError>)
    ensures
        r is Ok <==> judge_reading(out@) is Some,
        r is Ok ==> r->Ok_0.accepted == judge_reading(out@)->Some_0,
        r is Ok ==> match r->Ok_0.note {
            Some(n) => second_line(out@) == Some(n@),
            None => second_line(out@) is None,
        },
        r is Err ==> r->Err_0 is BadFormat,
{
    let len = out.unicode_len();
    let e = find_line_end(out, len, 0);
    let first = String::from_str(out.substring_char(0, e));
    let accepted = if first == String::from_str("true") {
        true
    } else if first == String::from_str("false") {
        false
    } else {
        return Err(JudgeError::BadFormat);
    };
    let note = if e < len {
        let e2 = find_line_end(out, len, e + 1);
        Some(String::from_str(out.substring_char(e + 1, e2)))
    } else {
        None
    };
    Ok(JudgeVerdict { accepted, note })
}

/// Reads a finished judge run: a status other than 0 is a failure that
/// carries the judge's error stream; otherwise the output is read.
pub fn judge_verdict(out: &RunOutput) -> (r: Result<JudgeVerdict, JudgeError>)
    ensures
        out.exit_code != Some(0i32) ==> (r matches Err(JudgeError::Failed(e)) && e@ == out.stderr@),
        out.exit_code == Some(0i32) ==> {
            &&& (r is Ok <==> judge_reading(out.stdout@) is Some)
            &&& r is Ok ==> r->Ok_0.accepted == judge_reading(out.stdout@)->Some_0
            &&& r is Ok ==> match r->Ok_0.note {
                Some(n) => second_line(out.stdout@) == Some(n@),
                None => second_line(out.stdout@) is None,
            }
            &&& r is Err ==> r->Err_0 is BadFormat
        },
{
    match out.exit_code {
        Some(0i32) => parse_judge_output(out.stdout.as_str()),
        _ => Err(JudgeError::Failed(out.stderr.clone())),
    }
}

/// The judge invocation for a candidate output and the expected output.
pub fn judge_request(cmd: &Vec<String>, result: &str, expected: &str) -> (r: CommandLine)
    requires
        cmd@.len() > 0,
    ensures
        r@ == judge_command(texts(cmd@), result@, expected@),
{
    let mut args = copy_texts(cmd);
    let program = args.remove(0);
    args.push(String::from_str(result));
    args.push(String::from_str(expected));
    let input = String::from_str(result).concat("\n").concat(expected);
    assert(texts(args@) =~= texts(cmd@).drop_first() + seq![result@, expected@]);
    CommandLine { program, args, input }
}

impl JudgeError {
    /// The message that reports the error.
    pub fn message(&self) -> (r: String)
        ensures
            r@ == match self {
                JudgeError::Failed(e) => marker_text(Marker::Minus)
                    + " The test command failed\n"@ + marker_text(Marker::X)
                    + " Error message\n"@ + e@,
                JudgeError::BadFormat => marker_text(Marker::Minus)
                    + " Output format is wrong. The first line of output has to be \"true\" or \"false\""@,
            },
    {
        match self {
            JudgeError::Failed(e) => Marker::Minus.text().concat(" The test command failed\n").concat(
                Marker::X.text().as_str(),
            ).concat(" Error message\n").concat(e.as_str()),
            JudgeError::BadFormat => Marker::Minus.text().concat(
                " Output format is wrong. The first line of output has to be \"true\" or \"false\"",
            ),
        }
    }
}

} // verus!
