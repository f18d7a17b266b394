//! The per-example state machine and the ordered collection of outcomes.
//!
//! The caller runs processes and races them against the deadline; these
//! functions decide what each event means and what to do next.

use vstd::prelude::*;
use vstd::string::StringExecFns;
use crate::config::{RunConfig, copy_texts, texts};
use crate::staleness::{CacheState, opt_view, staleness};
use crate::example::IO;
use crate::judge::{
    CommandLine, CommandLineView, RunOutput, judge_command, judge_reading, judge_request, judge_verdict,
    second_line,
};
use crate::verdict::Res;

verus! {

/// How a started process ended, as seen by the caller.
#[derive(Debug)]
pub enum RunEvent {
    /// It could not be started, fed or read; the reason.
    Failed(String),
    /// The deadline passed first; the process was killed.
    TimedOut,
    /// It exited.
    Exited(RunOutput),
}

/// The outcome of one example: its verdict and an optional note (the
/// judge's explanation, or what went wrong in the harness).
#[derive(Debug)]
pub struct Outcome {
    pub verdict: Res,
    pub note: Option<String>,
}

/// What to do after the candidate has run.
#[derive(Debug)]
pub enum Step {
    /// The example is decided.
    Done(Outcome),
    /// Run the judge with this command line, then call `after_judge`.
    Judge(CommandLine),
}

/// A judge is in use when the configured command is present and not empty.
pub open spec fn judge_active(judge: Option<Vec<String>>) -> bool {
    judge is Some && judge->Some_0@.len() > 0
}

/// The verdict of exact-match mode: a non-zero (or missing) exit code is a
/// runtime error whatever was printed; otherwise the output must equal the
/// expected text exactly.
pub open spec fn exact_verdict(exit_code: Option<i32>, stdout: Seq<char>, expected: Seq<char>) -> Res {
    if exit_code != Some(0i32) {
        Res::RE
    } else if stdout == expected {
        Res::AC
    } else {
        Res::WA
    }
}

/// The verdict once the judge has exited.
pub open spec fn judged_verdict(exit_code: Option<i32>, stdout: Seq<char>) -> Res {
    if exit_code != Some(0i32) {
        Res::InternalError
    } else {
        match judge_reading(stdout) {
            Some(true) => Res::AC,
            Some(false) => Res::WA,
            None => Res::InternalError,
        }
    }
}

/// Decides an example from the candidate's run, or asks for the judge.
pub fn after_run(example: &IO, judge: &Option<Vec<String>>, event: RunEvent) -> (r: Step)
    ensures
        event is TimedOut ==> (r matches Step::Done(o) && o.verdict == Res::TLE && o.note is None),
        event is Failed ==> (r matches Step::Done(o) && o.verdict == Res::InternalError
            && o.note is Some && o.note->Some_0@ == event->Failed_0@),
        event is Exited ==> {
            let out = event->Exited_0;
            &&& out.exit_code != Some(0i32) ==> (r matches Step::Done(o) && o.verdict == Res::RE
                && o.note is None)
            &&& out.exit_code == Some(0i32) && judge_active(*judge) ==> (r matches Step::Judge(c)
                && c@ == judge_command(texts(judge->Some_0@), out.stdout@, example.output@))
            &&& out.exit_code == Some(0i32) && !judge_active(*judge) ==> (r matches Step::Done(o)
                && o.verdict == exact_verdict(out.exit_code, out.stdout@, example.output@)
                && o.note is None)
        },
{
    match event {
        RunEvent::Failed(reason) => Step::Done(Outcome { verdict: Res::InternalError, note: Some(reason) }),
        RunEvent::TimedOut => Step::Done(Outcome { verdict: Res::TLE, note: None }),
        RunEvent::Exited(out) => {
            match out.exit_code {
                Some(0i32) => {},
                _ => {
                    return Step::Done(Outcome { verdict: Res::RE, note: None });
                },
            }
            match judge {
                Some(cmd) => {
                    if cmd.len() > 0 {
                        return Step::Judge(
                            judge_request(cmd, out.stdout.as_str(), example.output.as_str()),
                        );
                    }
                },
                None => {},
            }
            let verdict = if out.stdout == example.output {
                Res::AC
            } else {
                Res::WA
            };
            Step::Done(Outcome { verdict, note: None })
        },
    }
}

/// Decides an example from the judge's run. A judge that cannot be run, fails
/// or answers outside the protocol is a harness failure, never a wrong answer.
pub fn after_judge(event: RunEvent) -> (r: Outcome)
    ensures
        event is Exited ==> {
            let out = event->Exited_0;
            &&& r.verdict == judged_verdict(out.exit_code, out.stdout@)
            &&& (r.verdict == Res::AC || r.verdict == Res::WA) ==> match r.note {
                Some(n) => second_line(out.stdout@) == Some(n@),
                None => second_line(out.stdout@) is None,
            }
            &&& r.verdict == Res::InternalError ==> r.note is Some
        },
        event is Failed ==> r.verdict == Res::InternalError && r.note is Some
            && r.note->Some_0@ == event->Failed_0@,
        event is TimedOut ==> r.verdict == Res::InternalError,
{
    match event {
        RunEvent::Failed(reason) => Outcome { verdict: Res::InternalError, note: Some(reason) },
        RunEvent::TimedOut => Outcome {
            verdict: Res::InternalError,
            note: Some(String::from_str("the test command did not finish")),
        },
        RunEvent::Exited(out) => match judge_verdict(&out) {
            Ok(v) => Outcome {
                verdict: if v.accepted {
                    Res::AC
                } else {
                    Res::WA
                },
                note: v.note,
            },
            Err(e) => Outcome { verdict: Res::InternalError, note: Some(e.message()) },
        },
    }
}

/// The per-run deadline in milliseconds, saturating at the largest `u64`.
pub fn timeout_ms(time_limit: u128) -> (r: u64)
    ensures
        r == if time_limit > u64::MAX as u128 {
            u64::MAX as int
        } else {
            time_limit as int
        },
{
    if time_limit > u64::MAX as u128 {
        u64::MAX
    } else {
        time_limit as u64
    }
}

/// Exact-match mode on a candidate that echoes its input: accepted exactly
/// when the expected output equals the input.
pub proof fn lemma_echo_exact_match(input: Seq<char>, expected: Seq<char>)
    ensures
        exact_verdict(Some(0i32), input, expected) == if input == expected {
            Res::AC
        } else {
            Res::WA
        },
{
}

/// A candidate that exits with a status other than 0 gets `RE`, whatever it
/// printed.
pub proof fn lemma_nonzero_exit_is_runtime_error(
    exit_code: Option<i32>,
    stdout: Seq<char>,
    expected: Seq<char>,
)
    requires
        exit_code != Some(0i32),
    ensures
        exact_verdict(exit_code, stdout, expected) == Res::RE,
{
}

/// The place of one example in a session.
#[derive(Clone, Copy, Debug, PartialEq, Eq, Structural)]
pub enum Slot {
    /// Not selected: it does not run and is not scored.
    Skipped,
    /// Selected, with no outcome yet.
    Waiting,
    Done(Res),
}

/// The outcomes of one test run, kept in example order.
#[derive(Debug)]
pub struct Session {
    build_failed: bool,
    slots: Vec<Slot>,
}

pub struct SessionView {
    pub build_failed: bool,
    pub slots: Seq<Slot>,
}

impl View for Session {
    type V = SessionView;

    closed spec fn view(&self) -> SessionView {
        SessionView { build_failed: self.build_failed, slots: self.slots@ }
    }
}

/// Whether the example at 0-based `index` runs: all do when the selection
/// is empty, otherwise those whose 1-based number it lists.
pub open spec fn is_selected(selection: Seq<usize>, index: int) -> bool {
    selection.len() == 0 || exists|k: int| 0 <= k < selection.len() && selection[k] as int == index + 1
}

pub open spec fn new_session(n: nat, selection: Seq<usize>) -> SessionView {
    SessionView {
        build_failed: false,
        slots: Seq::new(n, |i: int| if is_selected(selection, i) {
            Slot::Waiting
        } else {
            Slot::Skipped
        }),
    }
}

/// Recording an outcome fills a waiting slot and changes nothing else.
pub open spec fn record_outcome(s: SessionView, index: int, verdict: Res) -> SessionView {
    if 0 <= index < s.slots.len() && s.slots[index] == Slot::Waiting {
        SessionView { build_failed: s.build_failed, slots: s.slots.update(index, Slot::Done(verdict)) }
    } else {
        s
    }
}

pub open spec fn record_all(s: SessionView, records: Seq<(int, Res)>) -> SessionView
    decreases records.len(),
{
    if records.len() == 0 {
        s
    } else {
        record_outcome(record_all(s, records.drop_last()), records.last().0, records.last().1)
    }
}

pub open spec fn after_build_failure(s: SessionView) -> SessionView {
    SessionView { build_failed: true, slots: s.slots }
}

/// Whether the example at `index` is still to be run.
pub open spec fn to_run(s: SessionView, index: int) -> bool {
    !s.build_failed && 0 <= index < s.slots.len() && s.slots[index] == Slot::Waiting
}

pub open spec fn slot_result(slot: Slot) -> Option<Res> {
    match slot {
        Slot::Skipped => None,
        Slot::Waiting => Some(Res::InternalError),
        Slot::Done(r) => Some(r),
    }
}

/// The result list: a single `CE` when the build failed; otherwise one entry
/// per example, absent for those not selected. A selected example that never
/// reported counts as a harness failure.
pub open spec fn session_results(s: SessionView) -> Seq<Option<Res>> {
    if s.build_failed {
        seq![Some(Res::CE)]
    } else {
        s.slots.map_values(|slot: Slot| slot_result(slot))
    }
}

/// Whether the example at 0-based `index` is selected.
pub fn selected(selection: &Vec<usize>, index: usize) -> (r: bool)
    requires
        index < usize::MAX,
    ensures
        r == is_selected(selection@, index as int),
{
    if selection.len() == 0 {
        return true;
    }
    let mut k: usize = 0;
    while k < selection.len()
        invariant
            0 <= k <= selection@.len(),
            index < usize::MAX,
            forall|j: int| 0 <= j < k ==> (#[trigger] selection@[j]) as int != index + 1,
        decreases selection@.len() - k,
    {
        if selection[k] == index + 1 {
            return true;
        }
        k = k + 1;
    }
    false
}

impl Session {
    /// A session over `n` examples, of which `selection` picks those to run.
    pub fn new(n: usize, selection: &Vec<usize>) -> (r: Session)
        ensures
            r@ == new_session(n as nat, selection@),
    {
        let mut slots: Vec<Slot> = Vec::new();
        let mut i: usize = 0;
        while i < n
            invariant
                0 <= i <= n,
                slots@ =~= new_session(i as nat, selection@).slots,
            decreases n - i,
        {
            let slot = if selected(selection, i) {
                Slot::Waiting
            } else {
                Slot::Skipped
            };
            slots.push(slot);
            i = i + 1;
            assert(slots@ =~= new_session(i as nat, selection@).slots);
        }
        Session { build_failed: false, slots }
    }

    /// The build failed: nothing runs, and the result is a single `CE`.
    pub fn fail_build(&mut self)
        ensures
            final(self)@ == after_build_failure(old(self)@),
    {
        self.build_failed = true;
    }

    /// Records the verdict of a waiting example.
    pub fn record(&mut self, index: usize, verdict: Res)
        ensures
            final(self)@ == record_outcome(old(self)@, index as int, verdict),
    {
        if index < self.slots.len() && self.slots[index] == Slot::Waiting {
            self.slots.set(index, Slot::Done(verdict));
        }
    }

    /// The indices of the examples still to run, in increasing order.
    pub fn pending(&self) -> (r: Vec<usize>)
        ensures
            forall|k: int| 0 <= k < r@.len() ==> to_run(self@, #[trigger] r@[k] as int),
            forall|i: int| to_run(self@, i) ==> exists|k: int| 0 <= k < r@.len() && #[trigger] r@[k] as int == i,
            forall|k: int, l: int| 0 <= k < l < r@.len() ==> r@[k] < r@[l],
    {
        let mut out: Vec<usize> = Vec::new();
        if self.build_failed {
            return out;
        }
        let mut i: usize = 0;
        while i < self.slots.len()
            invariant
                0 <= i <= self.slots@.len(),
                !self.build_failed,
                forall|k: int| 0 <= k < out@.len() ==> to_run(self@, #[trigger] out@[k] as int),
                forall|k: int| 0 <= k < out@.len() ==> #[trigger] out@[k] < i,
                forall|j: int| 0 <= j < i && to_run(self@, j) ==> exists|k: int| 0 <= k < out@.len() && #[trigger] out@[k] as int == j,
                forall|k: int, l: int| 0 <= k < l < out@.len() ==> out@[k] < out@[l],
            decreases self.slots@.len() - i,
        {
            let ghost before = out@;
            if self.slots[i] == Slot::Waiting {
                out.push(i);
            }
            proof {
                assert forall|j: int| 0 <= j < i + 1 && to_run(self@, j) implies exists|k: int|
                    0 <= k < out@.len() && #[trigger] out@[k] as int == j by {
                    if j < i {
                        let k = choose|k: int| 0 <= k < before.len() && #[trigger] before[k] as int == j;
                        assert(out@[k] == before[k]);
                    } else {
                        assert(out@[out@.len() - 1] as int == j);
                    }
                }
            }
            i = i + 1;
        }
        out
    }

    /// The result list, in example order.
    pub fn results(&self) -> (r: Vec<Option<Res>>)
        ensures
            r@ == session_results(self@),
    {
        if self.build_failed {
            let r = vec![Some(Res::CE)];
            assert(r@ =~= seq![Some(Res::CE)]);
            return r;
        }
        let mut out: Vec<Option<Res>> = Vec::new();
        let mut i: usize = 0;
        while i < self.slots.len()
            invariant
                0 <= i <= self.slots@.len(),
                !self.build_failed,
                out@ =~= self.slots@.subrange(0, i as int).map_values(|slot: Slot| slot_result(slot)),
            decreases self.slots@.len() - i,
        {
            let entry = match self.slots[i] {
                Slot::Skipped => None,
                Slot::Waiting => Some(Res::InternalError),
                Slot::Done(v) => Some(v),
            };
            out.push(entry);
            i = i + 1;
            assert(out@ =~= self.slots@.subrange(0, i as int).map_values(|slot: Slot| slot_result(slot)));
        }
        assert(self.slots@.subrange(0, self.slots@.len() as int) =~= self.slots@);
        out
    }
}

/// The build command line: the first item is the program, the rest its
/// arguments, with nothing on its input stream.
pub open spec fn build_command(b: Seq<Seq<char>>) -> CommandLineView {
    CommandLineView { program: b[0], args: b.drop_first(), input: Seq::empty() }
}

/// The build to run before the examples, if any. Without a build entry the
/// cache is not consulted and nothing is built; otherwise the staleness
/// checks run, and the build runs when they ask for it and the entry is not
/// empty.
pub fn build_plan(
    config: &RunConfig,
    cache: &mut CacheState,
    source: Option<&str>,
    contents: &Vec<String>,
    force: bool,
) -> (r: Option<CommandLine>)
    requires
        config.deps_files is Some ==> config.deps_files->Some_0@.len() == contents@.len(),
    ensures
        config.build is None ==> r is None && final(cache)@ == old(cache)@,
        config.build is Some ==> {
            let (stale, after) = staleness(
                old(cache)@,
                config@,
                opt_view(source),
                texts(contents@),
                force,
            );
            let b = texts(config.build->Some_0@);
            &&& final(cache)@ == after
            &&& (r is Some <==> stale && b.len() > 0)
            &&& r is Some ==> r->Some_0@ == build_command(b)
        },
{
    match &config.build {
        None => None,
        Some(b) => {
            let stale = cache.needs_build(config, source, contents, force);
            if !stale || b.len() == 0 {
                return None;
            }
            let mut args = copy_texts(b);
            let program = args.remove(0);
            assert(texts(args@) =~= texts(b@).drop_first());
            Some(CommandLine { program, args, input: String::new() })
        },
    }
}

/// Whether a finished build failed: any status but 0, or none.
pub fn build_failed(exit_code: Option<i32>) -> (r: bool)
    ensures
        r == (exit_code != Some(0i32)),
{
    match exit_code {
        Some(0i32) => false,
        _ => true,
    }
}

/// After a failed build the result is a single `CE` and no example runs,
/// whatever had been recorded.
pub proof fn lemma_failed_build_runs_nothing(s: SessionView)
    ensures
        session_results(after_build_failure(s)) == seq![Some(Res::CE)],
        forall|i: int| !to_run(after_build_failure(s), i),
{
}

/// Whatever outcomes are recorded, the result list holds an entry exactly at
/// the selected examples.
pub proof fn lemma_results_follow_selection(n: nat, selection: Seq<usize>, records: Seq<(int, Res)>)
    ensures
        session_results(record_all(new_session(n, selection), records)).len() == n,
        forall|i: int|
            0 <= i < n ==> (#[trigger] session_results(record_all(new_session(n, selection), records))[i]
                is Some <==> is_selected(selection, i)),
    decreases records.len(),
{
    lemma_skipped_kept(n, selection, records);
}

proof fn lemma_skipped_kept(n: nat, selection: Seq<usize>, records: Seq<(int, Res)>)
    ensures
        !record_all(new_session(n, selection), records).build_failed,
        record_all(new_session(n, selection), records).slots.len() == n,
        forall|i: int|
            0 <= i < n ==> ((#[trigger] record_all(new_session(n, selection), records).slots[i]
                == Slot::Skipped) <==> !is_selected(selection, i)),
    decreases records.len(),
{
    if records.len() > 0 {
        lemma_skipped_kept(n, selection, records.drop_last());
    }
}

/// A judge that exits normally but whose first line is neither `true` nor
/// `false` yields a harness failure, never a wrong answer.
pub proof fn lemma_protocol_violation_is_harness_failure(stdout: Seq<char>)
    requires
        judge_reading(stdout) is None,
    ensures
        judged_verdict(Some(0i32), stdout) == Res::InternalError,
{
}

} // verus!
