use attest::engine::Outcome;
use attest::example::IO;
use attest::report::{build_failure_report, decimal_text, example_report, label_text, summary_line};
use attest::verdict::Res;

const X: &str = "\x1b[35m[x]\x1b[m";
const PLUS: &str = "\x1b[32m[+]\x1b[m";
const MINUS: &str = "\x1b[31m[-]\x1b[m";

fn io() -> IO {
    IO::new("1 2\n".to_string(), "3\n".to_string())
}

#[test]
fn decimal_numbers_are_written() {
    assert_eq!(decimal_text(0), "0");
    assert_eq!(decimal_text(7), "7");
    assert_eq!(decimal_text(10), "10");
    assert_eq!(decimal_text(1234567890), "1234567890");
    assert_eq!(decimal_text(u128::MAX), u128::MAX.to_string());
}

#[test]
fn accepted_block() {
    let o = Outcome { verdict: Res::AC, note: None };
    let r = example_report(0, &io(), &o, "3\n", "", 12);
    let want = format!(
        "{X} \x1b[35mexample1\x1b[m\n{PLUS} \x1b[32mAC\x1b[m\n\n{X} input:\n1 2\n\n{X} output:\n3\n\n\n{X} stderr:\n\n{X} time: 12\n\n"
    );
    assert_eq!(r, want);
}

#[test]
fn wrong_answer_block_with_note() {
    let o = Outcome { verdict: Res::WA, note: Some("off by one".to_string()) };
    let r = example_report(2, &io(), &o, "4\n", "warn", 5);
    let want = format!(
        "{X} \x1b[35mexample3\x1b[m\n{MINUS} \x1b[33mWA\x1b[m\n{X} discription:\noff by one\n\n{X} input:\n1 2\n\n{X} correct output:\n3\n\n{X} output:\n4\n\n\n{X} stderr:\nwarn\n{X} time: 5\n\n"
    );
    assert_eq!(r, want);
}

#[test]
fn runtime_error_block() {
    let o = Outcome { verdict: Res::RE, note: None };
    let r = example_report(0, &io(), &o, "", "panic", 1);
    let want = format!(
        "{X} \x1b[35mexample1\x1b[m\n{MINUS} \x1b[33mRE\x1b[m\n{X} input:\n1 2\n\n{X} output:\n\n\n{X} stderr:\npanic\n{X} time: 1\n\n"
    );
    assert_eq!(r, want);
}

#[test]
fn time_limit_block() {
    let o = Outcome { verdict: Res::TLE, note: None };
    let r = example_report(1, &io(), &o, "", "", 2001);
    let want = format!(
        "{X} \x1b[35mexample2\x1b[m\n{MINUS} \x1b[33mTLE\x1b[m\n\n{X} input:\n1 2\n\n{X} correct output:\n3\n\n{X} time: 2001\n"
    );
    assert_eq!(r, want);
}

#[test]
fn harness_failure_block() {
    let o = Outcome { verdict: Res::InternalError, note: Some("spawn failed".to_string()) };
    let r = example_report(0, &io(), &o, "", "", 0);
    let want = format!(
        "{X} \x1b[35mexample1\x1b[m\n{MINUS} \x1b[32mError\x1b[m\n{X} Error message or detail\nspawn failed\n"
    );
    assert_eq!(r, want);
}

#[test]
fn summary_lines() {
    assert_eq!(summary_line(0, Res::AC), format!("{PLUS} example1: \x1b[32mAC\x1b[m"));
    assert_eq!(summary_line(9, Res::TLE), format!("{MINUS} example10: \x1b[33mTLE\x1b[m"));
    assert_eq!(label_text(Res::RE), "\x1b[33mRE\x1b[m");
}

#[test]
fn build_failure_message() {
    assert_eq!(
        build_failure_report("error: x"),
        format!("{MINUS} \x1b[33mCE\x1b[m\n\n{X} stderr:\nerror: x\n")
    );
}
