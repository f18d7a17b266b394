use attest::engine::{build_failed, selected, Session};
use attest::verdict::Res;

#[test]
fn selection_of_two_among_three() {
    let mut s = Session::new(3, &vec![2]);
    assert_eq!(s.pending(), vec![1]);
    s.record(1, Res::AC);
    assert_eq!(s.results(), vec![None, Some(Res::AC), None]);
}

#[test]
fn empty_selection_runs_all() {
    let mut s = Session::new(3, &Vec::new());
    assert_eq!(s.pending(), vec![0, 1, 2]);
    s.record(2, Res::WA);
    s.record(0, Res::AC);
    s.record(1, Res::TLE);
    assert_eq!(
        s.results(),
        vec![Some(Res::AC), Some(Res::TLE), Some(Res::WA)]
    );
    assert!(s.pending().is_empty());
}

#[test]
fn unreported_example_is_internal_error() {
    let s = Session::new(2, &vec![1]);
    assert_eq!(s.results(), vec![Some(Res::InternalError), None]);
}

#[test]
fn recording_a_skipped_example_changes_nothing() {
    let mut s = Session::new(3, &vec![2]);
    s.record(0, Res::AC);
    s.record(7, Res::AC);
    assert_eq!(s.results(), vec![None, Some(Res::InternalError), None]);
}

#[test]
fn selection_out_of_range_runs_nothing() {
    let s = Session::new(2, &vec![5]);
    assert!(s.pending().is_empty());
    assert_eq!(s.results(), vec![None, None]);
}

#[test]
fn failed_build_is_single_ce() {
    let mut s = Session::new(3, &Vec::new());
    assert!(build_failed(Some(1)));
    s.fail_build();
    assert!(s.pending().is_empty());
    assert_eq!(s.results(), vec![Some(Res::CE)]);
}

#[test]
fn build_status() {
    assert!(!build_failed(Some(0)));
    assert!(build_failed(Some(2)));
    assert!(build_failed(None));
}

#[test]
fn selection_is_one_based() {
    assert!(selected(&vec![1, 3], 0));
    assert!(!selected(&vec![1, 3], 1));
    assert!(selected(&vec![1, 3], 2));
    assert!(selected(&Vec::new(), 9));
}
