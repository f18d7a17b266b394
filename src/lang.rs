//! The submission languages offered by the site: finding one by name and
//! searching names.

use vstd::prelude::*;
use vstd::string::{StrSliceExecFns, StringExecFns};

verus! {

/// A character with ASCII capitals folded to lower case.
pub open spec fn fold(c: char) -> int {
    if 'A' <= c && c <= 'Z' {
        (c as int) + 32
    } else {
        c as int
    }
}

/// Whether `q` occurs in `s` at `at`, ignoring ASCII case.
pub open spec fn occurs_at(s: Seq<char>, q: Seq<char>, at: int) -> bool {
    0 <= at && at + q.len() <= s.len() && forall|j: int|
        0 <= j < q.len() ==> fold(#[trigger] s[at + j]) == fold(q[j])
}

/// Whether `q` occurs in `s`, ignoring ASCII case.
pub open spec fn contains_folded(s: Seq<char>, q: Seq<char>) -> bool {
    exists|at: int| occurs_at(s, q, at)
}

/// The names, in menu order, that contain `q` ignoring ASCII case.
pub open spec fn matching_names(langs: Seq<(String, String)>, q: Seq<char>) -> Seq<Seq<char>>
    decreases langs.len(),
{
    if langs.len() == 0 {
        Seq::empty()
    } else {
        let earlier = matching_names(langs.drop_last(), q);
        if contains_folded(langs.last().0@, q) {
            earlier.push(langs.last().0@)
        } else {
            earlier
        }
    }
}

fn fold_char(c: char) -> (r: u32)
    ensures
        r as int == fold(c),
{
    if 'A' <= c && c <= 'Z' {
        (c as u32) + 32
    } else {
        c as u32
    }
}

fn occurs_at_exec(s: &str, slen: usize, q: &str, qlen: usize, at: usize) -> (r: bool)
    requires
        slen == s@.len(),
        qlen == q@.len(),
        at + qlen <= slen,
    ensures
        r == occurs_at(s@, q@, at as int),
{
    let mut j: usize = 0;
    while j < qlen
        invariant
            slen == s@.len(),
            qlen == q@.len(),
            at + qlen <= slen,
            0 <= j <= qlen,
            forall|k: int| 0 <= k < j ==> fold(#[trigger] s@[at + k]) == fold(q@[k]),
        decreases qlen - j,
    {
        if fold_char(s.get_char(at + j)) != fold_char(q.get_char(j)) {
            return false;
        }
        j = j + 1;
    }
    true
}

/// Whether `q` occurs in `s`, ignoring ASCII case.
pub fn contains_ignoring_case(s: &str, q: &str) -> (r: bool)
    ensures
        r == contains_folded(s@, q@),
{
    let slen = s.unicode_len();
    let qlen = q.unicode_len();
    if qlen > slen {
        assert forall|at: int| !occurs_at(s@, q@, at) by {}
        return false;
    }
    let mut at: usize = 0;
    while at <= slen - qlen
        invariant
            slen == s@.len(),
            qlen == q@.len(),
            qlen <= slen,
            at <= slen - qlen + 1,
            forall|k: int| 0 <= k < at ==> !occurs_at(s@, q@, k),
        decreases slen - qlen + 1 - at,
    {
        if occurs_at_exec(s, slen, q, qlen, at) {
            return true;
        }
        at = at + 1;
    }
    assert forall|k: int| !occurs_at(s@, q@, k) by {
        if 0 <= k && k + qlen <= slen {
            assert(k < at);
        }
    }
    false
}

/// The id of the first language whose name is exactly `name`.
pub fn find_lang_code(langs: &Vec<(String, String)>, name: &str) -> (r: Option<String>)
    ensures
        r is None <==> forall|i: int| 0 <= i < langs@.len() ==> (#[trigger] langs@[i]).0@ != name@,
        r is Some ==> exists|i: int|
            0 <= i < langs@.len() && (#[trigger] langs@[i]).0@ == name@ && r->Some_0@ == langs@[i].1@
                && forall|j: int| 0 <= j < i ==> (#[trigger] langs@[j]).0@ != name@,
{
    let wanted = String::from_str(name);
    let mut i: usize = 0;
    while i < langs.len()
        invariant
            0 <= i <= langs@.len(),
            wanted@ == name@,
            forall|j: int| 0 <= j < i ==> (#[trigger] langs@[j]).0@ != name@,
        decreases langs@.len() - i,
    {
        if langs[i].0 == wanted {
            let r = langs[i].1.clone();
            assert(langs@[i as int].0@ == name@);
            return Some(r);
        }
        i = i + 1;
    }
    None
}

/// The names, in menu order, that contain `query` ignoring ASCII case.
pub fn search_langs(langs: &Vec<(String, String)>, query: &str) -> (r: Vec<String>)
    ensures
        r@.map_values(|s: String| s@) == matching_names(langs@, query@),
{
    let mut out: Vec<String> = Vec::new();
    let mut i: usize = 0;
    while i < langs.len()
        invariant
            0 <= i <= langs@.len(),
            out@.map_values(|s: String| s@) =~= matching_names(langs@.subrange(0, i as int), query@),
        decreases langs@.len() - i,
    {
        let ghost before = out@;
        assert(langs@.subrange(0, i + 1).drop_last() =~= langs@.subrange(0, i as int));
        if contains_ignoring_case(langs[i].0.as_str(), query) {
            out.push(langs[i].0.clone());
            assert(out@.map_values(|s: String| s@) =~= before.map_values(|s: String| s@).push(
                langs@[i as int].0@,
            ));
        }
        i = i + 1;
    }
    assert(langs@.subrange(0, langs@.len() as int) =~= langs@);
    out
}

} // verus!
