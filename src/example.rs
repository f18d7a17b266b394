//! Examples: one input and its expected output.

use vstd::prelude::*;
use vstd::string::StringExecFns;

verus! {

/// Input and expected output of one example.
#[derive(Debug)]
pub struct IO {
    pub input: String,
    pub output: String,
}

impl IO {
    pub fn new(input: String, output: String) -> (r: IO)
        ensures
            r.input == input,
            r.output == output,
    {
        IO { input, output }
    }
}

/// Pairs up consecutive texts: the first of each pair is an input, the
/// second its expected output.
pub fn packing_to_io(v: &Vec<String>) -> (r: Vec<IO>)
    requires
        v@.len() % 2 == 0,
    ensures
        r@.len() == v@.len() / 2,
        forall|i: int|
            0 <= i < r@.len() ==> (#[trigger] r@[i]).input@ == v@[2 * i]@ && r@[i].output@ == v@[2
                * i + 1]@,
{
    let mut out: Vec<IO> = Vec::new();
    let mut i: usize = 0;
    while i + 1 < v.len()
        invariant
            v@.len() % 2 == 0,
            i % 2 == 0,
            i <= v@.len(),
            out@.len() == i / 2,
            forall|j: int|
                0 <= j < out@.len() ==> (#[trigger] out@[j]).input@ == v@[2 * j]@ && out@[j].output@
                    == v@[2 * j + 1]@,
        decreases v@.len() - i,
    {
        out.push(IO::new(v[i].clone(), v[i + 1].clone()));
        i = i + 2;
    }
    out
}

/// Whether `url` names the page whose examples are cached under `cached`.
pub fn is_same_link(url: &str, cached: &str) -> (r: bool)
    ensures
        r == (url@ == cached@),
{
    String::from_str(url) == String::from_str(cached)
}

} // verus!
