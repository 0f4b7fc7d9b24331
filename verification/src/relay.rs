//! The relay plan for a linear pipeline.
//!
//! Between consecutive stages an untrusted host ferries ciphertext with a
//! dumb byte-copying task. Which links exist is decided here: a pipeline
//! of `n` stages needs exactly `n - 1` relays, each joining a stage's
//! data-out to the next stage's data-in; a single-stage pipeline needs
//! none. The copying tasks themselves are plain I/O and live with the
//! caller.

use vstd::prelude::*;

verus! {

/// How many relay links a linear pipeline of `n` stages needs.
pub open spec fn spec_relay_count(n: int) -> int {
    if n >= 1 {
        n - 1
    } else {
        0
    }
}

/// A single-stage pipeline needs no relays and no inter-stage data hops.
pub proof fn law_single_stage_no_relays()
    ensures
        spec_relay_count(1) == 0,
{
}

/// The relay links for a linear pipeline of `num_stages` stages: one
/// per gap, joining stage `i`'s data-out to stage `i + 1`'s data-in.
pub fn relay_plan(num_stages: usize) -> (r: Vec<(usize, usize)>)
    ensures
        r@.len() == spec_relay_count(num_stages as int),
        forall|i: int|
            0 <= i < r@.len() ==> (#[trigger] r@[i]).0 == i && r@[i].1 == i + 1,
{
    let mut links: Vec<(usize, usize)> = Vec::new();
    if num_stages == 0 {
        return links;
    }
    let gaps = num_stages - 1;
    let mut i: usize = 0;
    while i < gaps
        invariant
            gaps == num_stages - 1,
            0 <= i <= gaps,
            links@.len() == i,
            forall|j: int|
                0 <= j < i ==> (#[trigger] links@[j]).0 == j && links@[j].1 == j + 1,
        decreases gaps - i,
    {
        links.push((i, i + 1));
        i = i + 1;
    }
    links
}

} // verus!
