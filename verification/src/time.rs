//! Millisecond timestamps of the brain's low-resolution timer.
use vstd::prelude::*;

verus! {

/// Milliseconds from `earlier` to `later`, or zero when `earlier` is not
/// strictly before `later`.
pub open spec fn spec_elapsed_millis(later: u32, earlier: u32) -> u32 {
    if earlier < later {
        (later - earlier) as u32
    } else {
        0
    }
}

/// Elapsed milliseconds between two timestamps of the low-resolution timer,
/// zero when the earlier stamp is not before the later one (the rule of
/// `LowResolutionTime::duration_since`).
pub fn elapsed_millis(later: u32, earlier: u32) -> (r: u32)
    ensures
        r == spec_elapsed_millis(later, earlier),
        earlier < later ==> r + earlier == later,
        later <= earlier ==> r == 0,
{
    if earlier < later {
        later - earlier
    } else {
        0
    }
}

/// Elapsed time only grows as the later stamp grows.
pub proof fn lemma_elapsed_monotone(earlier: u32, t1: u32, t2: u32)
    requires
        t1 <= t2,
    ensures
        spec_elapsed_millis(t1, earlier) <= spec_elapsed_millis(t2, earlier),
{
}

} // verus!
