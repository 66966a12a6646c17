//! Timing and integral gating of a PID controller.
//!
//! A PID step integrates the error over the time since the previous step (one
//! second on the first step). The integral restarts from zero whenever the
//! sign of the error differs from the previous step's, and it is cleared
//! outright whenever the error lies outside the summation range. The caller
//! decides the sign of the error and whether it lies inside the summation
//! range; this module decides the interval and what happens to the integral.
use vstd::prelude::*;

use crate::time::{elapsed_millis, spec_elapsed_millis};

verus! {

/// Interval, in milliseconds, that the first step of a controller integrates over.
pub const FIRST_STEP_MILLIS: u32 = 1000;

/// What a step does to the integral term.
#[derive(Clone, Copy, Debug, PartialEq, Eq)]
pub enum Summation {
    /// Add the error times the interval to the integral kept so far.
    Continue,
    /// Drop the integral kept so far, then add the error times the interval.
    Restart,
    /// Set the integral to zero.
    Clear,
}

/// The decisions of one controller step.
#[derive(Clone, Copy, Debug, PartialEq, Eq)]
pub struct PidStep {
    /// The interval the step integrates over, in milliseconds.
    pub dt_millis: u32,
    /// What the step does to the integral term.
    pub summation: Summation,
}

/// What a PID controller remembers between steps apart from its real-valued
/// terms: the timer stamp and the error sign of the previous step.
#[derive(Clone, Copy, Debug, PartialEq, Eq)]
pub struct PidTracker {
    /// Timer stamp of the previous step, if any.
    pub prev_millis: Option<u32>,
    /// Whether the previous step's error had a positive sign, if there was one.
    pub prev_error_sign: Option<bool>,
}

/// The interval of a step at stamp `now` after a previous step at `prev`.
pub open spec fn spec_dt_millis(prev: Option<u32>, now: u32) -> u32 {
    match prev {
        None => FIRST_STEP_MILLIS,
        Some(p) => spec_elapsed_millis(now, p),
    }
}

/// What a step does to the integral, given the previous error sign, the
/// current one, and whether the error lies inside the summation range.
pub open spec fn spec_summation(prev_sign: Option<bool>, error_positive: bool, within_range: bool) -> Summation {
    if !within_range {
        Summation::Clear
    } else if prev_sign != Some(error_positive) {
        Summation::Restart
    } else {
        Summation::Continue
    }
}

/// The decisions of a step taken from tracker `t`.
pub open spec fn spec_pid_step(t: PidTracker, now: u32, error_positive: bool, within_range: bool) -> PidStep {
    PidStep {
        dt_millis: spec_dt_millis(t.prev_millis, now),
        summation: spec_summation(t.prev_error_sign, error_positive, within_range),
    }
}

/// The tracker after a step at stamp `now` with the given error sign.
pub open spec fn spec_pid_next(now: u32, error_positive: bool) -> PidTracker {
    PidTracker { prev_millis: Some(now), prev_error_sign: Some(error_positive) }
}

/// Whether the error sign flipped against a previous step (none on the first step).
pub open spec fn spec_sign_flipped(t: PidTracker, error_positive: bool) -> bool {
    t.prev_error_sign == Some(!error_positive)
}

impl PidTracker {
    /// A tracker that has seen no step.
    pub fn new() -> (r: PidTracker)
        ensures
            r.prev_millis.is_none(),
            r.prev_error_sign.is_none(),
    {
        PidTracker { prev_millis: None, prev_error_sign: None }
    }

    /// Decides one controller step at timer stamp `now`: the interval to
    /// integrate over (one second on the first step, otherwise the time since
    /// the previous step) and what happens to the integral (cleared outside
    /// the summation range, restarted on a change of error sign, continued
    /// otherwise). Remembers `now` and the error sign for the next step.
    pub fn step(&mut self, now: u32, error_positive: bool, within_range: bool) -> (r: PidStep)
        ensures
            r == spec_pid_step(*old(self), now, error_positive, within_range),
            old(self).prev_millis.is_none() ==> r.dt_millis == 1000,
            old(self).prev_millis matches Some(p) ==> r.dt_millis == (if p < now { now - p } else { 0 }),
            !within_range ==> r.summation == Summation::Clear,
            within_range && old(self).prev_error_sign == Some(error_positive) ==> r.summation == Summation::Continue,
            within_range && old(self).prev_error_sign != Some(error_positive) ==> r.summation == Summation::Restart,
            final(self).prev_millis == Some(now),
            final(self).prev_error_sign == Some(error_positive),
            *final(self) == spec_pid_next(now, error_positive),
    {
        let dt_millis = match self.prev_millis {
            None => FIRST_STEP_MILLIS,
            Some(prev) => elapsed_millis(now, prev),
        };
        let same_sign = match self.prev_error_sign {
            Some(sign) => sign == error_positive,
            None => false,
        };
        let summation = if !within_range {
            Summation::Clear
        } else if !same_sign {
            Summation::Restart
        } else {
            Summation::Continue
        };
        self.prev_millis = Some(now);
        self.prev_error_sign = Some(error_positive);
        PidStep { dt_millis, summation }
    }

    /// Whether an error with the given sign flips the sign of the previous
    /// step's error; false before the first step.
    pub fn sign_flipped(&self, error_positive: bool) -> (r: bool)
        ensures
            r == spec_sign_flipped(*self, error_positive),
            r <==> (self.prev_error_sign.is_some() && self.prev_error_sign != Some(error_positive)),
    {
        match self.prev_error_sign {
            Some(sign) => sign != error_positive,
            None => false,
        }
    }
}

/// The sign-reset law: across two consecutive steps whose errors differ in
/// sign, the second step never continues the integral of the first.
pub proof fn lemma_sign_change_resets_integral(
    now1: u32,
    sign1: bool,
    within1: bool,
    now2: u32,
    sign2: bool,
    within2: bool,
)
    requires
        sign1 != sign2,
    ensures
        spec_pid_step(spec_pid_next(now1, sign1), now2, sign2, within2).summation != Summation::Continue,
{
}

/// The summation-range law: the integral is only kept or grown inside the
/// summation range; outside it every step clears it.
pub proof fn lemma_outside_range_clears(t: PidTracker, now: u32, error_positive: bool, within_range: bool)
    ensures
        spec_pid_step(t, now, error_positive, within_range).summation == Summation::Clear <==> !within_range,
{
}

/// The interval law: each step after the first integrates over exactly the
/// time between its stamp and the previous step's stamp (for a clock that does
/// not go backwards), and the first step over one second.
pub proof fn lemma_intervals_follow_stamps(now1: u32, sign1: bool, now2: u32, sign2: bool, within2: bool)
    requires
        now1 <= now2,
    ensures
        spec_pid_step(PidTracker { prev_millis: None, prev_error_sign: None }, now1, sign1, within2).dt_millis
            == FIRST_STEP_MILLIS,
        spec_pid_step(spec_pid_next(now1, sign1), now2, sign2, within2).dt_millis == now2 - now1,
{
}

/// The halving law of the extended controller: an output halving (a sign flip
/// against a previous step) always comes with a step that does not continue
/// the integral, while the first step never halves.
pub proof fn lemma_flip_implies_no_continue(t: PidTracker, now: u32, error_positive: bool, within_range: bool)
    ensures
        spec_sign_flipped(t, error_positive) ==> spec_pid_step(t, now, error_positive, within_range).summation
            != Summation::Continue,
        t.prev_error_sign.is_none() ==> !spec_sign_flipped(t, error_positive),
{
}

/// The continuation law: inside the summation range, a step whose error has
/// the same sign as the previous step's keeps the integral and adds to it.
pub proof fn lemma_same_sign_continues(t: PidTracker, now: u32, error_positive: bool)
    requires
        t.prev_error_sign == Some(error_positive),
    ensures
        spec_pid_step(t, now, error_positive, true).summation == Summation::Continue,
{
}

/// The integral's fate depends on the error signs and the summation range
/// only, never on the time: two steps from the same tracker at different
/// stamps decide the same, and the interval does not depend on the error.
pub proof fn lemma_integral_ignores_time(
    t: PidTracker,
    now1: u32,
    now2: u32,
    error_positive: bool,
    within_range: bool,
    other_sign: bool,
    other_range: bool,
)
    ensures
        spec_pid_step(t, now1, error_positive, within_range).summation == spec_pid_step(
            t,
            now2,
            error_positive,
            within_range,
        ).summation,
        spec_pid_step(t, now1, error_positive, within_range).dt_millis == spec_pid_step(
            t,
            now1,
            other_sign,
            other_range,
        ).dt_millis,
{
}

/// The interval law in arithmetic terms: after a step at `prev`, the next step
/// at `now` integrates over `now - prev` milliseconds when `now` is later, and
/// over none otherwise; the interval plus the previous stamp never passes `now`
/// when time has moved forward.
pub proof fn lemma_interval_is_time_since_previous(prev: u32, sign: bool, now: u32, error_positive: bool, within_range: bool)
    ensures
        prev < now ==> spec_pid_step(spec_pid_next(prev, sign), now, error_positive, within_range).dt_millis + prev == now,
        now <= prev ==> spec_pid_step(spec_pid_next(prev, sign), now, error_positive, within_range).dt_millis == 0,
{
}

} // verus!
