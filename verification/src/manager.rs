//! Exit-condition manager for motion-control loops.
//!
//! A motion ends when the error has stayed inside the small band for
//! `small_settle_time` milliseconds, inside the large band for
//! `large_settle_time` milliseconds, or once more than `timeout` milliseconds
//! have passed since the manager was created. Whether the error lies inside a band is
//! decided by the caller and handed in as a boolean; times are milliseconds of
//! the brain's low-resolution timer.
use vstd::prelude::*;

use crate::time::{elapsed_millis, spec_elapsed_millis};

verus! {

/// The time limits of a [`Manager`], in milliseconds.
#[derive(Clone, Copy, Debug, PartialEq, Eq)]
pub struct SettleTimes {
    /// Time the error must stay within the small band before the motion ends.
    pub small_settle_time: u32,
    /// Time the error must stay within the large band before the motion ends.
    pub large_settle_time: u32,
    /// Time after which the motion ends unconditionally.
    pub timeout: u32,
}

impl SettleTimes {
    /// Groups the three time limits.
    pub fn new(small_settle_time: u32, large_settle_time: u32, timeout: u32) -> (r: SettleTimes)
        ensures
            r.small_settle_time == small_settle_time,
            r.large_settle_time == large_settle_time,
            r.timeout == timeout,
    {
        SettleTimes { small_settle_time, large_settle_time, timeout }
    }
}

/// Settle timers and clock stamps of one motion.
#[derive(Clone, Copy, Debug, PartialEq, Eq)]
pub struct Manager {
    /// The limits this manager enforces.
    pub times: SettleTimes,
    /// Timer stamp at which the manager was created; the timeout counts from it.
    pub init_time: u32,
    /// Milliseconds the error has continuously been within the small band.
    pub small_settled_time: u32,
    /// Milliseconds the error has continuously been within the large band.
    pub large_settled_time: u32,
    /// Timer stamp of the last update (or of creation).
    pub prev_time: u32,
}

/// The exit condition: either settle timer has reached its limit, or the time
/// elapsed since creation exceeds the timeout at timer stamp `now`.
pub open spec fn spec_should_exit(m: Manager, now: u32) -> bool {
    ||| m.times.small_settle_time <= m.small_settled_time
    ||| m.times.large_settle_time <= m.large_settled_time
    ||| m.times.timeout < spec_elapsed_millis(now, m.init_time)
}

/// A settle timer after an update: it grows by `dt` while inside its band and
/// drops to zero outside it.
pub open spec fn spec_settle(timer: u32, within: bool, dt: u32) -> u32 {
    if within {
        (timer + dt) as u32
    } else {
        0
    }
}

/// The manager after an update that measured its interval up to timer stamp
/// `now` and then read the timer again at `stamp` for the next update.
pub open spec fn spec_update(m: Manager, within_small: bool, within_large: bool, now: u32, stamp: u32) -> Manager {
    let dt = spec_elapsed_millis(now, m.prev_time);
    Manager {
        small_settled_time: spec_settle(m.small_settled_time, within_small, dt),
        large_settled_time: spec_settle(m.large_settled_time, within_large, dt),
        prev_time: stamp,
        ..m
    }
}

/// An update at `now` keeps both settle timers within `u32`.
pub open spec fn spec_update_fits(m: Manager, within_small: bool, within_large: bool, now: u32) -> bool {
    let dt = spec_elapsed_millis(now, m.prev_time);
    &&& within_small ==> m.small_settled_time + dt <= u32::MAX
    &&& within_large ==> m.large_settled_time + dt <= u32::MAX
}

/// The manager after a run of updates applied in order. Each step is
/// (within small band, within large band, timer stamp ending the step's
/// interval, timer stamp read afterwards, from which the next step measures).
pub open spec fn spec_replay(m: Manager, steps: Seq<(bool, bool, u32, u32)>) -> Manager
    decreases steps.len(),
{
    if steps.len() == 0 {
        m
    } else {
        let s = steps.last();
        spec_update(spec_replay(m, steps.drop_last()), s.0, s.1, s.2, s.3)
    }
}

/// The stamp from which step `i` of a run measures its interval: the stamp
/// read after step `i - 1`, or `start` for the first step.
pub open spec fn spec_interval_start(start: u32, steps: Seq<(bool, bool, u32, u32)>, i: int) -> u32 {
    if i <= 0 {
        start
    } else {
        steps[i - 1].3
    }
}

/// The sum of the intervals that the steps of a run measure, starting from
/// stamp `start`.
pub open spec fn spec_measured(start: u32, steps: Seq<(bool, bool, u32, u32)>) -> nat
    decreases steps.len(),
{
    if steps.len() == 0 {
        0
    } else {
        spec_measured(start, steps.drop_last()) + spec_elapsed_millis(
            steps.last().2,
            spec_interval_start(start, steps, steps.len() - 1),
        ) as nat
    }
}

/// Steps of a run that read one timer stamp both as the end of their interval
/// and as the start of the next, with stamps that never go backwards and start
/// no earlier than `start`.
pub open spec fn spec_stamps_ordered(start: u32, steps: Seq<(bool, bool, u32, u32)>) -> bool {
    &&& forall|i: int| 0 <= i < steps.len() ==> #[trigger] steps[i].2 == steps[i].3
    &&& forall|i: int| 0 <= i < steps.len() ==> start <= #[trigger] steps[i].2
    &&& forall|i: int, j: int| 0 <= i <= j < steps.len() ==> steps[i].2 <= steps[j].2
}

/// A settle timer of `m`: the small one when `small` holds, else the large one.
pub open spec fn spec_timer(m: Manager, small: bool) -> u32 {
    if small {
        m.small_settled_time
    } else {
        m.large_settled_time
    }
}

/// The settle-time limit that goes with [`spec_timer`].
pub open spec fn spec_limit(m: Manager, small: bool) -> u32 {
    if small {
        m.times.small_settle_time
    } else {
        m.times.large_settle_time
    }
}

/// Whether a step reports the error inside the small band (`small`) or the
/// large band (otherwise).
pub open spec fn spec_step_within(s: (bool, bool, u32, u32), small: bool) -> bool {
    if small {
        s.0
    } else {
        s.1
    }
}

/// After a run of updates, the stamp kept for the next update is the one read
/// after the last step; the timeout origin and the limits are unchanged.
pub proof fn lemma_replay_stamp(m: Manager, steps: Seq<(bool, bool, u32, u32)>)
    ensures
        spec_replay(m, steps).prev_time == spec_interval_start(m.prev_time, steps, steps.len() as int),
        spec_replay(m, steps).init_time == m.init_time,
        spec_replay(m, steps).times == m.times,
    decreases steps.len(),
{
    if steps.len() > 0 {
        lemma_replay_stamp(m, steps.drop_last());
    }
}

/// Dropping the last step of a run keeps the interval starts of the others.
proof fn lemma_interval_start_prefix(start: u32, steps: Seq<(bool, bool, u32, u32)>, i: int)
    requires
        steps.len() > 0,
        0 <= i < steps.len(),
    ensures
        spec_interval_start(start, steps.drop_last(), i) == spec_interval_start(start, steps, i),
{
    if i > 0 {
        assert(steps.drop_last()[i - 1] == steps[i - 1]);
    }
}

/// The settle-timer law: while every update of a run finds the error inside a
/// band, that band's settle timer grows by exactly the sum of the intervals the
/// updates measure.
pub proof fn lemma_settle_timer_sums_intervals(m: Manager, steps: Seq<(bool, bool, u32, u32)>, small: bool)
    requires
        forall|i: int| 0 <= i < steps.len() ==> spec_step_within(#[trigger] steps[i], small),
        spec_timer(m, small) + spec_measured(m.prev_time, steps) <= u32::MAX,
    ensures
        spec_timer(spec_replay(m, steps), small) == spec_timer(m, small) + spec_measured(m.prev_time, steps),
    decreases steps.len(),
{
    if steps.len() > 0 {
        let prefix = steps.drop_last();
        assert forall|i: int| 0 <= i < prefix.len() implies spec_step_within(#[trigger] prefix[i], small) by {
            assert(prefix[i] == steps[i]);
        }
        assert(spec_step_within(steps[steps.len() - 1], small));
        lemma_settle_timer_sums_intervals(m, prefix, small);
        lemma_replay_stamp(m, prefix);
        lemma_interval_start_prefix(m.prev_time, steps, steps.len() - 1);
    }
}

/// The settle law: once every update of a run has found the error inside a
/// band, and the intervals the updates measured add up to at least that band's
/// settle time, the manager calls for exit, whatever the time.
pub proof fn lemma_settled_motion_exits(
    m: Manager,
    steps: Seq<(bool, bool, u32, u32)>,
    small: bool,
    now: u32,
)
    requires
        forall|i: int| 0 <= i < steps.len() ==> spec_step_within(#[trigger] steps[i], small),
        spec_timer(m, small) + spec_measured(m.prev_time, steps) <= u32::MAX,
        spec_limit(m, small) <= spec_measured(m.prev_time, steps),
    ensures
        spec_should_exit(spec_replay(m, steps), now),
{
    lemma_settle_timer_sums_intervals(m, steps, small);
    lemma_replay_stamp(m, steps);
}

/// For updates that read one stamp both as the end of their interval and as
/// the start of the next, over a clock that does not go backwards, the measured
/// intervals add up to the time from the manager's last update to the last step.
pub proof fn lemma_measured_telescopes(start: u32, steps: Seq<(bool, bool, u32, u32)>)
    requires
        steps.len() > 0,
        spec_stamps_ordered(start, steps),
    ensures
        spec_measured(start, steps) == steps.last().2 - start,
    decreases steps.len(),
{
    let prefix = steps.drop_last();
    let last = steps[steps.len() - 1];
    assert(start <= last.2);
    if prefix.len() > 0 {
        assert(spec_stamps_ordered(start, prefix)) by {
            assert forall|i: int| 0 <= i < prefix.len() implies #[trigger] prefix[i].2 == prefix[i].3 by {
                assert(prefix[i] == steps[i]);
            }
            assert forall|i: int| 0 <= i < prefix.len() implies start <= #[trigger] prefix[i].2 by {
                assert(prefix[i] == steps[i]);
            }
            assert forall|i: int, j: int| 0 <= i <= j < prefix.len() implies prefix[i].2 <= prefix[j].2 by {
                assert(prefix[i] == steps[i]);
                assert(prefix[j] == steps[j]);
            }
        }
        lemma_measured_telescopes(start, prefix);
        let mid = steps[steps.len() - 2];
        assert(prefix.last() == mid);
        assert(mid.2 == mid.3);
        assert(mid.2 <= last.2);
        assert(spec_interval_start(start, steps, steps.len() - 1) == mid.3);
        assert(spec_measured(start, prefix) == mid.2 - start);
    } else {
        assert(spec_interval_start(start, steps, steps.len() - 1) == start);
        assert(spec_measured(start, prefix) == 0);
    }
    assert(spec_measured(start, steps) == spec_measured(start, prefix) + spec_elapsed_millis(
        last.2,
        spec_interval_start(start, steps, steps.len() - 1),
    ));
}

/// The settle law for updates that read one stamp each: while every update
/// finds the error inside a band and the run spans at least that band's settle
/// time from the manager's last update, the manager calls for exit.
pub proof fn lemma_settled_span_exits(m: Manager, steps: Seq<(bool, bool, u32, u32)>, small: bool, now: u32)
    requires
        steps.len() > 0,
        spec_stamps_ordered(m.prev_time, steps),
        forall|i: int| 0 <= i < steps.len() ==> spec_step_within(#[trigger] steps[i], small),
        spec_timer(m, small) + (steps.last().2 - m.prev_time) <= u32::MAX,
        spec_limit(m, small) <= steps.last().2 - m.prev_time,
    ensures
        spec_timer(spec_replay(m, steps), small) == spec_timer(m, small) + (steps.last().2 - m.prev_time),
        spec_should_exit(spec_replay(m, steps), now),
{
    lemma_measured_telescopes(m.prev_time, steps);
    lemma_settled_motion_exits(m, steps, small, now);
    lemma_settle_timer_sums_intervals(m, steps, small);
}

/// The timeout law: once more than `timeout` milliseconds have passed since
/// creation at stamp `t1`, the manager calls for exit at every later stamp
/// `t2`, after any run of updates.
pub proof fn lemma_timeout_persists(m: Manager, steps: Seq<(bool, bool, u32, u32)>, t1: u32, t2: u32)
    requires
        t1 <= t2,
        m.times.timeout < spec_elapsed_millis(t1, m.init_time),
    ensures
        spec_should_exit(spec_replay(m, steps), t2),
{
    lemma_replay_stamp(m, steps);
    crate::time::lemma_elapsed_monotone(m.init_time, t1, t2);
}

/// Leaving a band restarts its timer: an update that finds the error outside
/// the small band leaves the small timer at zero, so only a zero small settle
/// time can end the motion through it.
pub proof fn lemma_leaving_band_restarts(m: Manager, within_large: bool, now: u32, stamp: u32)
    ensures
        spec_update(m, false, within_large, now, stamp).small_settled_time == 0,
        spec_update(m, within_large, false, now, stamp).large_settled_time == 0,
{
}

/// The exit law: the manager calls for exit exactly when a stored settle
/// timer has reached its settle time or more than `timeout` milliseconds have
/// passed since creation; time since the last update does not count as settled.
pub proof fn lemma_exit_exactly_when_due(m: Manager, now: u32)
    ensures
        spec_should_exit(m, now) <==> (m.times.small_settle_time <= m.small_settled_time
            || m.times.large_settle_time <= m.large_settled_time
            || (m.init_time < now && m.times.timeout < now - m.init_time)),
{
}

/// The exit decision does not depend on when the last update happened: two
/// managers that differ only in their last-update stamp decide alike.
pub proof fn lemma_exit_ignores_last_update(m: Manager, stamp: u32, now: u32)
    ensures
        spec_should_exit(m, now) == spec_should_exit(Manager { prev_time: stamp, ..m }, now),
{
}

/// A manager whose settle timers are below their settle times does not exit
/// before its timeout has passed.
pub proof fn lemma_no_exit_before_due(m: Manager, now: u32)
    requires
        m.small_settled_time < m.times.small_settle_time,
        m.large_settled_time < m.times.large_settle_time,
        now <= m.init_time || now - m.init_time <= m.times.timeout,
    ensures
        !spec_should_exit(m, now),
{
}

/// The update law in arithmetic terms: a timer inside its band grows by the
/// time from the last update's stamp to `now` (nothing if the clock went
/// back), a timer outside drops to zero, the next interval starts at `stamp`,
/// and the limits and timeout origin stay.
pub proof fn lemma_update_arithmetic(m: Manager, within_small: bool, within_large: bool, now: u32, stamp: u32)
    requires
        spec_update_fits(m, within_small, within_large, now),
    ensures
        ({
            let u = spec_update(m, within_small, within_large, now, stamp);
            let dt: int = if m.prev_time < now { now - m.prev_time } else { 0 };
            &&& within_small ==> u.small_settled_time == m.small_settled_time + dt
            &&& !within_small ==> u.small_settled_time == 0
            &&& within_large ==> u.large_settled_time == m.large_settled_time + dt
            &&& !within_large ==> u.large_settled_time == 0
            &&& u.prev_time == stamp
            &&& u.init_time == m.init_time
            &&& u.times == m.times
        }),
{
}

impl Manager {
    /// Creates a manager with both settle timers at zero. `init_time` is the
    /// timer stamp from which the timeout counts; `prev_time` is the stamp from
    /// which the first update measures its interval.
    pub fn new(times: SettleTimes, init_time: u32, prev_time: u32) -> (r: Manager)
        ensures
            r.times == times,
            r.init_time == init_time,
            r.prev_time == prev_time,
            r.small_settled_time == 0,
            r.large_settled_time == 0,
    {
        Manager { times, init_time, small_settled_time: 0, large_settled_time: 0, prev_time }
    }

    /// Whether the motion should stop at timer stamp `now`: a settle timer has
    /// reached its limit, or more than `timeout` milliseconds have passed since
    /// creation.
    pub fn should_exit(&self, now: u32) -> (r: bool)
        ensures
            r == spec_should_exit(*self, now),
            r <==> (self.times.small_settle_time <= self.small_settled_time
                || self.times.large_settle_time <= self.large_settled_time
                || (self.init_time < now && self.times.timeout < now - self.init_time)),
    {
        if self.times.small_settle_time <= self.small_settled_time {
            return true;
        }
        if self.times.large_settle_time <= self.large_settled_time {
            return true;
        }
        if self.times.timeout < elapsed_millis(now, self.init_time) {
            return true;
        }
        false
    }

    /// Whether an update at `now` keeps the settle timers within `u32`, which
    /// [`Manager::update`] requires.
    pub fn update_fits(&self, within_small: bool, within_large: bool, now: u32) -> (r: bool)
        ensures
            r == spec_update_fits(*self, within_small, within_large, now),
    {
        let dt = elapsed_millis(now, self.prev_time);
        let small_ok = !within_small || dt <= u32::MAX - self.small_settled_time;
        let large_ok = !within_large || dt <= u32::MAX - self.large_settled_time;
        small_ok && large_ok
    }

    /// Advances the settle timers to timer stamp `now`: each timer whose band
    /// holds the error grows by the time from the last update's stamp to
    /// `now`, each other timer drops to zero. `stamp` is the timer reading
    /// taken once the timers are advanced, from which the next update measures.
    pub fn update(&mut self, within_small: bool, within_large: bool, now: u32, stamp: u32)
        requires
            spec_update_fits(*old(self), within_small, within_large, now),
        ensures
            *final(self) == spec_update(*old(self), within_small, within_large, now, stamp),
            within_small ==> final(self).small_settled_time == old(self).small_settled_time + (if old(
                self,
            ).prev_time < now {
                now - old(self).prev_time
            } else {
                0
            }),
            !within_small ==> final(self).small_settled_time == 0,
            within_large ==> final(self).large_settled_time == old(self).large_settled_time + (if old(
                self,
            ).prev_time < now {
                now - old(self).prev_time
            } else {
                0
            }),
            !within_large ==> final(self).large_settled_time == 0,
            final(self).prev_time == stamp,
            final(self).init_time == old(self).init_time,
            final(self).times == old(self).times,
    {
        let dt = elapsed_millis(now, self.prev_time);
        if within_small {
            self.small_settled_time = self.small_settled_time + dt;
        } else {
            self.small_settled_time = 0;
        }
        if within_large {
            self.large_settled_time = self.large_settled_time + dt;
        } else {
            self.large_settled_time = 0;
        }
        self.prev_time = stamp;
    }

    /// Milliseconds the error has continuously been within the small band.
    pub fn small_settled_time(&self) -> (r: u32)
        ensures
            r == self.small_settled_time,
    {
        self.small_settled_time
    }

    /// Milliseconds the error has continuously been within the large band.
    pub fn large_settled_time(&self) -> (r: u32)
        ensures
            r == self.large_settled_time,
    {
        self.large_settled_time
    }
}

} // verus!
