//! The voltage pass of a motor group.
//!
//! Setting a group's voltage sets each motor in turn. When setting the
//! previous motor failed, the current motor is set once more before the
//! setting whose result counts; the pass reports the result of the last
//! motor's counted setting (success for an empty group). The caller performs
//! each setting and reports whether it failed; this module decides which
//! setting comes next.
use vstd::prelude::*;

verus! {

/// The next setting a voltage pass asks for.
#[derive(Clone, Copy, Debug, PartialEq, Eq)]
pub enum VoltageCall {
    /// Set the motor at this index; the result is ignored.
    Retry(usize),
    /// Set the motor at this index; the result counts.
    Apply(usize),
    /// Every motor has been set.
    Done,
}

/// Progress of one voltage pass over a group of `count` motors.
#[derive(Clone, Copy, Debug, PartialEq, Eq)]
pub struct VoltagePass {
    /// Number of motors in the group.
    pub count: usize,
    /// Index of the motor whose counted setting comes next.
    pub next: usize,
    /// Whether the last counted setting failed.
    pub last_failed: bool,
    /// Whether the motor at `next` has already had its extra setting.
    pub retried: bool,
}

impl VoltagePass {
    /// The pass is consistent: it has not run past the group, and an extra
    /// setting has only happened after a failure, for a motor still to set.
    pub open spec fn wf(&self) -> bool {
        &&& self.next <= self.count
        &&& self.retried ==> self.last_failed && self.next < self.count
    }
}

/// The setting that comes next in pass `p`.
pub open spec fn spec_next_call(p: VoltagePass) -> VoltageCall {
    if p.next >= p.count {
        VoltageCall::Done
    } else if p.last_failed && !p.retried {
        VoltageCall::Retry(p.next)
    } else {
        VoltageCall::Apply(p.next)
    }
}

/// Pass `p` after its extra setting.
pub open spec fn spec_after_retry(p: VoltagePass) -> VoltagePass {
    VoltagePass { retried: true, ..p }
}

/// Pass `p` after a counted setting with the given outcome.
pub open spec fn spec_after_set(p: VoltagePass, failed: bool) -> VoltagePass {
    VoltagePass { next: (p.next + 1) as usize, last_failed: failed, retried: false, ..p }
}

impl VoltagePass {
    /// A pass over a group of `count` motors that has set none yet.
    pub fn new(count: usize) -> (r: VoltagePass)
        ensures
            r.wf(),
            r == (VoltagePass { count, next: 0, last_failed: false, retried: false }),
    {
        VoltagePass { count, next: 0, last_failed: false, retried: false }
    }

    /// The setting that comes next: done after the last motor; an extra
    /// setting of the next motor when the previous counted setting failed and
    /// none has been made yet; otherwise the counted setting of the next motor.
    pub fn next_call(&self) -> (r: VoltageCall)
        requires
            self.wf(),
        ensures
            r == spec_next_call(*self),
            self.next >= self.count ==> r == VoltageCall::Done,
            self.next < self.count && self.last_failed && !self.retried ==> r == VoltageCall::Retry(self.next),
            self.next < self.count && !(self.last_failed && !self.retried) ==> r == VoltageCall::Apply(self.next),
    {
        if self.next >= self.count {
            VoltageCall::Done
        } else if self.last_failed && !self.retried {
            VoltageCall::Retry(self.next)
        } else {
            VoltageCall::Apply(self.next)
        }
    }

    /// Records that the extra setting asked for was made.
    pub fn record_retry(&mut self)
        requires
            old(self).wf(),
            spec_next_call(*old(self)) is Retry,
        ensures
            final(self).wf(),
            *final(self) == spec_after_retry(*old(self)),
            final(self).retried,
            final(self).next == old(self).next,
            final(self).last_failed == old(self).last_failed,
            final(self).count == old(self).count,
    {
        self.retried = true;
    }

    /// Records the outcome of the counted setting asked for.
    pub fn record_set(&mut self, failed: bool)
        requires
            old(self).wf(),
            spec_next_call(*old(self)) is Apply,
        ensures
            final(self).wf(),
            *final(self) == spec_after_set(*old(self), failed),
            final(self).next == old(self).next + 1,
            final(self).last_failed == failed,
            !final(self).retried,
            final(self).count == old(self).count,
    {
        self.next = self.next + 1;
        self.last_failed = failed;
        self.retried = false;
    }

    /// Whether the pass, once done, reports failure: the last counted setting failed.
    pub fn failed(&self) -> (r: bool)
        ensures
            r == self.last_failed,
    {
        self.last_failed
    }
}

/// The settings a pass makes for the motors from index `k` on, given the
/// outcome of each motor's counted setting (`fails[i]` for motor `i`).
pub open spec fn spec_calls_from(fails: Seq<bool>, k: int) -> Seq<VoltageCall>
    decreases fails.len() - k,
{
    if k >= fails.len() || k < 0 {
        Seq::empty()
    } else {
        let block = if k > 0 && fails[k - 1] {
            seq![VoltageCall::Retry(k as usize), VoltageCall::Apply(k as usize)]
        } else {
            seq![VoltageCall::Apply(k as usize)]
        };
        block + spec_calls_from(fails, k + 1)
    }
}

/// Runs pass `p` for at most `fuel` settings, feeding each counted setting of
/// motor `i` the outcome `fails[i]`; gives the settings made and the final pass.
pub open spec fn spec_drive(p: VoltagePass, fails: Seq<bool>, fuel: nat) -> (Seq<VoltageCall>, VoltagePass)
    decreases fuel,
{
    if fuel == 0 {
        (Seq::empty(), p)
    } else {
        match spec_next_call(p) {
            VoltageCall::Done => (Seq::empty(), p),
            VoltageCall::Retry(i) => {
                let rest = spec_drive(spec_after_retry(p), fails, (fuel - 1) as nat);
                (seq![VoltageCall::Retry(i)] + rest.0, rest.1)
            },
            VoltageCall::Apply(i) => {
                let rest = spec_drive(spec_after_set(p, fails[i as int]), fails, (fuel - 1) as nat);
                (seq![VoltageCall::Apply(i)] + rest.0, rest.1)
            },
        }
    }
}

/// The pass state just before motor `k`'s settings.
pub open spec fn spec_pass_at(fails: Seq<bool>, k: int) -> VoltagePass {
    VoltagePass {
        count: fails.len() as usize,
        next: k as usize,
        last_failed: k > 0 && fails[k - 1],
        retried: false,
    }
}

/// Driving a pass from motor `k` with enough fuel makes exactly the settings
/// of [`spec_calls_from`] and ends at the state after the last motor.
pub proof fn lemma_drive_from(fails: Seq<bool>, k: int, fuel: nat)
    requires
        fails.len() <= usize::MAX,
        0 <= k <= fails.len(),
        fuel >= 2 * (fails.len() - k),
    ensures
        spec_drive(spec_pass_at(fails, k), fails, fuel) == (spec_calls_from(fails, k), spec_pass_at(fails, fails.len() as int)),
    decreases fails.len() - k,
{
    let p = spec_pass_at(fails, k);
    if k == fails.len() {
        assert(spec_calls_from(fails, k) =~= Seq::<VoltageCall>::empty());
    } else {
        lemma_drive_from(fails, k + 1, (fuel - 2) as nat);
        lemma_drive_from(fails, k + 1, (fuel - 1) as nat);
        let after = spec_pass_at(fails, k + 1);
        if k > 0 && fails[k - 1] {
            let q = spec_after_retry(p);
            assert(spec_after_set(q, fails[k]) == after);
            let rest = spec_drive(after, fails, (fuel - 2) as nat);
            assert(spec_drive(q, fails, (fuel - 1) as nat).0 =~= seq![VoltageCall::Apply(k as usize)] + rest.0);
            assert(spec_drive(p, fails, fuel).0 =~= seq![VoltageCall::Retry(k as usize)] + (seq![
                VoltageCall::Apply(k as usize)] + rest.0));
            assert(spec_calls_from(fails, k) =~= seq![VoltageCall::Retry(k as usize), VoltageCall::Apply(k as usize)]
                + spec_calls_from(fails, k + 1));
        } else {
            assert(spec_after_set(p, fails[k]) == after);
            assert(spec_calls_from(fails, k) =~= seq![VoltageCall::Apply(k as usize)] + spec_calls_from(fails, k + 1));
        }
    }
}

/// The voltage-pass law: a pass over a group whose counted settings have
/// outcomes `fails` sets every motor once, in order, with an extra setting of
/// a motor just before its counted one exactly when the previous motor's
/// counted setting failed, and reports failure exactly when the last motor's
/// counted setting failed (success for an empty group).
pub proof fn lemma_voltage_pass(fails: Seq<bool>)
    requires
        fails.len() <= usize::MAX,
    ensures
        spec_drive(
            VoltagePass { count: fails.len() as usize, next: 0, last_failed: false, retried: false },
            fails,
            2 * fails.len(),
        ).0 == spec_calls_from(fails, 0),
        spec_drive(
            VoltagePass { count: fails.len() as usize, next: 0, last_failed: false, retried: false },
            fails,
            2 * fails.len(),
        ).1.last_failed == (fails.len() > 0 && fails.last()),
{
    lemma_drive_from(fails, 0, 2 * fails.len());
    assert(spec_pass_at(fails, 0) == VoltagePass {
        count: fails.len() as usize,
        next: 0,
        last_failed: false,
        retried: false,
    });
}

/// Takes the ports of a new motor group in the order the group's motors are
/// built: motor `i` removes the entry at position `i` of what is left of the
/// list once the motors before it have taken theirs. From two ports on, the
/// second motor's position is already past the end of the shortened list, so
/// only lists of at most one port can be taken.
pub fn take_ports<T>(ports: &mut Vec<T>) -> (taken: Vec<T>)
    requires
        old(ports).len() <= 1,
    ensures
        taken@ == old(ports)@,
        final(ports)@.len() == 0,
{
    let n = ports.len();
    let mut taken: Vec<T> = Vec::new();
    let ghost initial = ports@;
    for val in 0..n
        invariant
            n == initial.len(),
            n <= 1,
            ports@ == initial.subrange(val as int, n as int),
            taken@ == initial.subrange(0, val as int),
    {
        let port = ports.remove(val);
        taken.push(port);
    }
    assert(taken@ =~= initial);
    taken
}

} // verus!
