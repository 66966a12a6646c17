//! Gain schedule of a take-back-half (TBH) controller.
//!
//! A TBH controller adds its gain times the error to its previous output. Each
//! time the error changes sign the gain is halved ("taken back half"); each
//! time the goal changes the gain is reset to its initial value, whatever the
//! sign did. The caller decides the error sign and whether the goal changed;
//! this module decides what happens to the gain.
use vstd::prelude::*;

verus! {

/// What a step does to the gain.
#[derive(Clone, Copy, Debug, PartialEq, Eq)]
pub enum GainAction {
    /// Leave the gain as it is.
    Keep,
    /// Halve the gain.
    Halve,
    /// Set the gain back to its initial value.
    Reset,
}

/// What a TBH controller remembers between steps apart from its real-valued
/// terms: the sign of the previous step's error.
#[derive(Clone, Copy, Debug, PartialEq, Eq)]
pub struct TbhTracker {
    /// Whether the previous step's error had a positive sign, if there was one.
    pub prev_sign: Option<bool>,
}

/// The gain action of a step: a changed goal resets the gain; otherwise a
/// change of error sign (or a first step) halves it.
pub open spec fn spec_gain_action(prev_sign: Option<bool>, error_positive: bool, goal_changed: bool) -> GainAction {
    if goal_changed {
        GainAction::Reset
    } else if Some(error_positive) != prev_sign {
        GainAction::Halve
    } else {
        GainAction::Keep
    }
}

impl TbhTracker {
    /// A tracker that has seen no step.
    pub fn new() -> (r: TbhTracker)
        ensures
            r.prev_sign.is_none(),
    {
        TbhTracker { prev_sign: None }
    }

    /// Decides what one step does to the gain and remembers the error sign.
    pub fn step(&mut self, error_positive: bool, goal_changed: bool) -> (r: GainAction)
        ensures
            r == spec_gain_action(old(self).prev_sign, error_positive, goal_changed),
            goal_changed ==> r == GainAction::Reset,
            !goal_changed && old(self).prev_sign == Some(error_positive) ==> r == GainAction::Keep,
            !goal_changed && old(self).prev_sign != Some(error_positive) ==> r == GainAction::Halve,
            final(self).prev_sign == Some(error_positive),
    {
        let sign_changed = match self.prev_sign {
            Some(sign) => sign != error_positive,
            None => true,
        };
        self.prev_sign = Some(error_positive);
        if goal_changed {
            GainAction::Reset
        } else if sign_changed {
            GainAction::Halve
        } else {
            GainAction::Keep
        }
    }
}

/// The gain of a TBH controller after a run of steps, as a power of two
/// relative to the initial gain: the number of halvings since the last reset
/// (or since the start, when there was none).
pub open spec fn spec_halvings(actions: Seq<GainAction>) -> nat
    decreases actions.len(),
{
    if actions.len() == 0 {
        0
    } else {
        match actions.last() {
            GainAction::Reset => 0,
            GainAction::Halve => spec_halvings(actions.drop_last()) + 1,
            GainAction::Keep => spec_halvings(actions.drop_last()),
        }
    }
}

/// The actions a tracker takes over a run of (error sign, goal changed) steps.
pub open spec fn spec_actions(prev_sign: Option<bool>, steps: Seq<(bool, bool)>) -> Seq<GainAction>
    decreases steps.len(),
{
    if steps.len() == 0 {
        Seq::empty()
    } else {
        let before = spec_actions(prev_sign, steps.drop_last());
        let last_sign = if steps.len() >= 2 {
            Some(steps[steps.len() - 2].0)
        } else {
            prev_sign
        };
        before.push(spec_gain_action(last_sign, steps.last().0, steps.last().1))
    }
}

/// The take-back-half law: after a goal change, as long as the goal stays, the
/// gain stands at the initial gain halved once per change of error sign. Here
/// `steps[0]` is the step with the goal change and `flips` counts the later
/// steps whose error sign differs from the step before.
pub proof fn lemma_gain_halves_per_crossing(prev_sign: Option<bool>, steps: Seq<(bool, bool)>)
    requires
        steps.len() > 0,
        steps[0].1,
        forall|i: int| 1 <= i < steps.len() ==> !(#[trigger] steps[i]).1,
    ensures
        spec_halvings(spec_actions(prev_sign, steps)) == spec_sign_flips(steps),
    decreases steps.len(),
{
    let prefix = steps.drop_last();
    let acts = spec_actions(prev_sign, steps);
    let before = spec_actions(prev_sign, prefix);
    assert(acts.drop_last() =~= before);
    if steps.len() == 1 {
        assert(acts.last() == GainAction::Reset);
    }
    if steps.len() > 1 {
        assert forall|i: int| 1 <= i < prefix.len() implies !(#[trigger] prefix[i]).1 by {
            assert(prefix[i] == steps[i]);
        }
        assert(prefix[0] == steps[0]);
        lemma_gain_halves_per_crossing(prev_sign, prefix);
        assert(!steps[steps.len() - 1].1);
        assert(prefix.last() == steps[steps.len() - 2]);
    }
}

/// How many steps of a run, after the first, have an error sign that differs
/// from the step before.
pub open spec fn spec_sign_flips(steps: Seq<(bool, bool)>) -> nat
    decreases steps.len(),
{
    if steps.len() <= 1 {
        0
    } else {
        spec_sign_flips(steps.drop_last()) + if steps.last().0 != steps[steps.len() - 2].0 {
            1nat
        } else {
            0nat
        }
    }
}

/// The reset law: a step whose goal changed resets the gain to its initial
/// value, whatever the previous and the current error signs.
pub proof fn lemma_goal_change_resets(prev_sign: Option<bool>, error_positive: bool)
    ensures
        spec_gain_action(prev_sign, error_positive, true) == GainAction::Reset,
{
}

/// The take-back law: with the goal unchanged, a step halves the gain exactly
/// when its error sign differs from the previous step's (or there was none),
/// and otherwise leaves the gain alone; it never resets.
pub proof fn lemma_same_goal_halves_on_crossing(prev_sign: Option<bool>, error_positive: bool)
    ensures
        spec_gain_action(prev_sign, error_positive, false) != GainAction::Reset,
        spec_gain_action(prev_sign, error_positive, false) == GainAction::Halve <==> prev_sign != Some(error_positive),
        spec_gain_action(prev_sign, error_positive, false) == GainAction::Keep <==> prev_sign == Some(error_positive),
{
}

/// Two consecutive steps with the same error sign and the same goal keep the
/// gain on the second step.
pub proof fn lemma_steady_error_keeps_gain(sign: bool)
    ensures
        spec_gain_action(Some(sign), sign, false) == GainAction::Keep,
{
}

} // verus!
