use etheride::tbh::{GainAction, TbhTracker};

#[test]
fn first_step_resets_when_goal_is_new() {
    let mut t = TbhTracker::new();
    assert_eq!(t.step(true, true), GainAction::Reset);
    assert_eq!(t.prev_sign, Some(true));
}

#[test]
fn first_step_without_goal_change_halves() {
    let mut t = TbhTracker::new();
    assert_eq!(t.step(false, false), GainAction::Halve);
}

#[test]
fn crossing_zero_halves_the_gain() {
    let mut t = TbhTracker::new();
    t.step(true, true);
    assert_eq!(t.step(true, false), GainAction::Keep);
    assert_eq!(t.step(false, false), GainAction::Halve);
    assert_eq!(t.step(false, false), GainAction::Keep);
    assert_eq!(t.step(true, false), GainAction::Halve);
}

#[test]
fn goal_change_resets_even_on_a_crossing() {
    let mut t = TbhTracker::new();
    t.step(true, true);
    assert_eq!(t.step(false, true), GainAction::Reset);
    assert_eq!(t.prev_sign, Some(false));
}

#[test]
fn gain_halves_once_per_crossing_after_a_reset() {
    // Drive an f32 gain by the tracker's actions the way a TBH controller does.
    let kinit: f32 = 0.8;
    let mut k = kinit;
    let mut t = TbhTracker::new();
    let steps = [(true, true), (true, false), (false, false), (false, false), (true, false)];
    for (positive, goal_changed) in steps {
        match t.step(positive, goal_changed) {
            GainAction::Keep => {}
            GainAction::Halve => k *= 0.5,
            GainAction::Reset => k = kinit,
        }
    }
    assert_eq!(k, kinit * 0.25);
}
