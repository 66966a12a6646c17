use etheride::pid::{PidStep, PidTracker, Summation, FIRST_STEP_MILLIS};

#[test]
fn first_step_integrates_one_second_and_restarts() {
    let mut t = PidTracker::new();
    let s = t.step(5000, true, true);
    assert_eq!(s, PidStep { dt_millis: FIRST_STEP_MILLIS, summation: Summation::Restart });
    assert_eq!(s.dt_millis, 1000);
    assert_eq!(t.prev_millis, Some(5000));
    assert_eq!(t.prev_error_sign, Some(true));
}

#[test]
fn later_steps_integrate_the_elapsed_time() {
    let mut t = PidTracker::new();
    t.step(100, true, true);
    let s = t.step(110, true, true);
    assert_eq!(s, PidStep { dt_millis: 10, summation: Summation::Continue });
    let s = t.step(135, true, true);
    assert_eq!(s.dt_millis, 25);
}

#[test]
fn sign_change_restarts_the_integral() {
    let mut t = PidTracker::new();
    t.step(0, true, true);
    let s = t.step(10, false, true);
    assert_eq!(s.summation, Summation::Restart);
    let s = t.step(20, false, true);
    assert_eq!(s.summation, Summation::Continue);
}

#[test]
fn outside_range_clears_the_integral() {
    let mut t = PidTracker::new();
    t.step(0, true, true);
    let s = t.step(10, true, false);
    assert_eq!(s.summation, Summation::Clear);
    let s = t.step(20, false, false);
    assert_eq!(s.summation, Summation::Clear);
}

#[test]
fn clock_going_back_gives_zero_interval() {
    let mut t = PidTracker::new();
    t.step(100, true, true);
    let s = t.step(90, true, true);
    assert_eq!(s.dt_millis, 0);
    let s = t.step(90, true, true);
    assert_eq!(s.dt_millis, 0);
}

#[test]
fn sign_flip_needs_a_previous_step() {
    let mut t = PidTracker::new();
    assert!(!t.sign_flipped(true));
    assert!(!t.sign_flipped(false));
    t.step(0, true, true);
    assert!(t.sign_flipped(false));
    assert!(!t.sign_flipped(true));
}

#[test]
fn flip_comes_with_a_restarted_integral() {
    let mut t = PidTracker::new();
    t.step(0, false, true);
    assert!(t.sign_flipped(true));
    let s = t.step(10, true, true);
    assert_eq!(s.summation, Summation::Restart);
    assert!(!t.sign_flipped(true));
}
