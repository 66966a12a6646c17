use etheride::manager::{Manager, SettleTimes};

fn params() -> SettleTimes {
    // small band held 20 ms, large band held 80 ms, timeout 2000 ms
    SettleTimes::new(20, 80, 2000)
}

#[test]
fn settle_times_keep_their_fields() {
    let p = params();
    assert_eq!(p.small_settle_time, 20);
    assert_eq!(p.large_settle_time, 80);
    assert_eq!(p.timeout, 2000);
}

#[test]
fn new_manager_starts_with_empty_timers() {
    let m = Manager::new(params(), 100, 101);
    assert_eq!(m.small_settled_time(), 0);
    assert_eq!(m.large_settled_time(), 0);
    assert_eq!(m.init_time, 100);
    assert_eq!(m.prev_time, 101);
    assert!(!m.should_exit(101));
}

#[test]
fn small_band_settle_exits_after_its_time() {
    let mut m = Manager::new(params(), 0, 0);
    m.update(true, true, 10, 10);
    assert_eq!(m.small_settled_time(), 10);
    assert!(!m.should_exit(10));
    m.update(true, true, 20, 20);
    assert_eq!(m.small_settled_time(), 20);
    assert_eq!(m.large_settled_time(), 20);
    assert!(m.should_exit(20));
}

#[test]
fn large_band_settle_exits_after_its_time() {
    let mut m = Manager::new(params(), 0, 0);
    m.update(false, true, 50, 50);
    assert_eq!(m.small_settled_time(), 0);
    assert_eq!(m.large_settled_time(), 50);
    assert!(!m.should_exit(50));
    m.update(false, true, 80, 80);
    assert_eq!(m.large_settled_time(), 80);
    assert!(m.should_exit(80));
}

#[test]
fn leaving_a_band_restarts_its_timer() {
    let mut m = Manager::new(params(), 0, 0);
    m.update(true, true, 15, 15);
    m.update(false, true, 30, 30);
    assert_eq!(m.small_settled_time(), 0);
    assert_eq!(m.large_settled_time(), 30);
    m.update(false, false, 40, 40);
    assert_eq!(m.large_settled_time(), 0);
    assert!(!m.should_exit(40));
}

#[test]
fn timeout_ends_the_motion() {
    let m = Manager::new(params(), 1000, 1000);
    assert!(!m.should_exit(2999));
    assert!(!m.should_exit(3000));
    assert!(m.should_exit(3001));
    assert!(m.should_exit(5000));
}

#[test]
fn clock_going_back_counts_as_no_time() {
    let mut m = Manager::new(params(), 500, 500);
    m.update(true, true, 400, 400);
    assert_eq!(m.small_settled_time(), 0);
    assert_eq!(m.prev_time, 400);
    assert!(!m.should_exit(100));
}

#[test]
fn zero_settle_times_exit_at_once() {
    let m = Manager::new(SettleTimes::new(0, 0, 0), 0, 0);
    assert!(m.should_exit(0));
}

#[test]
fn update_fits_detects_timer_overflow() {
    let mut m = Manager::new(params(), 0, 0);
    m.small_settled_time = u32::MAX - 5;
    assert!(m.update_fits(true, false, 5));
    assert!(!m.update_fits(true, false, 6));
    assert!(m.update_fits(false, false, 6));
}

#[test]
fn settle_timer_adds_up_the_intervals() {
    let mut m = Manager::new(SettleTimes::new(1000, 1000, 60000), 0, 7);
    for now in [10u32, 25, 25, 40, 100] {
        m.update(true, false, now, now);
    }
    assert_eq!(m.small_settled_time(), 100 - 7);
    assert_eq!(m.large_settled_time(), 0);
}

#[test]
fn stamp_read_after_the_update_starts_the_next_interval() {
    let mut m = Manager::new(SettleTimes::new(100, 100, 1000), 0, 0);
    m.update(true, true, 10, 12);
    assert_eq!(m.small_settled_time(), 10);
    assert_eq!(m.prev_time, 12);
    m.update(true, true, 20, 20);
    assert_eq!(m.small_settled_time(), 18);
}

#[test]
fn zero_timeout_waits_for_one_millisecond() {
    let m = Manager::new(SettleTimes::new(50, 50, 0), 10, 10);
    assert!(!m.should_exit(10));
    assert!(m.should_exit(11));
}

#[test]
fn settle_timer_sums_intervals_between_two_readings() {
    // Each update measures up to its first reading and restarts from its second.
    let mut m = Manager::new(SettleTimes::new(30, 1000, 60000), 0, 0);
    m.update(true, false, 10, 11);
    m.update(true, false, 20, 22);
    assert_eq!(m.small_settled_time(), 19);
    assert!(!m.should_exit(22));
    m.update(true, false, 33, 33);
    assert_eq!(m.small_settled_time(), 30);
    assert!(m.should_exit(33));
}
