use etheride::motor_group::{take_ports, VoltageCall, VoltagePass};

/// Runs a pass with the given outcome of each motor's counted setting and
/// returns the settings asked for and whether the pass failed.
fn drive(fails: &[bool]) -> (Vec<VoltageCall>, bool) {
    let mut pass = VoltagePass::new(fails.len());
    let mut calls = Vec::new();
    loop {
        let call = pass.next_call();
        calls.push(call);
        match call {
            VoltageCall::Retry(_) => pass.record_retry(),
            VoltageCall::Apply(i) => pass.record_set(fails[i]),
            VoltageCall::Done => break,
        }
    }
    (calls, pass.failed())
}

#[test]
fn empty_group_succeeds_at_once() {
    let (calls, failed) = drive(&[]);
    assert_eq!(calls, vec![VoltageCall::Done]);
    assert!(!failed);
}

#[test]
fn all_motors_set_in_order_without_failures() {
    let (calls, failed) = drive(&[false, false, false]);
    assert_eq!(
        calls,
        vec![VoltageCall::Apply(0), VoltageCall::Apply(1), VoltageCall::Apply(2), VoltageCall::Done]
    );
    assert!(!failed);
}

#[test]
fn failure_makes_the_next_motor_set_twice() {
    let (calls, failed) = drive(&[true, false, true]);
    assert_eq!(
        calls,
        vec![
            VoltageCall::Apply(0),
            VoltageCall::Retry(1),
            VoltageCall::Apply(1),
            VoltageCall::Apply(2),
            VoltageCall::Done
        ]
    );
    assert!(failed);
}

#[test]
fn pass_reports_only_the_last_motor() {
    let (_, failed) = drive(&[true, true, false]);
    assert!(!failed);
    let (calls, failed) = drive(&[false, true]);
    assert_eq!(calls, vec![VoltageCall::Apply(0), VoltageCall::Apply(1), VoltageCall::Done]);
    assert!(failed);
}

#[test]
fn take_ports_takes_a_single_port() {
    let mut ports = vec![7u8];
    let taken = take_ports(&mut ports);
    assert_eq!(taken, vec![7u8]);
    assert!(ports.is_empty());
    let mut none: Vec<u8> = vec![];
    assert!(take_ports(&mut none).is_empty());
}
