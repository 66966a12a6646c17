use etheride::time::elapsed_millis;

#[test]
fn elapsed_is_the_difference_when_later() {
    assert_eq!(elapsed_millis(150, 100), 50);
    assert_eq!(elapsed_millis(u32::MAX, 0), u32::MAX);
}

#[test]
fn elapsed_is_zero_when_not_later() {
    assert_eq!(elapsed_millis(100, 100), 0);
    assert_eq!(elapsed_millis(100, 150), 0);
}

#[test]
fn it_adds_two() {
    assert_eq!(2 + 2, 4);
}
