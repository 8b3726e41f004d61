use fluster::time::{micros, nanos};

#[test]
fn nanos_are_exact_in_range() {
    assert_eq!(nanos(0, 0), 0);
    assert_eq!(nanos(2, 500), 2_000_000_500);
    assert_eq!(nanos(18_446_744_073, 709_551_615), u64::MAX);
}

#[test]
fn nanos_saturate_past_the_range() {
    assert_eq!(nanos(18_446_744_073, 709_551_616), u64::MAX);
    assert_eq!(nanos(u64::MAX, 999_999_999), u64::MAX);
}

#[test]
fn micros_round_down_and_saturate() {
    assert_eq!(micros(1, 1_999), 1_000_001);
    assert_eq!(micros(0, 999), 0);
    assert_eq!(micros(u64::MAX, 0), u64::MAX);
    assert_eq!(micros(18_446_744_073_709, 551_615_999), u64::MAX);
}
