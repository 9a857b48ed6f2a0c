use tmux_knight::schedule::{maybe_sleep, next_tick, POLL_INTERVAL_NANOS};

#[test]
fn the_interval_is_one_and_a_half_seconds() {
    assert_eq!(POLL_INTERVAL_NANOS, 1_500_000_000);
}

#[test]
fn the_next_tick_is_one_interval_on() {
    assert_eq!(next_tick(0), 1_500_000_000);
    assert_eq!(next_tick(250), 1_500_000_250);
    assert_eq!(next_tick(u64::MAX - POLL_INTERVAL_NANOS), u64::MAX);
}

#[test]
fn a_short_cycle_sleeps_for_what_is_left() {
    assert_eq!(maybe_sleep(1_000, 1_500_000_000), Some(1_499_999_000));
    assert_eq!(maybe_sleep(0, 1), Some(1));
    assert_eq!(maybe_sleep(1_499_999_999, 1_500_000_000), Some(1));
}

#[test]
fn a_cycle_that_overran_does_not_sleep() {
    assert_eq!(maybe_sleep(1_500_000_000, 1_500_000_000), None);
    assert_eq!(maybe_sleep(9_000_000_000, 1_500_000_000), None);
    assert_eq!(maybe_sleep(u64::MAX, 0), None);
}
