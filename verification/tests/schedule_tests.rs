use hs110_plugin::schedule::IntervalScheduler;
use hs110_plugin::schedule::period_or_default;
use hs110_plugin::schedule::sleep_duration;

#[test]
fn period_fallbacks() {
    assert_eq!(period_or_default(None), 1);
    assert_eq!(period_or_default(Some(0)), 1);
    assert_eq!(period_or_default(Some(1)), 1);
    assert_eq!(period_or_default(Some(7)), 7);
}

#[test]
fn sleep_is_the_remainder_of_the_period() {
    assert_eq!(sleep_duration(5, 0), 5);
    assert_eq!(sleep_duration(5, 3), 2);
    assert_eq!(sleep_duration(5, 5), 0);
}

#[test]
fn overrunning_round_sleeps_zero_and_continues_immediately() {
    // Period of 5 time units, round takes 7: the following sleep is 0 and the
    // next round starts right when the round ends.
    let s = IntervalScheduler::new(Some(5));
    assert_eq!(s.sleep_after(7), 0);
    assert_eq!(s.next_round_start(100, 7), 107);
}

#[test]
fn fast_round_keeps_the_cadence() {
    // A round under the period starts the next round exactly one period after
    // its own start, whatever the elapsed time was.
    let s = IntervalScheduler::new(Some(5));
    assert_eq!(s.next_round_start(100, 1), 105);
    assert_eq!(s.next_round_start(100, 4), 105);
    assert_eq!(s.next_round_start(105, 0), 110);
}

#[test]
fn poll_deadline_is_half_the_period() {
    let s = IntervalScheduler::new(Some(1));
    assert_eq!(s.poll_deadline_ms(), 500);
    let t = IntervalScheduler::new(Some(5));
    assert_eq!(t.poll_deadline_ms(), 2500);
    let u = IntervalScheduler::new(None);
    assert_eq!(u.poll_deadline_ms(), 500);
}
