use my_os::time::Duration;
use my_os::timer::{time_manager, GenericTimerCounterValue, SpinFor, TimeManager, DURATION_TOO_BIG};

fn timer_at(frequency: u32) -> TimeManager {
    let mut timer = time_manager();
    assert!(timer.set_frequency(frequency));
    timer
}

#[test]
fn counter_addition_wraps_past_the_largest_count() {
    let sum = GenericTimerCounterValue::max() + GenericTimerCounterValue(1);
    assert_eq!(sum, GenericTimerCounterValue(0));
    let sum = GenericTimerCounterValue(u64::MAX - 1) + GenericTimerCounterValue(5);
    assert_eq!(sum, GenericTimerCounterValue(3));
    let sum = GenericTimerCounterValue(7) + GenericTimerCounterValue(8);
    assert_eq!(sum, GenericTimerCounterValue(15));
}

#[test]
fn the_time_manager_starts_at_one_tick_per_second() {
    let timer = TimeManager::new();
    assert_eq!(timer.frequency(), 1);
    assert_eq!(timer.resolution(), Duration::from_secs(1));
    assert_eq!(time_manager().frequency(), 1);
}

#[test]
fn a_frequency_of_zero_is_refused() {
    let mut timer = timer_at(19_200_000);
    assert!(!timer.set_frequency(0));
    assert_eq!(timer.frequency(), 19_200_000);
    assert!(timer.set_frequency(62_500_000));
    assert_eq!(timer.frequency(), 62_500_000);
}

#[test]
fn the_resolution_is_the_span_of_one_tick() {
    assert_eq!(timer_at(62_500_000).resolution(), Duration::from_nanos(16));
    assert_eq!(timer_at(19_200_000).resolution(), Duration::from_nanos(52));
    assert_eq!(timer_at(1_000_000_000).resolution(), Duration::from_nanos(1));
    assert_eq!(timer_at(u32::MAX).resolution(), Duration::zero());
}

#[test]
fn ticks_convert_to_seconds_and_nanoseconds() {
    let timer = timer_at(19_200_000);
    assert_eq!(timer.counter_to_duration(GenericTimerCounterValue(0)), Duration::zero());
    assert_eq!(timer.counter_to_duration(GenericTimerCounterValue(19_200_000)), Duration::from_secs(1));
    assert_eq!(timer.counter_to_duration(GenericTimerCounterValue(28_800_000)), Duration::new(1, 500_000_000));
    assert_eq!(timer.counter_to_duration(GenericTimerCounterValue(19_200_001)), Duration::new(1, 52));
    assert_eq!(timer.uptime(GenericTimerCounterValue(192)), Duration::from_micros(10));
}

#[test]
fn the_longest_span_is_that_of_the_largest_count() {
    assert_eq!(timer_at(1).max_duration(), Duration::from_secs(u64::MAX));
    let longest = timer_at(1_000_000_000).max_duration();
    assert_eq!(longest.as_nanos(), u64::MAX as u128);
    let longest = timer_at(19_200_000).max_duration();
    assert_eq!(longest.as_nanos(), (u64::MAX as u128) * 1_000_000_000 / 19_200_000);
}

#[test]
fn a_span_converts_to_ticks_rounded_down() {
    let timer = timer_at(19_200_000);
    assert_eq!(timer.duration_to_counter(Duration::from_secs(1)), Ok(GenericTimerCounterValue(19_200_000)));
    assert_eq!(timer.duration_to_counter(Duration::from_nanos(52)), Ok(GenericTimerCounterValue(0)));
    assert_eq!(timer.duration_to_counter(Duration::from_nanos(53)), Ok(GenericTimerCounterValue(1)));
    assert_eq!(timer.duration_to_counter(Duration::from_micros(1)), Ok(GenericTimerCounterValue(19)));
    assert_eq!(timer.duration_to_counter(Duration::zero()), Ok(GenericTimerCounterValue(0)));
}

#[test]
fn a_span_below_the_resolution_converts_to_no_ticks() {
    let timer = timer_at(62_500_000);
    let mut nanos = 0;
    while nanos < 16 {
        assert_eq!(timer.duration_to_counter(Duration::from_nanos(nanos)), Ok(GenericTimerCounterValue(0)));
        nanos += 1;
    }
    assert_eq!(timer.duration_to_counter(Duration::from_nanos(16)), Ok(GenericTimerCounterValue(1)));
}

#[test]
fn a_span_longer_than_the_counter_holds_is_refused() {
    let timer = timer_at(u32::MAX);
    assert_eq!(timer.duration_to_counter(Duration::from_secs(u64::MAX)), Err(DURATION_TOO_BIG));
    assert_eq!(DURATION_TOO_BIG, "Conversion error. Duration too big");
    let timer = timer_at(2);
    let longest = timer.max_duration();
    assert_eq!(longest, Duration::new(u64::MAX / 2, 500_000_000));
    assert_eq!(timer.duration_to_counter(longest), Ok(GenericTimerCounterValue(u64::MAX)));
    let longer = Duration::new(u64::MAX / 2, 500_000_001);
    assert_eq!(timer.duration_to_counter(longer), Err(DURATION_TOO_BIG));
}

#[test]
fn whole_nanoseconds_survive_the_round_trip() {
    let timer = timer_at(62_500_000);
    for ticks in [0u64, 1, 2, 1_000, 62_500_000, 123_456_789_012, u64::MAX] {
        let span = timer.counter_to_duration(GenericTimerCounterValue(ticks));
        assert_eq!(timer.duration_to_counter(span), Ok(GenericTimerCounterValue(ticks)));
    }
    let timer = timer_at(3);
    let span = timer.counter_to_duration(GenericTimerCounterValue(3));
    assert_eq!(timer.duration_to_counter(span), Ok(GenericTimerCounterValue(3)));
}

#[test]
fn cut_off_nanoseconds_cost_a_tick_on_the_way_back() {
    let timer = timer_at(3);
    let span = timer.counter_to_duration(GenericTimerCounterValue(1));
    assert_eq!(span, Duration::from_nanos(333_333_333));
    assert_eq!(timer.duration_to_counter(span), Ok(GenericTimerCounterValue(0)));
    let span = timer.counter_to_duration(GenericTimerCounterValue(2));
    assert_eq!(timer.duration_to_counter(span), Ok(GenericTimerCounterValue(1)));
}

#[test]
fn spinning_for_less_than_a_tick_waits_for_nothing() {
    let timer = timer_at(62_500_000);
    let now = GenericTimerCounterValue(5_000);
    let nothing = GenericTimerCounterValue(0);
    let plan = timer.spin_for(now, Duration::from_nanos(1));
    assert_eq!(plan, SpinFor::Until { start: now, delta: nothing });
    assert!(now.reached(now, nothing));
    assert!(GenericTimerCounterValue(u64::MAX).reached(GenericTimerCounterValue(u64::MAX), nothing));
}

#[test]
fn spinning_waits_for_the_ticks_of_the_span() {
    let timer = timer_at(19_200_000);
    let start = GenericTimerCounterValue(100);
    let delta = GenericTimerCounterValue(19_200_000);
    let plan = timer.spin_for(start, Duration::from_secs(1));
    assert_eq!(plan, SpinFor::Until { start, delta });
    assert!(!start.reached(start, delta));
    assert!(!GenericTimerCounterValue(19_200_099).reached(start, delta));
    assert!(GenericTimerCounterValue(19_200_100).reached(start, delta));
    assert!(GenericTimerCounterValue(19_200_101).reached(start, delta));
}

#[test]
fn a_wait_across_the_wrap_of_the_counter_lasts_its_ticks() {
    let timer = timer_at(19_200_000);
    let start = GenericTimerCounterValue(u64::MAX);
    let delta = GenericTimerCounterValue(19_200_000);
    let plan = timer.spin_for(start, Duration::from_secs(1));
    assert_eq!(plan, SpinFor::Until { start, delta });
    assert!(!start.reached(start, delta));
    assert!(!GenericTimerCounterValue(0).reached(start, delta));
    assert!(!GenericTimerCounterValue(19_199_998).reached(start, delta));
    assert!(GenericTimerCounterValue(19_199_999).reached(start, delta));
    assert!(GenericTimerCounterValue(19_200_000).reached(start, delta));
    assert_eq!(start + delta, GenericTimerCounterValue(19_199_999));
}

#[test]
fn a_wait_is_not_over_at_the_count_at_which_it_began() {
    let one = GenericTimerCounterValue(1);
    for start in [0u64, 1, 5_000, u64::MAX - 1, u64::MAX] {
        let start = GenericTimerCounterValue(start);
        assert!(!start.reached(start, one));
        assert!((start + one).reached(start, one));
        assert!(!start.reached(start, GenericTimerCounterValue(u64::MAX)));
    }
}

#[test]
fn spinning_for_too_long_is_skipped() {
    let timer = timer_at(u32::MAX);
    let plan = timer.spin_for(GenericTimerCounterValue(0), Duration::from_secs(u64::MAX));
    assert_eq!(plan, SpinFor::Skip(DURATION_TOO_BIG));
}
