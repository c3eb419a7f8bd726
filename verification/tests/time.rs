use amalgam::time::{instant_since_epoch, MANUAL_CLOCK_START};
use amalgam::{
    duration_to_ticks, ticks_to_duration, Clock, Duration, ManualClock, SystemClock, Timeout,
    Timestamp, TICKS_PER_SECOND,
};
use std::sync::Arc;

#[test]
fn duration_round_trips_through_ticks() {
    let d = Duration::from_millis(1500);
    assert_eq!(ticks_to_duration(duration_to_ticks(d)), d);
}

#[test]
fn saturating_add_then_since_recovers_duration() {
    let now = Timestamp::from_ticks(5 * TICKS_PER_SECOND);
    let later = now.saturating_add(Duration::from_secs(3));
    assert_eq!(later.saturating_duration_since(now), Duration::from_secs(3));
    assert_eq!(now.saturating_duration_since(later), Duration::zero());
}

#[test]
fn manual_clock_advances() {
    let mut clock = ManualClock::new(Timestamp::from_ticks(0));
    assert_eq!(clock.now(), Timestamp::from_ticks(0));
    clock.advance(Duration::from_secs(2));
    assert_eq!(clock.now(), Timestamp::from_ticks(2 * TICKS_PER_SECOND));
}

#[test]
fn timeout_min_treats_infinite_as_longest() {
    assert_eq!(
        Timeout::Infinite.min(Timeout::After(Duration::from_secs(1))),
        Timeout::After(Duration::from_secs(1))
    );
    assert_eq!(
        Timeout::After(Duration::from_secs(2)).min(Timeout::After(Duration::from_secs(1))),
        Timeout::After(Duration::from_secs(1))
    );
    assert_eq!(Timeout::Infinite.min(Timeout::Infinite), Timeout::Infinite);
}

#[test]
fn durations_agree_with_the_standard_library() {
    let pairs = [
        (Duration::from_secs(90), std::time::Duration::from_secs(90)),
        (Duration::from_millis(1), std::time::Duration::from_millis(1)),
        (Duration::from_micros(1_999), std::time::Duration::from_micros(1_999)),
        (Duration::from_nanos(7), std::time::Duration::from_nanos(7)),
        (Duration::from_secs(u64::MAX), std::time::Duration::from_secs(u64::MAX)),
    ];
    for (ours, theirs) in pairs {
        assert_eq!(ours.as_nanos(), theirs.as_nanos());
        assert_eq!(ours.as_millis(), theirs.as_millis());
        assert_eq!(ours.is_zero(), theirs.is_zero());
    }
    assert!(Duration::zero().is_zero());
    assert_eq!(
        Duration::from_secs(2).max(Duration::from_secs(3)),
        Duration::from_secs(3)
    );
    assert_eq!(
        Duration::from_secs(2).min(Duration::from_secs(3)),
        Duration::from_secs(2)
    );
}

#[test]
fn ticks_saturate() {
    assert_eq!(duration_to_ticks(Duration::from_secs(u64::MAX)), i64::MAX);
    assert_eq!(duration_to_ticks(Duration::from_nanos(199)), 1);
    assert_eq!(ticks_to_duration(-5), Duration::zero());
    assert_eq!(
        ticks_to_duration(i64::MAX),
        Duration::from_nanos(u64::MAX as u128)
    );
    assert_eq!(ticks_to_duration(3), Duration::from_nanos(300));
}

#[test]
fn timestamps_saturate_at_the_ends() {
    let end = Timestamp::from_ticks(i64::MAX);
    assert_eq!(end.saturating_add(Duration::from_secs(1)), end);
    let start = Timestamp::from_ticks(i64::MIN);
    assert_eq!(
        end.saturating_duration_since(start),
        Duration::from_nanos(u64::MAX as u128)
    );
    assert_eq!(start.saturating_duration_since(end), Duration::zero());
    assert!(start.is_before(end));
    assert!(!end.is_before(end));
    assert_eq!(end.ticks(), i64::MAX);
}

#[test]
fn a_longer_span_never_ends_sooner() {
    let at = Timestamp::from_ticks(17);
    let near = at.saturating_add(Duration::from_millis(1));
    let far = at.saturating_add(Duration::from_millis(2));
    assert!(at.is_before(near) && near.is_before(far));
}

#[test]
fn manual_clock_starts_and_is_set() {
    let mut clock = ManualClock::default();
    assert_eq!(
        clock.now(),
        Timestamp::from_ticks(1_000_000_000 * TICKS_PER_SECOND)
    );
    assert_eq!(clock.now().ticks(), MANUAL_CLOCK_START);
    clock.set(Timestamp::from_ticks(5));
    assert_eq!(clock.now(), Timestamp::from_ticks(5));
    clock.set(Timestamp::from_ticks(i64::MAX));
    clock.advance(Duration::from_nanos(100));
    assert_eq!(clock.now(), Timestamp::from_ticks(i64::MIN));
}

#[test]
fn a_shared_clock_shows_the_same_time() {
    let clock = Arc::new(ManualClock::new(Timestamp::from_ticks(9)));
    let shared: Arc<dyn Clock> = clock.clone();
    assert_eq!(shared.now(), clock.now());
}

#[test]
fn system_clock_is_after_the_start_of_the_century() {
    let now = SystemClock.now();
    assert!(Timestamp::from_ticks(946_684_800 * TICKS_PER_SECOND).is_before(now));
    assert_eq!(
        instant_since_epoch(Some(Duration::from_secs(3))),
        Timestamp::from_ticks(3 * TICKS_PER_SECOND)
    );
    assert_eq!(instant_since_epoch(None), Timestamp::from_ticks(0));
}

#[test]
fn timeouts_tell_what_they_are() {
    assert_eq!(Timeout::default(), Timeout::Infinite);
    assert!(Timeout::Infinite.is_infinite());
    assert!(!Timeout::Infinite.is_immediate());
    assert!(Timeout::After(Duration::zero()).is_immediate());
    assert!(!Timeout::After(Duration::from_nanos(1)).is_immediate());
    assert_eq!(Timeout::from_option(None), Timeout::Infinite);
    let second = Some(Duration::from_secs(1));
    assert_eq!(Timeout::from_option(second).as_duration(), second);
    assert_eq!(Timeout::Infinite.as_duration(), None);
}
