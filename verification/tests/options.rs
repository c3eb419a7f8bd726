use amalgam::{
    Duration, EagerThreshold, EntryOptions, KeyModifierMode, Priority, RemoveByTagBehavior,
    Timeout, Timestamp,
};

fn threshold(fraction: f32) -> Option<EagerThreshold> {
    EagerThreshold::from_bits(fraction.to_bits())
}

#[test]
fn eager_threshold_rejects_out_of_range() {
    assert!(threshold(0.5).is_some());
    assert!(threshold(0.0).is_none());
    assert!(threshold(1.0).is_none());
    assert!(threshold(-0.1).is_none());
    assert!(threshold(1.5).is_none());
}

#[test]
fn eager_threshold_takes_exactly_the_fractions() {
    let samples = [
        f32::MIN_POSITIVE,
        1.0e-45,
        0.999_999_94,
        f32::NAN,
        -f32::NAN,
        f32::INFINITY,
        f32::NEG_INFINITY,
        -0.0,
        0.8,
        2.0,
    ];
    for sample in samples {
        assert_eq!(
            threshold(sample).is_some(),
            sample > 0.0 && sample < 1.0,
            "{sample}"
        );
    }
    let kept = threshold(0.8).unwrap();
    assert_eq!(f32::from_bits(kept.bits()), 0.8);
}

#[test]
fn physical_ttl_uses_max_not_sum() {
    let opts = EntryOptions::new(Duration::from_secs(10)).with_fail_safe(
        true,
        Some(Duration::from_secs(100)),
        None,
    );
    assert_eq!(opts.physical_ttl(), Duration::from_secs(100));

    let opts2 = EntryOptions::new(Duration::from_secs(200)).with_fail_safe(
        true,
        Some(Duration::from_secs(100)),
        None,
    );
    // max(200, 100) == 200, never the 300 sum.
    assert_eq!(opts2.physical_ttl(), Duration::from_secs(200));
}

#[test]
fn physical_ttl_without_fail_safe_is_logical_duration() {
    let opts = EntryOptions::new(Duration::from_secs(10));
    assert_eq!(opts.physical_ttl(), Duration::from_secs(10));
}

#[test]
fn soft_timeout_ignored_without_fallback() {
    let opts = EntryOptions::new(Duration::from_secs(10)).with_factory_timeouts(
        Timeout::After(Duration::from_millis(50)),
        Timeout::Infinite,
        true,
    );
    // Soft timeout requires fail-safe; here fail-safe is off, so infinite.
    assert_eq!(opts.appropriate_factory_timeout(true), Timeout::Infinite);
}

#[test]
fn soft_timeout_applies_with_fail_safe_and_fallback() {
    let opts = EntryOptions::new(Duration::from_secs(10))
        .with_fail_safe(true, None, None)
        .with_factory_timeouts(
            Timeout::After(Duration::from_millis(50)),
            Timeout::Infinite,
            true,
        );
    assert_eq!(
        opts.appropriate_factory_timeout(true),
        Timeout::After(Duration::from_millis(50))
    );
    // No fallback: soft timeout does not apply.
    assert_eq!(opts.appropriate_factory_timeout(false), Timeout::Infinite);
}

#[test]
fn hard_timeout_wins_when_shorter() {
    let opts = EntryOptions::new(Duration::from_secs(10))
        .with_fail_safe(true, None, None)
        .with_factory_timeouts(
            Timeout::After(Duration::from_millis(50)),
            Timeout::After(Duration::from_millis(20)),
            true,
        );
    assert_eq!(
        opts.appropriate_factory_timeout(true),
        Timeout::After(Duration::from_millis(20))
    );
}

#[test]
fn distributed_soft_timeout_applies_only_with_fail_safe_and_fallback() {
    let opts = EntryOptions::new(Duration::from_secs(10))
        .with_fail_safe(true, None, None)
        .with_distributed_timeouts(
            Timeout::After(Duration::from_millis(50)),
            Timeout::Infinite,
        );
    assert_eq!(
        opts.appropriate_distributed_timeout(true),
        Timeout::After(Duration::from_millis(50))
    );
    // No fallback: soft does not apply.
    assert_eq!(
        opts.appropriate_distributed_timeout(false),
        Timeout::Infinite
    );

    // Fail-safe off: soft does not apply even with a fallback.
    let no_fs = EntryOptions::new(Duration::from_secs(10)).with_distributed_timeouts(
        Timeout::After(Duration::from_millis(50)),
        Timeout::Infinite,
    );
    assert_eq!(
        no_fs.appropriate_distributed_timeout(true),
        Timeout::Infinite
    );
}

#[test]
fn distributed_hard_timeout_wins_when_shorter() {
    let opts = EntryOptions::new(Duration::from_secs(10))
        .with_fail_safe(true, None, None)
        .with_distributed_timeouts(
            Timeout::After(Duration::from_millis(50)),
            Timeout::After(Duration::from_millis(20)),
        );
    assert_eq!(
        opts.appropriate_distributed_timeout(true),
        Timeout::After(Duration::from_millis(20))
    );
}

#[test]
fn lock_timeouts_inherit_general_by_default() {
    let opts = EntryOptions::new(Duration::from_secs(10))
        .with_lock_timeout(Timeout::After(Duration::from_millis(100)));
    assert_eq!(
        opts.memory_lock_timeout(),
        Timeout::After(Duration::from_millis(100))
    );
    assert_eq!(
        opts.distributed_lock_timeout(),
        Timeout::After(Duration::from_millis(100))
    );
}

#[test]
fn specific_lock_timeouts_override_general() {
    let opts = EntryOptions::new(Duration::from_secs(10))
        .with_lock_timeout(Timeout::After(Duration::from_millis(100)))
        .with_memory_lock_timeout(Timeout::After(Duration::from_millis(20)))
        .with_distributed_lock_timeout(Timeout::Infinite);
    assert_eq!(
        opts.memory_lock_timeout(),
        Timeout::After(Duration::from_millis(20))
    );
    assert_eq!(opts.distributed_lock_timeout(), Timeout::Infinite);
    // The general fallback is untouched.
    assert_eq!(
        opts.lock_timeout(),
        Timeout::After(Duration::from_millis(100))
    );
}

#[test]
fn jitter_widens_logical_expiration_within_bound() {
    let base_dur = Duration::from_secs(100);
    let jitter = Duration::from_secs(10);
    let created = Timestamp::from_ticks(0);

    // No jitter: exactly base.
    let plain = EntryOptions::new(base_dur);
    let base_exp = plain.logical_expiration(created);
    assert_eq!(plain.logical_expiration(created).ticks(), base_exp.ticks());

    // With jitter: always in [base, base + jitter], never shorter, never over.
    let jittered = EntryOptions::new(base_dur).with_jitter_max(jitter);
    let upper = base_exp.saturating_add(jitter).ticks();
    for _ in 0..200 {
        let exp = jittered.logical_expiration(created).ticks();
        assert!(exp >= base_exp.ticks(), "jitter never shortens expiration");
        assert!(exp <= upper, "jitter never exceeds jitter_max");
    }
}

#[test]
fn jitter_is_random_and_reaches_past_its_start() {
    let created = Timestamp::from_ticks(0);
    let jittered =
        EntryOptions::new(Duration::from_secs(1)).with_jitter_max(Duration::from_secs(1));
    let base = created.saturating_add(Duration::from_secs(1)).ticks();
    let upper = base + 10_000_000;
    let mut below_the_end = false;
    let mut past_the_start = false;
    for _ in 0..200 {
        let exp = jittered.logical_expiration(created).ticks();
        below_the_end |= exp < upper;
        past_the_start |= exp > base;
    }
    assert!(below_the_end && past_the_start);
    assert_eq!(
        jittered.logical_expiration_after(created, 5).ticks(),
        base + 5
    );
}

#[test]
fn default_options_are_as_documented() {
    let opts = EntryOptions::default();
    assert_eq!(opts.duration(), Duration::from_secs(30));
    assert!(!opts.is_fail_safe_enabled());
    assert_eq!(opts.fail_safe_max_duration, Duration::from_secs(86_400));
    assert_eq!(opts.fail_safe_throttle_duration(), Duration::from_secs(30));
    assert_eq!(opts.lock_timeout(), Timeout::Infinite);
    assert_eq!(opts.factory_soft_timeout, Timeout::Infinite);
    assert_eq!(opts.factory_hard_timeout, Timeout::Infinite);
    assert!(opts.allow_timed_out_factory_background_completion());
    assert!(!opts.skip_memory_read() && !opts.skip_memory_write());
    assert_eq!(opts.priority(), Priority::Normal);
    assert_eq!(opts.size, None);
    assert!(!opts.allow_stale_on_read_only());
    assert_eq!(opts.distributed_soft_timeout(), Timeout::Infinite);
    assert_eq!(opts.distributed_hard_timeout(), Timeout::Infinite);
    assert!(!opts.allow_background_distributed_operations());
    assert!(!opts.rethrow_distributed_exceptions());
    assert!(opts.rethrow_serialization_exceptions());
    assert!(!opts.skip_distributed_read() && !opts.skip_distributed_write());
    assert!(!opts.skip_distributed_read_when_stale() && !opts.skip_distributed_locker());
    assert!(!opts.enable_auto_clone());
    assert!(!opts.skip_backplane_notifications());
    assert!(opts.allow_background_backplane_operations());
    assert!(!opts.rethrow_backplane_exceptions());
    assert!(opts.eager_refresh_threshold().is_none());
    assert_eq!(KeyModifierMode::default(), KeyModifierMode::Prefix);
    assert_eq!(RemoveByTagBehavior::default(), RemoveByTagBehavior::Expire);
    assert_eq!(Priority::default(), Priority::Normal);
}

#[test]
fn builders_set_what_they_say() {
    let opts = EntryOptions::new(Duration::from_secs(1))
        .with_duration(Duration::from_secs(2))
        .with_memory_duration(Duration::from_secs(3))
        .with_distributed_duration(Duration::from_secs(4))
        .with_eager_refresh(threshold(0.25))
        .with_priority(Priority::High)
        .with_size(9)
        .with_allow_stale_on_read_only(true)
        .with_skip_memory(true, false)
        .with_skip_distributed(false, true)
        .with_skip_distributed_read_when_stale(true)
        .with_allow_background_distributed_operations(true)
        .with_skip_backplane_notifications(true)
        .with_skip_distributed_locker(true)
        .with_enable_auto_clone(true);
    assert_eq!(opts.duration(), Duration::from_secs(2));
    assert_eq!(opts.resolved_memory_duration(), Duration::from_secs(3));
    assert_eq!(opts.resolved_distributed_duration(), Duration::from_secs(4));
    assert_eq!(opts.eager_refresh_threshold(), threshold(0.25));
    assert_eq!(opts.priority(), Priority::High);
    assert_eq!(opts.size, Some(9));
    assert!(opts.allow_stale_on_read_only());
    assert!(opts.skip_memory_read() && !opts.skip_memory_write());
    assert!(!opts.skip_distributed_read() && opts.skip_distributed_write());
    assert!(opts.skip_distributed_read_when_stale());
    assert!(opts.allow_background_distributed_operations());
    assert!(opts.skip_backplane_notifications());
    assert!(opts.skip_distributed_locker());
    assert!(opts.enable_auto_clone());
    assert_eq!(opts.distributed_physical_ttl(), Duration::from_secs(4));
    let safe = opts.with_fail_safe(true, Some(Duration::from_secs(5)), None);
    assert_eq!(safe.distributed_physical_ttl(), Duration::from_secs(5));
    assert_eq!(
        safe.resolved_distributed_fail_safe_max_duration(),
        Duration::from_secs(5)
    );
}

#[test]
fn eager_refresh_is_due_after_its_share() {
    let created = Timestamp::from_ticks(100);
    let off = EntryOptions::new(Duration::from_secs(10));
    assert_eq!(off.eager_refresh_at(created, Duration::from_secs(5)), None);
    let on = off.with_eager_refresh(threshold(0.5));
    assert_eq!(
        on.eager_refresh_at(created, Duration::from_secs(5)),
        Some(Timestamp::from_ticks(100 + 50_000_000))
    );
}
