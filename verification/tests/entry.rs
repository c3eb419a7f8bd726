use amalgam::background::{background_ended, refresh_context, BackgroundStep, FactoryEnd};
use amalgam::{
    CacheEvent, DistributedEntry, Duration, EagerThreshold, Entry, EntryOptions, FactoryContext,
    FactoryError, Freshness, Tag, Timestamp,
};

fn opts() -> EntryOptions {
    EntryOptions::new(Duration::from_secs(10)).with_fail_safe(
        true,
        Some(Duration::from_secs(100)),
        Some(Duration::from_secs(5)),
    )
}

fn fresh(value: i32, opts: &EntryOptions, created: Timestamp) -> Entry<i32> {
    Entry::fresh(value, opts, created, Vec::new(), None, None, Duration::zero())
}

#[test]
fn fresh_entry_is_fresh_then_stale() {
    let created = Timestamp::from_ticks(0);
    let e = fresh(7i32, &opts(), created);
    let before = created.saturating_add(Duration::from_secs(5));
    let after = created.saturating_add(Duration::from_secs(15));
    assert_eq!(e.freshness(before), Freshness::Fresh);
    assert_eq!(e.freshness(after), Freshness::Stale);
    // physical boundary = max(10, 100) = 100s
    assert!(!e.is_physically_expired(after));
    assert!(e.is_physically_expired(created.saturating_add(Duration::from_secs(101))));
}

#[test]
fn throttled_keeps_physical_boundary_and_resets_logical() {
    let created = Timestamp::from_ticks(0);
    let e = fresh(7i32, &opts(), created);
    let now = created.saturating_add(Duration::from_secs(20)); // stale, still physical
    let t = Entry::throttled(&e, &opts(), now).expect("still physically alive");
    assert!(t.meta().is_from_fail_safe());
    // logical = now + throttle(5s); fresh again for 5s.
    assert_eq!(
        t.freshness(now.saturating_add(Duration::from_secs(2))),
        Freshness::Fresh
    );
    assert_eq!(
        t.freshness(now.saturating_add(Duration::from_secs(6))),
        Freshness::Stale
    );
    assert_eq!(t.meta().physical_expiration(), e.meta().physical_expiration());
    assert_eq!(t.backend_ttl(), Duration::from_secs(80));
}

#[test]
fn throttled_none_when_physically_dead() {
    let created = Timestamp::from_ticks(0);
    let e = fresh(7i32, &opts(), created);
    let now = created.saturating_add(Duration::from_secs(200));
    assert!(Entry::throttled(&e, &opts(), now).is_none());
}

#[test]
fn an_expired_entry_is_stale_but_alive() {
    let created = Timestamp::from_ticks(0);
    let e = fresh(7, &opts(), created);
    let at = created.saturating_add(Duration::from_secs(3));
    assert!(!e.is_logically_expired(at));
    let expired = e.with_logical_expiration(at);
    assert!(expired.is_logically_expired(at));
    assert!(!expired.is_physically_expired(at));
    assert_eq!(expired.value(), &7);
    assert_eq!(expired.backend_ttl(), Duration::from_secs(97));
    assert!(!expired.meta().is_from_fail_safe());
}

#[test]
fn a_default_is_served_for_the_throttle_window() {
    let now = Timestamp::from_ticks(0);
    let e = Entry::from_fail_safe_default(3, &opts(), now);
    assert!(e.meta().is_from_fail_safe());
    assert!(e.freshness(now.saturating_add(Duration::from_secs(4))).is_fresh());
    assert!(!e.freshness(now.saturating_add(Duration::from_secs(5))).is_fresh());
    assert_eq!(e.backend_ttl(), Duration::from_secs(100));
    assert!(e.meta().tags().is_empty());
}

#[test]
fn eager_refresh_is_due_between_threshold_and_expiration() {
    let created = Timestamp::from_ticks(0);
    let eager = opts().with_eager_refresh(EagerThreshold::from_bits(0.5f32.to_bits()));
    let e = Entry::fresh(
        1,
        &eager,
        created,
        Vec::new(),
        None,
        None,
        Duration::from_secs(5),
    );
    let at = |secs| created.saturating_add(Duration::from_secs(secs));
    assert!(!e.should_eager_refresh(at(4)));
    assert!(e.should_eager_refresh(at(5)));
    assert!(e.should_eager_refresh(at(9)));
    assert!(!e.should_eager_refresh(at(10)));
    let throttled = Entry::throttled(&e, &eager, at(6)).unwrap();
    assert!(!throttled.should_eager_refresh(at(7)));
    assert!(!fresh(1, &opts(), created).should_eager_refresh(at(9)));
}

#[test]
fn an_entry_survives_its_envelope() {
    let created = Timestamp::from_ticks(50);
    let tags = vec![Tag::new("a").unwrap(), Tag::new("b").unwrap()];
    let e = Entry::fresh(
        "v".to_owned(),
        &opts(),
        created,
        tags.clone(),
        Some("etag".to_owned()),
        Some(Timestamp::from_ticks(7)),
        Duration::zero(),
    );
    let dist = DistributedEntry::from_entry(&e);
    assert_eq!(dist.created_ticks, 50);
    assert_eq!(dist.tags, vec!["a".to_owned(), "b".to_owned()]);
    assert_eq!(dist.last_modified_ticks, Some(7));
    let now = created.saturating_add(Duration::from_secs(40));
    let back = dist.into_entry(now);
    assert_eq!(back.value(), "v");
    assert_eq!(back.meta().created(), created);
    assert_eq!(
        back.meta().logical_expiration(),
        e.meta().logical_expiration()
    );
    assert_eq!(
        back.meta().physical_expiration(),
        e.meta().physical_expiration()
    );
    assert_eq!(back.meta().etag(), Some("etag"));
    assert_eq!(back.meta().last_modified(), Some(Timestamp::from_ticks(7)));
    assert_eq!(back.meta().tags(), &tags);
    assert_eq!(back.backend_ttl(), Duration::from_secs(60));
}

#[test]
fn blank_tags_do_not_survive_an_envelope() {
    let dist = DistributedEntry {
        value: 1,
        created_ticks: 1,
        logical_expiration_ticks: 2,
        physical_expiration_ticks: 3,
        is_from_fail_safe: true,
        etag: None,
        last_modified_ticks: None,
        tags: vec!["t".to_owned(), " ".to_owned()],
    };
    let entry = dist.into_entry(Timestamp::from_ticks(5));
    assert_eq!(entry.meta().tags().len(), 1);
    assert!(entry.meta().is_from_fail_safe());
    assert_eq!(entry.backend_ttl(), Duration::zero());
}

#[test]
fn a_factory_may_adapt_options_and_tags() {
    let mut ctx: FactoryContext<i32> =
        FactoryContext::new("k".to_owned(), opts(), vec![Tag::new("call").unwrap()], None);
    assert_eq!(ctx.key(), "k");
    assert!(!ctx.has_stale_value());
    ctx.adapt(|o| o.with_duration(Duration::from_secs(2)));
    assert_eq!(ctx.options().duration(), Duration::from_secs(2));
    *ctx.options_mut() = ctx.options().with_duration(Duration::from_secs(3));
    ctx.set_tags(vec!["own".to_owned(), "".to_owned()]);
    let product = ctx.value(9);
    assert_eq!(product.value(), &9);
    assert_eq!(product.options.duration(), Duration::from_secs(3));
    assert_eq!(product.tags, vec![Tag::new("own").unwrap()]);
    assert!(!product.reused_stale);
}

#[test]
fn a_modified_value_carries_its_metadata() {
    let ctx: FactoryContext<i32> =
        FactoryContext::new("k".to_owned(), opts(), vec![Tag::new("call").unwrap()], None);
    let product = ctx
        .modified(4)
        .etag("abc".to_owned())
        .last_modified(Timestamp::from_ticks(6))
        .done();
    assert_eq!(product.etag.as_deref(), Some("abc"));
    assert_eq!(product.last_modified, Some(Timestamp::from_ticks(6)));
    assert_eq!(product.tags, vec![Tag::new("call").unwrap()]);
    let ctx: FactoryContext<i32> = FactoryContext::new("k".to_owned(), opts(), Vec::new(), None);
    let tagged = ctx.modified(4).tags(vec!["x".to_owned()]).done();
    assert_eq!(tagged.tags, vec![Tag::new("x").unwrap()]);
}

#[test]
fn nothing_modified_reuses_the_stale_value() {
    let stale = Entry::fresh(
        5,
        &opts(),
        Timestamp::from_ticks(0),
        vec![Tag::new("t").unwrap()],
        Some("e".to_owned()),
        Some(Timestamp::from_ticks(1)),
        Duration::zero(),
    );
    let ctx = FactoryContext::new("k".to_owned(), opts(), Vec::new(), Some(stale));
    assert_eq!(ctx.stale_value(), Some(&5));
    assert_eq!(ctx.stale_etag(), Some("e"));
    assert_eq!(ctx.stale_last_modified(), Some(Timestamp::from_ticks(1)));
    let product = ctx.not_modified().unwrap();
    assert!(product.reused_stale);
    assert_eq!(product.value, 5);
    assert_eq!(product.etag.as_deref(), Some("e"));
    assert_eq!(product.tags, vec![Tag::new("t").unwrap()]);

    let without: FactoryContext<i32> =
        FactoryContext::new("k".to_owned(), opts(), Vec::new(), None);
    assert_eq!(
        without.not_modified().unwrap_err().message(),
        "not_modified() was called but no stale value is available to reuse"
    );
}

#[test]
fn a_background_end_is_stored_or_reported() {
    let key = "k".to_owned();
    let ctx: FactoryContext<i32> = FactoryContext::new(key.clone(), opts(), Vec::new(), None);
    let product = ctx.value(1);
    assert!(matches!(
        background_ended(&key, FactoryEnd::Returned(Ok(product))),
        BackgroundStep::Store(p, CacheEvent::BackgroundFactorySuccess { key: k })
            if p.value == 1 && k == "k"
    ));
    let failed = FactoryEnd::<i32>::Returned(Err(FactoryError::new("boom".to_owned())));
    assert!(matches!(
        background_ended(&key, failed),
        BackgroundStep::Report(CacheEvent::BackgroundFactoryError { message, .. })
            if message == "boom"
    ));
    assert!(matches!(
        background_ended(&key, FactoryEnd::<i32>::Panicked),
        BackgroundStep::Report(CacheEvent::BackgroundFactoryError { message, .. })
            if message == "factory task panicked"
    ));
    assert_eq!(
        FactoryEnd::<i32>::Panicked.into_result().unwrap_err().message(),
        "factory task panicked"
    );
}

#[test]
fn a_refresh_keeps_the_tags_of_the_entry() {
    let e = Entry::fresh(
        5,
        &opts(),
        Timestamp::from_ticks(0),
        vec![Tag::new("t").unwrap()],
        None,
        None,
        Duration::zero(),
    );
    let ctx = refresh_context(&"k".to_owned(), &opts(), &e);
    assert_eq!(ctx.stale_value(), Some(&5));
    assert_eq!(ctx.value(6).tags, vec![Tag::new("t").unwrap()]);
}
