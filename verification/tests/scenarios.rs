//! Whole calls, driven step by step against a map for the memory store, a shared map for the
//! distributed cache, and messages carried by hand.
use amalgam::background::{background_ended, refresh_begun, BackgroundStep, FactoryEnd};
use amalgam::backplane::{decode_message, encode_message};
use amalgam::flow::{GetOrSet, Outcome, Request, Step};
use amalgam::guarded::{L2Outcome, L2Write, Publish};
use amalgam::incoming::LocalChange;
use amalgam::{
    BackplaneAction, BackplaneMessage, Cache, CacheBuilder, CacheEvent, CacheRegistry,
    CircuitComponent, Clock, DefaultEntryOptionsProvider, DistributedEntry, Duration,
    EagerThreshold, Effect, Entry, EntryOptions, Error, FactoryContext, FactoryError,
    FactoryProduct, InMemoryDistributedCache, InMemoryDistributedLocker, ManualClock, MaybeValue,
    MetricsPlugin, Plugin, PluginHost, RecoveryConfig, RemoveByTagBehavior, Tag, Timeout,
    Timestamp,
};
use std::cell::{Cell, RefCell};
use std::collections::HashMap;
use std::rc::Rc;
use std::sync::atomic::{AtomicUsize, Ordering};
use std::sync::Arc;

/// How a factory behaves: it returns, or it takes longer than any timeout and returns later.
enum Run<V> {
    Prompt(Result<FactoryProduct<V>, FactoryError>),
    Slow(Result<FactoryProduct<V>, FactoryError>),
}

/// A distributed cache shared by several nodes; envelopes are stored by their number.
struct SharedL2<V> {
    store: InMemoryDistributedCache,
    envelopes: Vec<DistributedEntry<V>>,
    down: bool,
    hangs: bool,
    garbled: bool,
    reads: usize,
}

impl<V: Clone> SharedL2<V> {
    fn new() -> Rc<RefCell<Self>> {
        Rc::new(RefCell::new(Self {
            store: InMemoryDistributedCache::new(),
            envelopes: Vec::new(),
            down: false,
            hangs: false,
            garbled: false,
            reads: 0,
        }))
    }

    fn get(&mut self, key: &str, now: Timestamp) -> L2Outcome<V> {
        self.reads += 1;
        if self.hangs {
            return L2Outcome::TimedOut;
        }
        if self.down {
            return L2Outcome::Answered(Err(Error::Distributed("down".to_owned())));
        }
        if self.garbled {
            return L2Outcome::Answered(Err(Error::Deserialization("garbled".to_owned())));
        }
        let found = self.store.get(key, now).map(|bytes| {
            let mut number = [0u8; 8];
            number.copy_from_slice(&bytes);
            self.envelopes[u64::from_le_bytes(number) as usize].clone()
        });
        L2Outcome::Answered(Ok(found))
    }

    fn set(
        &mut self,
        key: &str,
        entry: &Entry<V>,
        ttl: Duration,
        now: Timestamp,
    ) -> Result<(), Error> {
        if self.down {
            return Err(Error::Distributed("down".to_owned()));
        }
        let number = self.envelopes.len() as u64;
        self.envelopes.push(DistributedEntry::from_entry(entry));
        self.store
            .set(key, number.to_le_bytes().to_vec(), Some(ttl), now);
        Ok(())
    }
}

type Time = Rc<RefCell<ManualClock>>;

fn time() -> Time {
    Rc::new(RefCell::new(ManualClock::default()))
}

fn advance(time: &Time, secs: u64) {
    time.borrow_mut().advance(Duration::from_secs(secs));
}

/// One cache instance.
struct Node<V> {
    cache: Cache,
    memory: HashMap<String, Entry<V>>,
    l2: Option<Rc<RefCell<SharedL2<V>>>>,
    locker: Option<Rc<RefCell<InMemoryDistributedLocker>>>,
    clock: Time,
    events: Vec<CacheEvent>,
    plugins: PluginHost<Arc<dyn Plugin>>,
    outbox: Vec<BackplaneMessage>,
    backplane_down: bool,
    lock_is_busy: bool,
    waited_for_lock: bool,
}

/// The part of a window that a threshold makes.
fn eager_share(options: &EntryOptions) -> Duration {
    match options.eager_refresh_threshold() {
        Some(t) => {
            let window = options.resolved_memory_duration().as_nanos() as u64;
            let share = std::time::Duration::from_nanos(window).mul_f32(f32::from_bits(t.bits()));
            Duration::from_nanos(share.as_nanos())
        }
        None => Duration::zero(),
    }
}

impl<V: Clone> Node<V> {
    fn new(builder: CacheBuilder, clock: &Time) -> Self {
        Self {
            cache: builder.build(),
            memory: HashMap::new(),
            l2: None,
            locker: None,
            clock: clock.clone(),
            events: Vec::new(),
            plugins: PluginHost::default(),
            outbox: Vec::new(),
            backplane_down: false,
            lock_is_busy: false,
            waited_for_lock: false,
        }
    }

    fn with_l2(builder: CacheBuilder, clock: &Time, l2: &Rc<RefCell<SharedL2<V>>>) -> Self {
        let mut node = Self::new(builder.distributed(true), clock);
        node.l2 = Some(l2.clone());
        node
    }

    fn now(&self) -> Timestamp {
        self.clock.borrow().now()
    }

    fn emit(&mut self, event: CacheEvent) {
        if !self.plugins.is_empty() {
            self.plugins.notify(&event);
        }
        self.events.push(event);
    }

    fn emit_all(&mut self, events: Vec<CacheEvent>) {
        for event in events {
            self.emit(event);
        }
    }

    fn publish(&mut self, action: BackplaneAction, key: &String, options: &EntryOptions) {
        let now = self.now();
        if self.cache.plan_publish(action, key, options, now) == Publish::Skip {
            return;
        }
        let message = self.cache.message(action, key, now);
        if !self.backplane_down {
            self.outbox.push(message);
        }
        let sent = !self.backplane_down;
        let events = self.cache.finish_publish(action, key, sent, now);
        self.emit_all(events);
    }

    fn write_l2(&mut self, key: &String, entry: &Entry<V>, options: &EntryOptions) {
        let now = self.now();
        if let L2Write::Write {
            key: l2_key, ttl, ..
        } = self.cache.plan_l2_write(key, options, now)
        {
            let l2 = self.l2.clone().unwrap();
            let result = l2.borrow_mut().set(&l2_key, entry, ttl, now);
            let events = self.cache.finish_l2_write(key, result, now);
            self.emit_all(events);
        }
    }

    fn remove_l2(&mut self, key: &String) {
        let now = self.now();
        if let Some(l2_key) = self.cache.plan_l2_remove(key, now) {
            let l2 = self.l2.clone().unwrap();
            l2.borrow_mut().store.remove(&l2_key);
            let events = self.cache.finish_l2_remove(key, Ok(()), now, now);
            self.emit_all(events);
        }
    }

    /// Carries out effects other than those on a running factory.
    fn perform(&mut self, key: &String, effects: Vec<Effect<V>>) {
        for effect in effects {
            match effect {
                Effect::Emit(event) => self.emit(event),
                Effect::InsertMemory(entry) => {
                    self.memory.insert(key.clone(), entry);
                }
                Effect::RemoveMemory => {
                    self.memory.remove(key);
                }
                Effect::InvalidateMemory => self.memory.clear(),
                Effect::WriteDistributed(entry, options) => self.write_l2(key, &entry, &options),
                Effect::RemoveDistributed => self.remove_l2(key),
                Effect::Announce(action, options) => self.publish(action, key, &options),
                Effect::SendMarker(message) => {
                    if !self.backplane_down {
                        let key = message.key.clone();
                        self.outbox.push(message);
                        self.emit(CacheEvent::MessagePublished { key });
                    }
                }
                Effect::RefreshEagerly(_) | Effect::KeepFactory | Effect::AbortFactory => {
                    unreachable!("only a call asks for this")
                }
            }
        }
    }

    fn store(&mut self, key: &String, product: FactoryProduct<V>) -> V {
        let share = eager_share(&product.options);
        let stored = self.cache.store_product(key, product, share, self.now());
        self.perform(key, stored.effects);
        stored.entry.value_cloned()
    }

    fn in_background(&mut self, key: &String, end: FactoryEnd<V>) {
        match background_ended(key, end) {
            BackgroundStep::Store(product, event) => {
                let share = eager_share(&product.options);
                let stored = self
                    .cache
                    .store_in_background(key, product, share, self.now());
                self.perform(key, stored.effects);
                self.emit(event);
            }
            BackgroundStep::Report(event) => self.emit(event),
        }
    }

    fn get_or_set_full(
        &mut self,
        key: &str,
        options: EntryOptions,
        tags: Vec<Tag>,
        fail_safe_default: MaybeValue<V>,
        mut factory: impl FnMut(FactoryContext<V>) -> Run<V>,
    ) -> Result<V, Error> {
        let key = self.cache.full_key(key);
        let mut advance = GetOrSet::begin(key.clone(), options, tags, fail_safe_default);
        let mut left_running = None;
        let mut kept = false;
        loop {
            for effect in advance.effects {
                match effect {
                    Effect::RefreshEagerly(entry) => {
                        let begun = refresh_begun(&key, &options, &entry, !self.lock_is_busy);
                        if let Some((event, ctx)) = begun {
                            self.emit(event);
                            let (Run::Prompt(result) | Run::Slow(result)) = factory(ctx);
                            self.in_background(&key, FactoryEnd::Returned(result));
                        }
                    }
                    Effect::KeepFactory => kept = true,
                    Effect::AbortFactory => left_running = None,
                    other => self.perform(&key, vec![other]),
                }
            }
            let (flow, request) = match advance.step {
                Step::Ask(flow, request) => (flow, request),
                Step::Finish(outcome) => {
                    let result = match outcome {
                        Outcome::Serve(entry) => Ok(entry.value_cloned()),
                        Outcome::Store(product) => Ok(self.store(&key, product)),
                        Outcome::Fail(err) => Err(err),
                    };
                    if kept {
                        if let Some(late) = left_running.take() {
                            self.in_background(&key, FactoryEnd::Returned(late));
                        }
                    }
                    return result;
                }
            };
            let now = self.now();
            advance = match request {
                Request::ReadMemory => {
                    let found = self.memory.get(&key).cloned();
                    flow.memory_read(&mut self.cache, found, now, now)
                }
                Request::Lock(Timeout::After(_)) if self.lock_is_busy => flow.lock_timed_out(),
                Request::Lock(_) => flow.locked(&mut self.cache, now),
                Request::WaitForLock => {
                    self.waited_for_lock = true;
                    flow.locked(&mut self.cache, now)
                }
                Request::LockAcrossNodes(lock) => {
                    let locker = self.locker.clone().unwrap();
                    let token = locker.borrow_mut().try_once(&lock.key, lock.ttl, now);
                    let next = flow.across_nodes_settled(&mut self.cache, now);
                    if let Some(token) = token {
                        locker.borrow_mut().release(&lock.key, &token);
                    }
                    next
                }
                Request::ReadDistributed(read) => {
                    let l2 = self.l2.clone().unwrap();
                    let outcome = l2.borrow_mut().get(&read.key, now);
                    flow.distributed_read(&mut self.cache, outcome, now, now)
                }
                Request::RunFactory(ctx, timeout) => match (factory(ctx), timeout) {
                    (Run::Prompt(result), _) | (Run::Slow(result), Timeout::Infinite) => {
                        flow.factory_ended(result, now)
                    }
                    (Run::Slow(result), Timeout::After(_)) => {
                        left_running = Some(result);
                        flow.factory_timed_out(now)
                    }
                },
            };
        }
    }

    fn get_or_set(
        &mut self,
        key: &str,
        options: EntryOptions,
        factory: impl FnMut(FactoryContext<V>) -> Run<V>,
    ) -> Result<V, Error> {
        self.get_or_set_full(key, options, Vec::new(), MaybeValue::none(), factory)
    }

    fn set_with(&mut self, key: &str, value: V, options: EntryOptions) {
        let key = self.cache.full_key(key);
        let stored = self.cache.set_full(
            &key,
            value,
            &options,
            Vec::new(),
            eager_share(&options),
            self.now(),
        );
        self.perform(&key, stored.effects);
    }

    fn set(&mut self, key: &str, value: V) {
        self.set_with(key, value, self.cache.settings.default_options);
    }

    fn try_get(&mut self, key: &str, options: Option<EntryOptions>) -> MaybeValue<V> {
        let options = self.cache.options_or_provided(options, None);
        let key = self.cache.full_key(key);
        let found = self.memory.get(&key).cloned();
        let lookup = self.cache.try_get(&key, &options, found, self.now());
        let value = lookup.value();
        if lookup.evict {
            self.memory.remove(&key);
        }
        self.emit(lookup.event);
        value
    }

    fn remove(&mut self, key: &str) {
        let key = self.cache.full_key(key);
        let effects = self.cache.remove(&key);
        self.perform(&key, effects);
    }

    fn expire(&mut self, key: &str) {
        let key = self.cache.full_key(key);
        let effects = self.cache.expire(&key, self.memory.get(&key), self.now());
        self.perform(&key, effects);
    }

    fn remove_by_tag(&mut self, tag: &str) {
        let now = self.now();
        let effects = self.cache.remove_by_tag(tag, now);
        self.perform(&String::new(), effects);
    }

    fn clear(&mut self, allow_fail_safe: bool) {
        let now = self.now();
        let effects = self.cache.clear(allow_fail_safe, now);
        self.perform(&String::new(), effects);
    }

    /// Takes in everything that another node has announced, over the wire.
    fn listen_to(&mut self, other: &mut Node<V>) {
        for sent in other.outbox.drain(..) {
            let message = decode_message(encode_message(&sent).as_bytes()).unwrap();
            if self.cache.is_own_message(&message) {
                continue;
            }
            let now = self.now();
            let incoming = self.cache.apply_backplane(message);
            self.emit_all(incoming.events);
            let key = incoming.key;
            let held = self.memory.get(&key).cloned();
            let mut brought = None;
            if incoming.change == LocalChange::Refresh && held.is_some() {
                let options = self.cache.settings.default_options;
                if let Some(read) = self.cache.plan_l2_read(&key, &options, false, now) {
                    let l2 = self.l2.clone().unwrap();
                    let outcome = l2.borrow_mut().get(&read.key, now);
                    let answer = self
                        .cache
                        .finish_l2_read(&key, &options, false, outcome, now, now);
                    self.emit_all(answer.events);
                    let found = answer.result.ok().flatten();
                    brought = self.cache.refreshed(found, now);
                }
            }
            let effects = incoming.change.effects(held.as_ref(), brought);
            self.perform(&key, effects);
        }
    }

    /// Goes through the recovery queue once.
    fn recover(&mut self) {
        let now = self.now();
        let keys = self.cache.recovery.as_ref().unwrap().pass_keys();
        for key in keys {
            let recovery = self.cache.recovery.as_mut().unwrap();
            let Some(item) = recovery.next_replay(&key, now) else {
                continue;
            };
            let held = self.memory.get(&key).cloned();
            let steps = self.cache.replay_steps(&item, held.as_ref());
            let mut ok = true;
            if let Some((l2_key, ttl)) = steps.write {
                let l2 = self.l2.clone().unwrap();
                ok &= l2
                    .borrow_mut()
                    .set(&l2_key, &held.unwrap(), ttl, now)
                    .is_ok();
            }
            if let (true, Some(l2_key)) = (ok, steps.remove) {
                let l2 = self.l2.clone().unwrap();
                l2.borrow_mut().store.remove(&l2_key);
            }
            if let (true, Some(message)) = (ok, steps.announce) {
                ok &= !self.backplane_down;
                if ok {
                    self.outbox.push(message);
                }
            }
            let recovery = self.cache.recovery.as_mut().unwrap();
            recovery.record_replay(&key, ok);
        }
    }
}

fn value<V>(v: V) -> impl FnMut(FactoryContext<V>) -> Run<V>
where
    V: Clone,
{
    move |ctx| Run::Prompt(Ok(ctx.value(v.clone())))
}

fn boom<V>(ctx: FactoryContext<V>) -> Run<V> {
    Run::Prompt(Err(ctx.fail("boom".to_owned())))
}

fn secs(n: u64) -> Duration {
    Duration::from_secs(n)
}

fn fail_safe_opts() -> EntryOptions {
    EntryOptions::new(secs(10)).with_fail_safe(true, Some(secs(100)), Some(secs(30)))
}

fn plain<V: Clone>() -> (Node<V>, Time) {
    let clock = time();
    (Node::new(CacheBuilder::new(), &clock), clock)
}

#[test]
fn a_value_of_the_earliest_instant_is_served() {
    let earliest = Timestamp::from_ticks(i64::MIN);
    let clock = Rc::new(RefCell::new(ManualClock::new(earliest)));
    let mut cache = Node::new(CacheBuilder::new(), &clock);
    cache.set("k", 1);
    assert_eq!(cache.try_get("k", None).value(), Some(&1));
    assert_eq!(
        cache.get_or_set("k", EntryOptions::new(secs(10)), value(2)),
        Ok(1)
    );
}

// ---- fail-safe ----

#[test]
fn fail_safe_serves_stale_on_factory_error() {
    let (mut cache, clock) = plain::<String>();
    let opts = fail_safe_opts();
    let primed = cache
        .get_or_set("k", opts, value("fresh".to_owned()))
        .unwrap();
    assert_eq!(primed, "fresh");
    advance(&clock, 20); // logically stale, physically alive
    let served = cache.get_or_set("k", opts, boom).unwrap();
    assert_eq!(served, "fresh", "stale value reused as fail-safe fallback");
    assert!(cache.events.contains(&CacheEvent::FactoryError {
        key: "k".to_owned(),
        message: "boom".to_owned()
    }));
    assert!(cache.events.contains(&CacheEvent::FailSafeActivate {
        key: "k".to_owned()
    }));
    // The fallback is fresh for the throttle window: the factory is left alone.
    advance(&clock, 29);
    assert_eq!(
        cache.get_or_set("k", opts, value("new".to_owned())).unwrap(),
        "fresh"
    );
    advance(&clock, 1);
    assert_eq!(
        cache.get_or_set("k", opts, value("new".to_owned())).unwrap(),
        "new"
    );
}

#[test]
fn a_dead_entry_is_no_fallback() {
    let (mut cache, clock) = plain::<i32>();
    let opts = fail_safe_opts();
    cache.get_or_set("k", opts, value(1)).unwrap();
    advance(&clock, 100);
    assert_eq!(
        cache.get_or_set("k", opts, boom),
        Err(Error::Factory {
            message: "boom".to_owned()
        })
    );
}

#[test]
fn fail_safe_default_used_when_no_stale() {
    let (mut cache, _clock) = plain::<String>();
    let opts = EntryOptions::new(secs(10)).with_fail_safe(true, None, None);
    let served = cache
        .get_or_set_full(
            "k",
            opts,
            Vec::new(),
            MaybeValue::from_value("default".to_owned()),
            boom,
        )
        .unwrap();
    assert_eq!(served, "default");
}

#[test]
fn factory_error_propagates_without_fail_safe() {
    let (mut cache, _clock) = plain::<String>();
    let result = cache.get_or_set("k", EntryOptions::default(), boom);
    assert!(matches!(result, Err(Error::Factory { .. })));
}

// ---- timeouts ----

#[test]
fn soft_timeout_returns_stale_then_completes_in_background() {
    let (mut cache, clock) = plain::<String>();
    let opts = EntryOptions::new(secs(10))
        .with_fail_safe(true, Some(secs(100)), Some(secs(1)))
        .with_factory_timeouts(
            Timeout::After(Duration::from_millis(50)),
            Timeout::Infinite,
            true,
        );
    cache.get_or_set("k", opts, value("v1".to_owned())).unwrap();
    advance(&clock, 20); // stale
    let served = cache
        .get_or_set("k", opts, |ctx| Run::Slow(Ok(ctx.value("v2".to_owned()))))
        .unwrap();
    assert_eq!(served, "v1", "soft timeout returns stale immediately");
    // Background factory completes and replaces the value.
    let after = cache.try_get("k", None);
    assert_eq!(
        after.value(),
        Some(&"v2".to_owned()),
        "background completion updates cache"
    );
    assert!(cache.events.contains(&CacheEvent::BackgroundFactorySuccess {
        key: "k".to_owned()
    }));
}

#[test]
fn a_background_failure_leaves_the_fallback_standing() {
    let (mut cache, clock) = plain::<i32>();
    let opts = fail_safe_opts().with_factory_timeouts(
        Timeout::After(Duration::from_millis(50)),
        Timeout::Infinite,
        true,
    );
    cache.get_or_set("k", opts, value(1)).unwrap();
    advance(&clock, 20);
    let served = cache.get_or_set("k", opts, |ctx| Run::Slow(Err(ctx.fail("late".to_owned()))));
    assert_eq!(served, Ok(1));
    assert_eq!(cache.try_get("k", None).value(), Some(&1));
    assert_eq!(
        cache
            .events
            .iter()
            .filter(|e| matches!(e, CacheEvent::FailSafeActivate { .. }))
            .count(),
        1
    );
    assert!(cache.events.iter().any(
        |e| matches!(e, CacheEvent::BackgroundFactoryError { message, .. } if message == "late")
    ));
}

#[test]
fn hard_timeout_without_fallback_errors() {
    let (mut cache, _clock) = plain::<String>();
    let opts = EntryOptions::new(secs(10)).with_factory_timeouts(
        Timeout::Infinite,
        Timeout::After(Duration::from_millis(50)),
        false,
    );
    let result = cache.get_or_set("k", opts, |ctx| Run::Slow(Ok(ctx.value("v".to_owned()))));
    assert_eq!(
        result,
        Err(Error::FactoryTimeout {
            elapsed: Duration::from_millis(50)
        })
    );
    // It was not allowed to finish in the background.
    assert!(!cache.try_get("k", None).has_value());
}

// ---- eager refresh, expiry, adaptive and conditional refresh ----

#[test]
fn eager_refresh_triggers_background_update() {
    let (mut cache, clock) = plain::<i32>();
    let opts = EntryOptions::new(secs(10))
        .with_eager_refresh(EagerThreshold::from_bits(0.5f32.to_bits()));
    let calls = Cell::new(0);
    let factory = |v: i32| {
        let calls = &calls;
        move |ctx: FactoryContext<i32>| {
            calls.set(calls.get() + 1);
            Run::Prompt(Ok(ctx.value(v)))
        }
    };
    cache.get_or_set("k", opts, factory(1)).unwrap();
    advance(&clock, 6); // past 50% threshold, still fresh
    let served = cache.get_or_set("k", opts, factory(2)).unwrap();
    assert_eq!(
        served, 1,
        "still returns the fresh value while refreshing in background"
    );
    assert_eq!(calls.get(), 2, "eager refresh ran the factory in background");
    assert_eq!(cache.try_get("k", None).value(), Some(&2));
    assert!(cache.events.contains(&CacheEvent::EagerRefresh {
        key: "k".to_owned()
    }));
    // Only the call that waited for its factory reports the factory's success.
    let success = CacheEvent::FactorySuccess {
        key: "k".to_owned(),
    };
    assert_eq!(cache.events.iter().filter(|e| **e == success).count(), 1);
    assert!(cache
        .events
        .contains(&CacheEvent::BackgroundFactorySuccess {
            key: "k".to_owned()
        }));
}

#[test]
fn a_refresh_begins_only_under_the_lock() {
    let opts = EntryOptions::new(secs(10));
    let entry = Entry::fresh(
        7,
        &opts,
        Timestamp::from_ticks(0),
        vec![Tag::new("a").unwrap()],
        None,
        None,
        Duration::zero(),
    );
    let key = "k".to_owned();
    assert!(refresh_begun(&key, &opts, &entry, false).is_none());
    let (event, ctx) = refresh_begun(&key, &opts, &entry, true).unwrap();
    assert_eq!(event, CacheEvent::EagerRefresh { key: key.clone() });
    assert_eq!(ctx.key(), "k");
    assert_eq!(ctx.stale_value(), Some(&7));
    assert_eq!(ctx.value(8).tags, vec![Tag::new("a").unwrap()]);
}

#[test]
fn an_eager_refresh_gives_way_to_a_lock_holder() {
    let (mut cache, clock) = plain::<i32>();
    let opts = EntryOptions::new(secs(10))
        .with_eager_refresh(EagerThreshold::from_bits(0.5f32.to_bits()));
    cache.get_or_set("k", opts, value(1)).unwrap();
    advance(&clock, 6);
    cache.lock_is_busy = true;
    assert_eq!(cache.get_or_set("k", opts, value(2)), Ok(1));
    assert_eq!(cache.try_get("k", None).value(), Some(&1));
    assert!(!cache.events.contains(&CacheEvent::EagerRefresh {
        key: "k".to_owned()
    }));
}

#[test]
fn expired_entry_without_fail_safe_reruns_factory() {
    let (mut cache, clock) = plain::<i32>();
    let opts = EntryOptions::new(secs(10)); // no fail-safe
    let calls = Cell::new(0);
    let factory = |v: i32| {
        let calls = &calls;
        move |ctx: FactoryContext<i32>| {
            calls.set(calls.get() + 1);
            Run::Prompt(Ok(ctx.value(v)))
        }
    };
    cache.get_or_set("k", opts, factory(1)).unwrap();
    advance(&clock, 11); // logically expired
    assert_eq!(cache.get_or_set("k", opts, factory(2)), Ok(2));
    assert_eq!(calls.get(), 2);
}

#[test]
fn adaptive_caching_overrides_duration() {
    let (mut cache, clock) = plain::<i32>();
    let long = EntryOptions::new(secs(100));
    // The factory adapts the produced entry's duration down to 2s.
    cache
        .get_or_set("k", long, |mut ctx| {
            ctx.adapt(|o| o.with_duration(secs(2)));
            Run::Prompt(Ok(ctx.value(42)))
        })
        .unwrap();
    advance(&clock, 1); // within adapted 2s: cached
    let cached = cache.get_or_set("k", long, value(999)).unwrap();
    assert_eq!(cached, 42, "adapted duration still fresh");
    advance(&clock, 2); // now past adapted 2s: re-run
    let refreshed = cache.get_or_set("k", long, value(7)).unwrap();
    assert_eq!(
        refreshed, 7,
        "adapted duration governs expiration, not the 100s call duration"
    );
}

#[test]
fn conditional_refresh_not_modified_reuses_stale_and_bumps_expiration() {
    let (mut cache, clock) = plain::<String>();
    let opts = fail_safe_opts();
    cache
        .get_or_set("k", opts, |ctx| {
            Run::Prompt(Ok(ctx
                .modified("data-v1".to_owned())
                .etag("abc".to_owned())
                .done()))
        })
        .unwrap();
    advance(&clock, 20); // stale
    let calls = Cell::new(0);
    let served = cache
        .get_or_set("k", opts, |ctx| {
            calls.set(calls.get() + 1);
            assert_eq!(
                ctx.stale_etag(),
                Some("abc"),
                "stale ETag is exposed to factory"
            );
            Run::Prompt(ctx.not_modified())
        })
        .unwrap();
    assert_eq!(served, "data-v1", "NotModified reuses the stale value");
    assert_eq!(calls.get(), 1);
    // Expiration was bumped: now fresh again at the current clock.
    assert_eq!(
        cache.try_get("k", None).value(),
        Some(&"data-v1".to_owned())
    );
    // A reused value is no factory success.
    let successes = cache
        .events
        .iter()
        .filter(|e| matches!(e, CacheEvent::FactorySuccess { .. }))
        .count();
    assert_eq!(successes, 1);
}

#[test]
fn conditional_refresh_modified_replaces_value() {
    let (mut cache, clock) = plain::<String>();
    let opts = fail_safe_opts();
    let modified = |v: &'static str, etag: &'static str| {
        move |ctx: FactoryContext<String>| {
            Run::Prompt(Ok(ctx.modified(v.to_owned()).etag(etag.to_owned()).done()))
        }
    };
    cache
        .get_or_set("k", opts, modified("data-v1", "abc"))
        .unwrap();
    advance(&clock, 20);
    let served = cache
        .get_or_set("k", opts, modified("data-v2", "def"))
        .unwrap();
    assert_eq!(served, "data-v2");
}

// ---- tags, clear, lookups, events ----

#[test]
fn remove_by_tag_invalidates_matching_entries() {
    let (mut cache, clock) = plain::<i32>();
    let long = EntryOptions::new(secs(100));
    let tagged = || vec![Tag::new("group").unwrap()];
    let calls = Cell::new(0);
    let factory = |v: i32| {
        let calls = &calls;
        move |ctx: FactoryContext<i32>| {
            calls.set(calls.get() + 1);
            Run::Prompt(Ok(ctx.value(v)))
        }
    };
    cache
        .get_or_set_full("k", long, tagged(), MaybeValue::none(), factory(1))
        .unwrap();
    advance(&clock, 1);
    cache.remove_by_tag("group");
    advance(&clock, 1); // so the new entry is created after the marker
    let v = cache
        .get_or_set_full("k", long, tagged(), MaybeValue::none(), factory(2))
        .unwrap();
    assert_eq!(v, 2, "tagged entry was invalidated and the factory re-ran");
    assert_eq!(calls.get(), 2);
    // A blank tag does nothing.
    cache.remove_by_tag("  ");
    assert_eq!(
        cache
            .events
            .iter()
            .filter(|e| matches!(e, CacheEvent::RemoveByTag { .. }))
            .count(),
        1
    );
}

#[test]
fn removing_by_tag_can_be_final() {
    let clock = time();
    let builder = CacheBuilder::new().remove_by_tag_behavior(RemoveByTagBehavior::Remove);
    let mut cache: Node<i32> = Node::new(builder, &clock);
    let opts = fail_safe_opts();
    let tags = vec![Tag::new("group").unwrap()];
    cache
        .get_or_set_full("k", opts, tags, MaybeValue::none(), value(1))
        .unwrap();
    cache.remove_by_tag("group");
    // Not even fail-safe brings it back.
    assert!(cache.get_or_set("k", opts, boom).is_err());
    assert!(cache.memory.is_empty());
}

#[test]
fn clear_removes_everything() {
    let (mut cache, _clock) = plain::<i32>();
    cache.set("a", 1);
    cache.set("b", 2);
    assert_eq!(cache.try_get("a", None).value(), Some(&1));
    cache.clear(false); // hard remove
    assert!(!cache.try_get("a", None).has_value());
    assert!(!cache.try_get("b", None).has_value());
}

#[test]
fn a_clear_that_allows_fail_safe_keeps_fallbacks() {
    let (mut cache, _clock) = plain::<i32>();
    let opts = fail_safe_opts();
    cache.get_or_set("k", opts, value(1)).unwrap();
    cache.clear(true);
    assert!(!cache.try_get("k", None).has_value());
    assert_eq!(cache.get_or_set("k", opts, boom), Ok(1));
}

#[test]
fn try_get_and_get_or_default() {
    let (mut cache, _clock) = plain::<i32>();
    assert!(!cache.try_get("k", None).has_value());
    assert_eq!(cache.try_get("k", None).value_or(-1), -1);
    cache.set("k", 5);
    assert_eq!(cache.try_get("k", None).value(), Some(&5));
    assert_eq!(cache.try_get("k", None).value_or(-1), 5);
    let skipping = EntryOptions::default().with_skip_memory(true, false);
    assert!(!cache.try_get("k", Some(skipping)).has_value());
}

#[test]
fn allow_stale_on_read_only_serves_stale() {
    let (mut cache, clock) = plain::<i32>();
    cache.get_or_set("k", fail_safe_opts(), value(9)).unwrap();
    advance(&clock, 20); // stale
    // Default read-only: stale hidden.
    assert!(!cache.try_get("k", None).has_value());
    // With allow_stale_on_read_only: stale visible.
    let stale_opts = EntryOptions::new(secs(10)).with_allow_stale_on_read_only(true);
    assert_eq!(cache.try_get("k", Some(stale_opts)).value(), Some(&9));
}

#[test]
fn events_are_emitted() {
    let (mut cache, _clock) = plain::<i32>();
    cache.set("k", 1);
    cache
        .get_or_set("k", EntryOptions::default(), value(1))
        .unwrap();
    assert_eq!(
        cache.events,
        vec![
            CacheEvent::Put {
                key: "k".to_owned()
            },
            CacheEvent::Hit {
                key: "k".to_owned(),
                stale: false
            }
        ]
    );
}

#[test]
fn get_or_set_value_sets_then_returns_existing() {
    let (mut cache, _clock) = plain::<i32>();
    let opts = EntryOptions::default();
    // Absent: stores and returns the constant.
    assert_eq!(cache.get_or_set("k", opts, value(7)).unwrap(), 7);
    // Present: returns the existing value, ignoring the new constant.
    assert_eq!(cache.get_or_set("k", opts, value(999)).unwrap(), 7);
}

#[test]
fn keys_carry_the_prefix() {
    let clock = time();
    let mut cache: Node<i32> = Node::new(
        CacheBuilder::new()
            .name("users".to_owned())
            .key_prefix("u:".to_owned()),
        &clock,
    );
    assert_eq!(cache.cache.settings.name, "users");
    cache.set("k", 1);
    assert!(cache.memory.contains_key("u:k"));
    cache.expire("k");
    assert!(!cache.try_get("k", None).has_value());
    assert_eq!(
        cache.events.last(),
        Some(&CacheEvent::Miss {
            key: "u:k".to_owned()
        })
    );
    cache.remove("k");
    assert!(cache.memory.is_empty());
}

// ---- locks ----

#[test]
fn a_busy_lock_is_not_waited_for_with_a_fallback() {
    let (mut cache, clock) = plain::<i32>();
    let opts = fail_safe_opts()
        .with_lock_timeout(Timeout::Infinite)
        .with_memory_lock_timeout(Timeout::After(Duration::from_millis(5)));
    cache.get_or_set("k", opts, value(1)).unwrap();
    advance(&clock, 20);
    cache.lock_is_busy = true;
    assert_eq!(cache.get_or_set("k", opts, value(2)), Ok(1));
    assert!(!cache.waited_for_lock);
    assert_eq!(
        cache.events.last(),
        Some(&CacheEvent::Hit {
            key: "k".to_owned(),
            stale: true
        })
    );
}

#[test]
fn a_busy_lock_without_a_fallback_is_a_lock_timeout() {
    let (mut cache, _clock) = plain::<i32>();
    let wait = Duration::from_millis(5);
    let opts = fail_safe_opts().with_lock_timeout(Timeout::After(wait));
    cache.lock_is_busy = true;
    assert_eq!(
        cache.get_or_set("k", opts, value(2)),
        Err(Error::LockTimeout { elapsed: wait })
    );
    assert!(!cache.waited_for_lock);
    assert!(cache.memory.is_empty());
}

#[test]
fn a_stale_entry_is_no_fallback_of_a_busy_lock_without_fail_safe() {
    let (mut cache, clock) = plain::<i32>();
    let wait = Duration::from_millis(5);
    let opts = EntryOptions::new(secs(10)).with_lock_timeout(Timeout::After(wait));
    cache.get_or_set("k", fail_safe_opts(), value(1)).unwrap();
    advance(&clock, 20);
    cache.lock_is_busy = true;
    assert_eq!(
        cache.get_or_set_full("k", opts, Vec::new(), MaybeValue::from_value(9), value(2)),
        Err(Error::LockTimeout { elapsed: wait })
    );
}

#[test]
fn a_busy_lock_is_waited_for_with_only_a_value_of_last_resort() {
    let (mut cache, _clock) = plain::<i32>();
    let opts = fail_safe_opts().with_lock_timeout(Timeout::After(Duration::from_millis(5)));
    cache.lock_is_busy = true;
    assert_eq!(
        cache.get_or_set_full("k", opts, Vec::new(), MaybeValue::from_value(9), value(2)),
        Ok(2)
    );
    assert!(cache.waited_for_lock);
}

#[test]
fn the_value_of_last_resort_is_served_if_the_factory_fails_after_the_wait() {
    let (mut cache, _clock) = plain::<i32>();
    let opts = fail_safe_opts().with_lock_timeout(Timeout::After(Duration::from_millis(5)));
    cache.lock_is_busy = true;
    assert_eq!(
        cache.get_or_set_full("k", opts, Vec::new(), MaybeValue::from_value(9), |ctx| {
            Run::Prompt(Err(ctx.fail("down".to_owned())))
        }),
        Ok(9)
    );
    assert!(cache.waited_for_lock);
}

#[test]
fn what_another_flight_stored_is_found_under_the_lock() {
    let (node, clock) = plain::<i32>();
    let now = clock.borrow().now();
    let mut cache = node.cache;
    let opts = EntryOptions::default();
    let begun = GetOrSet::begin("k".to_owned(), opts, Vec::new(), MaybeValue::none());
    let Step::Ask(flow, Request::ReadMemory) = begun.step else {
        panic!("memory comes first");
    };
    let Step::Ask(flow, Request::Lock(Timeout::Infinite)) =
        flow.memory_read(&mut cache, None, now, now).step
    else {
        panic!("then the lock");
    };
    let Step::Ask(flow, Request::ReadMemory) = flow.locked(&mut cache, now).step else {
        panic!("then memory again");
    };
    let other = Entry::fresh(8, &opts, now, Vec::new(), None, None, Duration::zero());
    let last = flow.memory_read(&mut cache, Some(other), now, now);
    assert!(matches!(last.step, Step::Finish(Outcome::Serve(entry)) if *entry.value() == 8));
}

#[test]
fn the_cross_node_lock_is_asked_for_by_name() {
    let clock = time();
    let mut cache: Node<i32> = Node::new(CacheBuilder::new().distributed_locker(true), &clock);
    let locker = Rc::new(RefCell::new(InMemoryDistributedLocker::new()));
    cache.locker = Some(locker.clone());
    let opts = fail_safe_opts()
        .with_lock_timeout(Timeout::After(secs(1)))
        .with_distributed_lock_timeout(Timeout::After(secs(2)));
    let request = cache.cache.lock_request("k", &opts).unwrap();
    assert_eq!(request.key, "amalgam:lock:k");
    assert_eq!(request.ttl, secs(100));
    assert_eq!(request.timeout, Timeout::After(secs(2)));
    assert!(cache
        .cache
        .lock_request("k", &opts.with_skip_distributed_locker(true))
        .is_none());
    assert_eq!(cache.get_or_set("k", opts, value(3)), Ok(3));
    // The lock was let go, and a held one does not keep the call from going on.
    let now = clock.borrow().now();
    assert!(locker.borrow().is_free("amalgam:lock:k", now));
    locker.borrow_mut().try_once("amalgam:lock:j", secs(9), now);
    assert_eq!(cache.get_or_set("j", opts, value(4)), Ok(4));
}

// ---- several nodes ----

fn cluster(l2: &Rc<RefCell<SharedL2<String>>>, clock: &Time) -> (Node<String>, Node<String>) {
    let build = |id: &str| {
        let builder = CacheBuilder::new()
            .backplane(true)
            .instance_id(id.to_owned())
            .default_options(EntryOptions::new(secs(60)));
        Node::with_l2(builder, clock, l2)
    };
    (build("node-1"), build("node-2"))
}

#[test]
fn l2_read_through_across_instances() {
    let clock = time();
    let l2 = SharedL2::new();
    let (mut cache1, mut cache2) = cluster(&l2, &clock);
    let opts = EntryOptions::new(secs(60));
    cache1
        .get_or_set("k", opts, value("from-factory".to_owned()))
        .unwrap();
    // A second instance with an empty L1 but the same L2.
    let served = cache2
        .get_or_set("k", opts, |_| panic!("factory did not run on the second instance"))
        .unwrap();
    assert_eq!(served, "from-factory", "value came from L2");
    assert!(cache2.memory.contains_key("k"));
}

#[test]
fn backplane_remove_invalidates_peer() {
    let clock = time();
    let l2 = SharedL2::new();
    let (mut cache1, mut cache2) = cluster(&l2, &clock);
    cache1.set("k", "v1".to_owned());
    cache2.listen_to(&mut cache1);
    let opts = EntryOptions::new(secs(60));
    let served = cache2.get_or_set("k", opts, value("x".to_owned())).unwrap();
    assert_eq!(served, "v1", "peer pulled the value from shared L2");
    cache1.remove("k");
    cache2.listen_to(&mut cache1);
    assert!(
        !cache2.try_get("k", None).has_value(),
        "peer L1 was evicted by the backplane Remove"
    );
    assert_eq!(
        cache2.get_or_set("k", opts, value("x".to_owned())),
        Ok("x".to_owned()),
        "nothing was left in L2 either"
    );
}

#[test]
fn backplane_set_makes_peer_repull_new_value() {
    let clock = time();
    let l2 = SharedL2::new();
    let (mut cache1, mut cache2) = cluster(&l2, &clock);
    let opts = EntryOptions::new(secs(60));
    cache1.set("k", "v1".to_owned());
    cache2.listen_to(&mut cache1);
    assert_eq!(
        cache2.get_or_set("k", opts, |_| panic!("no factory")).unwrap(),
        "v1"
    );
    cache1.set("k", "v2".to_owned());
    cache2.listen_to(&mut cache1);
    let v = cache2
        .get_or_set("k", opts, |_| panic!("no factory ran on the peer"))
        .unwrap();
    assert_eq!(v, "v2", "peer re-pulled the updated value from L2");
}

#[test]
fn backplane_set_eagerly_refreshes_present_l1() {
    let clock = time();
    let l2 = SharedL2::new();
    let (mut cache1, mut cache2) = cluster(&l2, &clock);
    let opts = EntryOptions::new(secs(60));
    cache1.set("k", "v1".to_owned());
    cache2.listen_to(&mut cache1);
    assert!(!cache2.try_get("k", None).has_value(), "absent keys stay absent");
    let v = cache2.get_or_set("k", opts, value("x".to_owned())).unwrap();
    assert_eq!(v, "v1");
    cache1.set("k", "v2".to_owned());
    cache2.listen_to(&mut cache1);
    // try_get reads L1 ONLY (no factory, no L2 read): the fresh value is already
    // present because it was refreshed eagerly. An evict-only peer would miss here.
    let got = cache2.try_get("k", None);
    assert!(
        got.has_value(),
        "peer L1 was eagerly refreshed from L2, not just evicted"
    );
    assert_eq!(got.value().map(String::as_str), Some("v2"));
}

#[test]
fn a_peer_that_cannot_refresh_drops_its_copy() {
    let clock = time();
    let l2 = SharedL2::new();
    let (mut cache1, mut cache2) = cluster(&l2, &clock);
    cache1.set("k", "v1".to_owned());
    cache2.set("k", "mine".to_owned());
    l2.borrow_mut().down = true;
    cache2.listen_to(&mut cache1);
    assert!(!cache2.try_get("k", None).has_value());
}

#[test]
fn backplane_expire_marks_peer_stale_keeping_physical() {
    let clock = time();
    let l2 = SharedL2::new();
    let (mut cache1, mut cache2) = cluster(&l2, &clock);
    cache1.set("k", "v1".to_owned());
    cache2.listen_to(&mut cache1);
    // cache2 holds it fresh in L1.
    cache2
        .get_or_set("k", EntryOptions::new(secs(60)), value("x".to_owned()))
        .unwrap();
    cache1.expire("k"); // logical expire, announced
    cache2.listen_to(&mut cache1);
    advance(&clock, 1); // move past the logical-expire instant
    // A plain read hides the now-stale entry...
    assert!(
        !cache2.try_get("k", None).has_value(),
        "Expire hides the entry from a plain read on the peer"
    );
    // ...but it is still physically present (Expire, not Remove): a stale-allowed
    // read serves it, proving the peer kept it for fail-safe.
    let stale_opts = EntryOptions::new(secs(60)).with_allow_stale_on_read_only(true);
    let stale = cache2.try_get("k", Some(stale_opts));
    assert_eq!(
        stale.value().map(String::as_str),
        Some("v1"),
        "Expire kept the entry physically; only the logical window elapsed"
    );
}

#[test]
fn backplane_clear_remove_propagates_to_peer() {
    let clock = time();
    let l2 = SharedL2::new();
    let (mut cache1, mut cache2) = cluster(&l2, &clock);
    cache1.set("k", "v1".to_owned());
    cache2.listen_to(&mut cache1);
    cache2
        .get_or_set("k", EntryOptions::new(secs(60)), value("x".to_owned()))
        .unwrap();
    assert!(
        cache2.try_get("k", None).has_value(),
        "peer holds the value before the clear"
    );
    cache1.clear(false); // remove-all marker over the backplane
    cache2.listen_to(&mut cache1);
    assert!(
        !cache2.try_get("k", None).has_value(),
        "cross-node clear(remove-all) evicted the peer's L1 entry"
    );
    // What was written before the clear is not read back from the distributed cache.
    assert_eq!(
        cache2.get_or_set("k", EntryOptions::new(secs(60)), value("x".to_owned())),
        Ok("x".to_owned())
    );
}

#[test]
fn remove_by_tag_propagates_across_nodes() {
    let clock = time();
    let long = EntryOptions::new(secs(100));
    let tagged = || vec![Tag::new("group").unwrap()];
    let build = |id: &str| {
        let builder = CacheBuilder::new()
            .backplane(true)
            .instance_id(id.to_owned());
        Node::<String>::new(builder, &clock)
    };
    let mut node_a = build("node-a");
    let mut node_b = build("node-b");
    node_a
        .get_or_set_full("k", long, tagged(), MaybeValue::none(), value("v1".to_owned()))
        .unwrap();
    advance(&clock, 1);
    node_b.remove_by_tag("group");
    node_a.listen_to(&mut node_b);
    advance(&clock, 1);
    let v = node_a
        .get_or_set_full("k", long, tagged(), MaybeValue::none(), value("v2".to_owned()))
        .unwrap();
    assert_eq!(
        v, "v2",
        "the propagated tag marker invalidated node A's entry"
    );
}

#[test]
fn a_node_ignores_its_own_messages_and_may_ignore_all() {
    let clock = time();
    let l2 = SharedL2::new();
    let (mut cache1, _) = cluster(&l2, &clock);
    cache1.set("k", "v1".to_owned());
    let echo = cache1.outbox.pop().unwrap();
    assert!(cache1.cache.is_own_message(&echo));
    let mut deaf: Node<String> = Node::new(
        CacheBuilder::new()
            .backplane(true)
            .ignore_incoming_backplane(true),
        &clock,
    );
    deaf.set("k", "mine".to_owned());
    let mut talker: Node<String> = Node::new(CacheBuilder::new().backplane(true), &clock);
    talker.remove("k");
    deaf.events.clear();
    deaf.listen_to(&mut talker);
    assert!(deaf.events.is_empty());
    assert!(deaf.try_get("k", None).has_value());
}

// ---- the distributed cache failing ----

#[test]
fn circuit_breaker_opens_then_auto_recovery_replays_write() {
    let clock = time();
    let l2 = SharedL2::new();
    l2.borrow_mut().down = true; // start with L2 unavailable
    let builder = CacheBuilder::new()
        .distributed_circuit_breaker(secs(30))
        .auto_recovery(RecoveryConfig {
            enabled: true,
            delay: Duration::from_millis(100),
            max_items: None,
            max_retries: None,
        });
    let mut cache = Node::with_l2(builder, &clock, &l2);
    // (a) With L2 down, a write fails: the L2 entry is never stored, the breaker
    // trips open (firing exactly one CircuitBreakerChange{closed:false}), and the
    // operation is queued for auto-recovery.
    cache.set("k", "v1".to_owned());
    let now = clock.borrow().now();
    assert!(l2.borrow_mut().store.get("v1:k", now).is_none());
    let opened = CacheEvent::CircuitBreakerChange {
        component: CircuitComponent::Distributed,
        closed: false,
    };
    assert_eq!(cache.events.iter().filter(|e| **e == opened).count(), 1);
    assert_eq!(cache.cache.recovery.as_ref().unwrap().len(), 1);
    // While the breaker is open nothing is attempted, but queued.
    cache.set("j", "v1".to_owned());
    assert_eq!(cache.cache.recovery.as_ref().unwrap().len(), 2);
    let reads = l2.borrow().reads;
    let opts = EntryOptions::default();
    assert_eq!(
        cache.get_or_set("other", opts, value("x".to_owned())),
        Ok("x".to_owned())
    );
    assert_eq!(l2.borrow().reads, reads);
    // (b) Recover the dependency: the queued writes reach L2, past the open breaker.
    l2.borrow_mut().down = false;
    cache.recover();
    assert!(l2.borrow_mut().store.get("v1:k", now).is_some());
    assert!(l2.borrow_mut().store.get("v1:j", now).is_some());
    assert!(cache.cache.recovery.as_ref().unwrap().is_empty());
}

#[test]
fn a_success_closes_the_breaker_again() {
    let clock = time();
    let l2 = SharedL2::new();
    let builder = CacheBuilder::new().distributed_circuit_breaker(secs(30));
    let mut cache = Node::with_l2(builder, &clock, &l2);
    l2.borrow_mut().down = true;
    cache.set("k", 1);
    l2.borrow_mut().down = false;
    advance(&clock, 30); // the window is over
    cache.set("k", 2);
    let now = clock.borrow().now();
    assert!(l2.borrow_mut().store.get("v1:k", now).is_some());
    // The consultation had closed it already: nothing is reported twice.
    let closed = CacheEvent::CircuitBreakerChange {
        component: CircuitComponent::Distributed,
        closed: true,
    };
    assert!(!cache.events.contains(&closed));
}

#[test]
fn a_failing_backplane_is_made_up_for() {
    let clock = time();
    let builder = CacheBuilder::new()
        .backplane(true)
        .backplane_circuit_breaker(secs(30));
    let mut cache: Node<i32> = Node::new(builder, &clock);
    cache.backplane_down = true;
    let sent_at = clock.borrow().now();
    cache.remove("k");
    assert!(cache.outbox.is_empty());
    assert!(cache.events.contains(&CacheEvent::CircuitBreakerChange {
        component: CircuitComponent::Backplane,
        closed: false
    }));
    cache.backplane_down = false;
    advance(&clock, 5);
    cache.expire("j"); // still open: queued, not sent
    assert!(cache.outbox.is_empty());
    cache.recover();
    assert_eq!(cache.outbox.len(), 2);
    let removed = cache.outbox.iter().find(|m| m.key == "k").unwrap();
    assert_eq!(removed.action, BackplaneAction::Remove);
    assert_eq!(removed.timestamp, sent_at);
    let expired = cache.outbox.iter().find(|m| m.key == "j").unwrap();
    assert_eq!(expired.action, BackplaneAction::Expire);
    // A message from another node shows that the backplane works.
    let mut peer: Node<i32> = Node::new(CacheBuilder::new().backplane(true), &clock);
    peer.set("x", 1);
    cache.listen_to(&mut peer);
    assert!(cache.events.contains(&CacheEvent::CircuitBreakerChange {
        component: CircuitComponent::Backplane,
        closed: true
    }));
}

#[test]
fn read_errors_reach_the_caller_only_where_asked() {
    let clock = time();
    let l2 = SharedL2::new();
    let mut cache = Node::with_l2(CacheBuilder::new(), &clock, &l2);
    let opts = EntryOptions::default();
    l2.borrow_mut().down = true;
    assert_eq!(cache.get_or_set("a", opts, value(1)), Ok(1));
    let strict = EntryOptions {
        rethrow_distributed_exceptions: true,
        ..opts
    };
    assert_eq!(
        cache.get_or_set("b", strict, value(1)),
        Err(Error::Distributed("down".to_owned()))
    );
    l2.borrow_mut().down = false;
    l2.borrow_mut().garbled = true;
    assert_eq!(
        cache.get_or_set("c", opts, value(1)),
        Err(Error::Deserialization("garbled".to_owned()))
    );
    assert!(cache.events.contains(&CacheEvent::DeserializationError {
        key: "c".to_owned(),
        message: "garbled".to_owned()
    }));
    let lenient = EntryOptions {
        rethrow_serialization_exceptions: false,
        ..opts
    };
    assert_eq!(cache.get_or_set("d", lenient, value(1)), Ok(1));
    l2.borrow_mut().garbled = false;
    l2.borrow_mut().hangs = true;
    assert_eq!(
        cache.get_or_set("e", strict, value(1)),
        Err(Error::Distributed("l2 read timed out".to_owned()))
    );
}

#[test]
fn failed_writes_and_removals_are_reported_and_queued() {
    let clock = time();
    let now = clock.borrow().now();
    let mut cache = CacheBuilder::new()
        .distributed(true)
        .distributed_circuit_breaker(secs(30))
        .build();
    let key = "k".to_owned();
    let events = cache.finish_l2_write(&key, Err(Error::Serialization("no".to_owned())), now);
    assert_eq!(
        events,
        vec![
            CacheEvent::SerializationError {
                key: key.clone(),
                message: "no".to_owned()
            },
            CacheEvent::CircuitBreakerChange {
                component: CircuitComponent::Distributed,
                closed: false
            }
        ]
    );
    let later = now.saturating_add(secs(1));
    let events = cache.finish_l2_remove(
        &key,
        Err(Error::Distributed("down".to_owned())),
        later,
        later.saturating_add(secs(1)),
    );
    assert!(events.is_empty(), "the breaker is open already");
    let queue = cache.recovery.as_mut().unwrap();
    let item = queue.next_replay("k", later).unwrap();
    assert_eq!(item.action, amalgam::RecoveryAction::Remove);
    assert_eq!(item.timestamp, later, "it counts from when it was planned");
    assert_eq!(item.expires_at, later.saturating_add(secs(600)));
    let steps = cache.replay_steps::<i32>(&item, None);
    assert_eq!(steps.remove.as_deref(), Some("v1:k"));
    assert!(steps.write.is_none() && steps.announce.is_none());
    // A success closes the breaker, and says so once.
    let events = cache.finish_l2_write(&key, Ok(()), later);
    assert_eq!(
        events,
        vec![CacheEvent::CircuitBreakerChange {
            component: CircuitComponent::Distributed,
            closed: true
        }]
    );
    assert!(cache.finish_l2_write(&key, Ok(()), later).is_empty());
}

#[test]
fn a_soft_timeout_leaves_the_breaker_alone() {
    let clock = time();
    let l2 = SharedL2::new();
    let builder = CacheBuilder::new().distributed_circuit_breaker(secs(30));
    let mut cache = Node::with_l2(builder, &clock, &l2);
    let opts = fail_safe_opts().with_distributed_timeouts(
        Timeout::After(Duration::from_millis(5)),
        Timeout::Infinite,
    );
    cache.get_or_set("k", opts, value(1)).unwrap();
    advance(&clock, 20);
    l2.borrow_mut().hangs = true;
    assert_eq!(cache.get_or_set("k", opts, boom), Ok(1));
    assert!(cache.cache.circuit_l2.closes_at.is_none());
    // Without a fallback the wait is a failure.
    assert!(cache.get_or_set("other", opts, boom).is_err());
    assert!(cache.cache.circuit_l2.closes_at.is_some());
}

#[test]
fn a_stale_distributed_entry_serves_as_a_fallback() {
    let clock = time();
    let l2 = SharedL2::new();
    let opts = fail_safe_opts();
    let mut writer = Node::with_l2(CacheBuilder::new(), &clock, &l2);
    writer.get_or_set("k", opts, value(1)).unwrap();
    advance(&clock, 20);
    let mut reader = Node::with_l2(CacheBuilder::new(), &clock, &l2);
    assert_eq!(reader.get_or_set("k", opts, boom), Ok(1));
    // A stale entry in memory can spare the read.
    let reads = l2.borrow().reads;
    advance(&clock, 40);
    let sparing = opts.with_skip_distributed_read_when_stale(true);
    assert_eq!(reader.get_or_set("k", sparing, value(2)), Ok(2));
    assert_eq!(l2.borrow().reads, reads);
}

#[test]
fn stores_can_be_skipped() {
    let clock = time();
    let l2 = SharedL2::new();
    let mut cache = Node::with_l2(CacheBuilder::new().backplane(true), &clock, &l2);
    let opts = EntryOptions::default()
        .with_skip_memory(false, true)
        .with_skip_distributed(false, true)
        .with_skip_backplane_notifications(true);
    assert_eq!(cache.get_or_set("k", opts, value(1)), Ok(1));
    assert!(cache.memory.is_empty());
    assert!(cache.outbox.is_empty());
    let now = clock.borrow().now();
    assert!(l2.borrow_mut().store.get("v1:k", now).is_none());
    let unread = EntryOptions::default()
        .with_skip_memory(true, false)
        .with_skip_distributed(true, false);
    cache.set("k", 1);
    assert_eq!(cache.get_or_set("k", unread, value(2)), Ok(2));
}

#[test]
fn distributed_keys_carry_the_version() {
    let clock = time();
    let l2_key = |builder: CacheBuilder| Node::<i32>::new(builder, &clock).cache.l2_key("k");
    assert_eq!(l2_key(CacheBuilder::new()), "v1:k");
    let v2 = || CacheBuilder::new().distributed_wire_version("v2".to_owned());
    assert_eq!(l2_key(v2()), "v2:k");
    assert_eq!(
        l2_key(v2().distributed_key_modifier_mode(amalgam::KeyModifierMode::Suffix)),
        "k:v2"
    );
    assert_eq!(
        l2_key(v2().distributed_key_modifier_mode(amalgam::KeyModifierMode::Unmodified)),
        "k"
    );
}

// ---- setup ----

#[test]
fn a_default_cache_has_default_settings() {
    let cache = CacheBuilder::default().build();
    assert_eq!(cache.settings.name, "amalgam");
    assert!(cache.settings.instance_id.starts_with("amalgam-"));
    assert_eq!(cache.settings.instance_id.len(), "amalgam-".len() + 16);
    assert_ne!(
        cache.settings.instance_id,
        CacheBuilder::new().build().settings.instance_id
    );
    assert!(cache.recovery.is_none(), "there is nothing to recover");
    assert_eq!(cache.settings.lock_shards, 1024);
    assert_eq!(cache.settings.events_capacity, 256);
    assert_eq!(cache.settings.max_capacity, None);
    let recovering = CacheBuilder::new()
        .backplane(true)
        .max_capacity(5)
        .lock_shards(2)
        .events_capacity(3)
        .build();
    assert!(recovering.recovery.is_some());
    assert_eq!(recovering.settings.max_capacity, Some(5));
    let off = RecoveryConfig {
        enabled: false,
        ..RecoveryConfig::default()
    };
    assert!(CacheBuilder::new()
        .distributed(true)
        .auto_recovery(off)
        .build()
        .recovery
        .is_none());
}

/// A short freshness window for keys starting with `short:`.
struct ShortPrefixProvider;

impl DefaultEntryOptionsProvider for ShortPrefixProvider {
    fn options_for(&self, key: &str) -> Option<EntryOptions> {
        if key.starts_with("short:") {
            Some(EntryOptions::new(secs(2)))
        } else {
            None
        }
    }
}

#[test]
fn default_options_provider_applies_per_key_duration() {
    let clock = time();
    let mut cache: Node<i32> = Node::new(
        CacheBuilder::new().default_options(EntryOptions::new(secs(100))),
        &clock,
    );
    let mut prime = |key: &str, v: i32| {
        let opts = cache
            .cache
            .resolve_options(key, None, Some(&ShortPrefixProvider));
        cache.get_or_set(key, opts, value(v)).unwrap()
    };
    assert_eq!(prime("short:x", 1), 1);
    assert_eq!(prime("normal", 1), 1);
    advance(&clock, 3);
    // "short:x" has expired (provider's 2s window): the factory re-runs.
    assert_eq!(prime("short:x", 2), 2);
    // "normal" is still fresh (100s default): the factory does NOT re-run.
    assert_eq!(prime("normal", 99), 1);
    let own = EntryOptions::new(secs(7));
    let resolved = cache
        .cache
        .resolve_options("short:x", Some(own), Some(&ShortPrefixProvider));
    assert_eq!(resolved.duration(), secs(7));
    let none: Option<&ShortPrefixProvider> = None;
    assert_eq!(
        cache.cache.resolve_options("short:x", None, none).duration(),
        secs(100)
    );
}

#[test]
fn registry_resolves_named_caches_independently() {
    let clock = time();
    let mut registry: CacheRegistry<Rc<RefCell<Node<i32>>>> = CacheRegistry::new();
    let make = || Rc::new(RefCell::new(Node::new(CacheBuilder::new(), &clock)));
    registry.register("alpha".to_owned(), make());
    registry.register("beta".to_owned(), make());
    assert_eq!(registry.len(), 2);
    let alpha = registry.get("alpha").expect("alpha is registered");
    let beta = registry.get("beta").expect("beta is registered");
    assert!(registry.get("missing").is_none());
    // The two named caches are independent stores.
    alpha.borrow_mut().set("k", 1);
    beta.borrow_mut().set("k", 2);
    assert_eq!(alpha.borrow_mut().try_get("k", None).value(), Some(&1));
    assert_eq!(beta.borrow_mut().try_get("k", None).value(), Some(&2));
    // `get_or_create` builds exactly once.
    let builds = Cell::new(0);
    let gamma1 = registry.get_or_create("gamma", || {
        builds.set(builds.get() + 1);
        make()
    });
    gamma1.borrow_mut().set("k", 7);
    let gamma2 = registry.get_or_create("gamma", || {
        builds.set(builds.get() + 1);
        make()
    });
    assert_eq!(builds.get(), 1, "gamma was built only once");
    assert_eq!(
        gamma2.borrow_mut().try_get("k", None).value(),
        Some(&7),
        "the second get_or_create returned the same gamma cache"
    );
}

/// Counts the writes and the fresh hits it is told of.
struct CountingPlugin {
    sets: Arc<AtomicUsize>,
    hits: Arc<AtomicUsize>,
}

impl Plugin for CountingPlugin {
    fn name(&self) -> &str {
        "counting"
    }

    fn on_event(&self, event: &CacheEvent) {
        match event {
            CacheEvent::Put { .. } => {
                self.sets.fetch_add(1, Ordering::SeqCst);
            }
            CacheEvent::Hit { stale: false, .. } => {
                self.hits.fetch_add(1, Ordering::SeqCst);
            }
            _ => {}
        }
    }
}

#[test]
fn plugin_receives_set_and_hit_events() {
    let sets = Arc::new(AtomicUsize::new(0));
    let hits = Arc::new(AtomicUsize::new(0));
    let plugin: Arc<dyn Plugin> = Arc::new(CountingPlugin {
        sets: sets.clone(),
        hits: hits.clone(),
    });
    assert_eq!(plugin.name(), "counting");
    let (mut cache, _clock) = plain::<i32>();
    cache.plugins = PluginHost::new(vec![plugin]);
    cache.set("k", 1);
    let v = cache
        .get_or_set("k", EntryOptions::default(), value(999))
        .unwrap();
    assert_eq!(v, 1, "fresh L1 value short-circuits the factory");
    assert!(
        sets.load(Ordering::SeqCst) >= 1,
        "plugin observed at least one Set event"
    );
    assert!(
        hits.load(Ordering::SeqCst) >= 1,
        "plugin observed at least one fresh Hit event"
    );
}

#[test]
fn metrics_count_a_write_and_a_hit() {
    let (mut cache, _clock) = plain::<i32>();
    cache.set("k", 1);
    cache
        .get_or_set("k", EntryOptions::default(), value(999))
        .unwrap();
    let metrics = MetricsPlugin::new();
    assert_eq!(metrics.name(), "amalgam-metrics");
    let counted: Vec<_> = cache
        .events
        .iter()
        .filter_map(|event| metrics.on_event(event))
        .collect();
    assert_eq!(counted, vec!["amalgam_sets_total", "amalgam_hits_total"]);
}

#[test]
fn every_counted_event_has_its_counter() {
    let metrics = MetricsPlugin::default();
    let key = || "k".to_owned();
    let message = || "m".to_owned();
    let cases = [
        (CacheEvent::Hit { key: key(), stale: true }, Some("amalgam_hits_stale_total")),
        (CacheEvent::Hit { key: key(), stale: false }, Some("amalgam_hits_total")),
        (CacheEvent::Miss { key: key() }, Some("amalgam_misses_total")),
        (CacheEvent::Put { key: key() }, Some("amalgam_sets_total")),
        (
            CacheEvent::FactoryError { key: key(), message: message() },
            Some("amalgam_factory_errors_total"),
        ),
        (
            CacheEvent::FailSafeActivate { key: key() },
            Some("amalgam_failsafe_activations_total"),
        ),
        (
            CacheEvent::FactorySyntheticTimeout { key: key() },
            Some("amalgam_factory_timeouts_total"),
        ),
        (CacheEvent::EagerRefresh { key: key() }, Some("amalgam_eager_refreshes_total")),
        (CacheEvent::Clear, None),
        (CacheEvent::Remove { key: key() }, None),
        (CacheEvent::Eviction { key: key() }, None),
    ];
    for (event, counter) in cases {
        assert_eq!(metrics.on_event(&event), counter);
    }
}
