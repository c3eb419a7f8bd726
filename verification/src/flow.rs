//! The path of a `get_or_set` call.
//!
//! A call asks for one thing after another: a read of the memory store, the single-flight
//! lock, a second read now that nobody else is at work, a read of the distributed cache,
//! and in the end a run of the factory. Each answer takes the call to its next request or
//! to its end. What else is to be done on the way is listed in order, as effects.
use crate::cache::{versioned, Cache, L1Read, LockRequest};
use crate::distributed::{law_envelope_round_trip, DistributedEntry};
use crate::effects::{
    emits, lemma_slot_after_both, lemma_slot_unchanged, push_events, slot_after, Effect,
};
use crate::entry::{Entry, Metadata};
use crate::error::{Error, FactoryError};
use crate::events::{CacheEvent, CircuitComponent};
use crate::factory::{clone_tags, FactoryContext, FactoryProduct};
use crate::guarded::{is_open, L2Answer, L2Outcome, L2Read};
use crate::maybe::MaybeValue;
use crate::options::EntryOptions;
use crate::tags::{Tag, TagVerdict};
use crate::text::blank;
use crate::time::{later_by, Duration, Timeout, Timestamp};
use crate::writes::{law_product_is_read_back, store_effects, Stored};
use vstd::prelude::*;

verus! {

/// A `get_or_set` call on its way.
#[derive(Debug)]
pub struct GetOrSet<V> {
    /// The full key.
    pub key: String,
    /// The call's options.
    pub options: EntryOptions,
    /// The tags for the value, if one is produced.
    pub tags: Vec<Tag>,
    /// The value of last resort.
    pub fail_safe_default: MaybeValue<V>,
    /// The stale entry found so far.
    pub stale: Option<Entry<V>>,
    /// Whether the call holds the single-flight lock of its key.
    pub holds_lock: bool,
}

/// What a call asks for.
#[derive(Debug)]
pub enum Request<V> {
    /// The entry that the memory store holds for the key.
    ReadMemory,
    /// The single-flight lock, within the given wait.
    Lock(Timeout),
    /// The single-flight lock, however long it takes.
    WaitForLock,
    /// The cross-node lock; the call goes on without it if it cannot be had.
    LockAcrossNodes(LockRequest),
    /// The entry that the distributed cache holds.
    ReadDistributed(L2Read),
    /// A run of the factory, within the given wait.
    RunFactory(FactoryContext<V>, Timeout),
}

/// What a call comes to.
#[derive(Debug)]
pub enum Outcome<V> {
    /// Return the entry's value.
    Serve(Entry<V>),
    /// Store the product, then return its value.
    Store(FactoryProduct<V>),
    /// Return the error.
    Fail(Error),
}

/// Where an answer takes a call.
#[derive(Debug)]
pub enum Step<V> {
    /// To its next request.
    Ask(GetOrSet<V>, Request<V>),
    /// To its end.
    Finish(Outcome<V>),
}

/// What an answer comes to: the effects first, in order, and then the step.
#[derive(Debug)]
pub struct Advance<V> {
    /// What to do on the way.
    pub effects: Vec<Effect<V>>,
    /// Where the call is taken.
    pub step: Step<V>,
}

/// The effects of serving a fallback.
pub open spec fn fallback_effects<V>(flow: GetOrSet<V>, served: Entry<V>) -> Seq<Effect<V>> {
    let insert = if flow.options.skip_memory_write {
        Seq::empty()
    } else {
        seq![Effect::InsertMemory(served)]
    };
    insert + seq![
        Effect::Emit(CacheEvent::FailSafeActivate { key: flow.key }),
        Effect::Emit(CacheEvent::Hit { key: flow.key, stale: true }),
    ]
}

/// The later created of the entry known so far and another one; the known one if both were
/// created at once.
pub open spec fn newer<V>(known: Option<Entry<V>>, other: Entry<V>) -> Entry<V> {
    match known {
        Some(entry) => if entry.meta.created.0 >= other.meta.created.0 {
            entry
        } else {
            other
        },
        None => other,
    }
}

/// The later created of the entry known so far and another one.
pub fn newer_of<V>(known: Option<Entry<V>>, other: Entry<V>) -> (entry: Entry<V>)
    ensures
        entry == newer(known, other),
{
    match known {
        Some(entry) => if entry.meta.created.ticks() >= other.meta.created.ticks() {
            entry
        } else {
            other
        },
        None => other,
    }
}

/// How far along a call is when it asks for something.
pub open spec fn progress<V>(flow: GetOrSet<V>, request: Request<V>) -> int {
    match request {
        Request::ReadMemory => if flow.holds_lock {
            4
        } else {
            0
        },
        Request::Lock(_) => 1,
        Request::WaitForLock => 2,
        Request::LockAcrossNodes(_) => 3,
        Request::ReadDistributed(_) => 5,
        Request::RunFactory(_, _) => 6,
    }
}

impl<V> Advance<V> {
    /// Whether the call is further along than `progress`, or at its end.
    pub open spec fn is_past(self, reached: int) -> bool {
        self.step matches Step::Ask(flow, request) ==> progress(flow, request) > reached
    }

    /// Whether the factory is only asked for under the single-flight lock.
    pub open spec fn is_single_flight(self) -> bool {
        self.step matches Step::Ask(flow, Request::RunFactory(_, _)) ==> flow.holds_lock
    }
}

impl<V> GetOrSet<V> {
    /// Whether there is something to fall back to.
    pub open spec fn has_fallback(self) -> bool {
        self.stale is Some || self.fail_safe_default.0 is Some
    }

    /// The factory timeout that applies.
    pub open spec fn factory_timeout(self) -> Timeout {
        self.options.effective_timeout(
            self.options.factory_soft_timeout,
            self.options.factory_hard_timeout,
            self.has_fallback(),
        )
    }

    /// How long the call waits for the single-flight lock before it considers a fallback.
    pub open spec fn lock_wait(self) -> Timeout {
        match self.options.memory_lock_timeout {
            Some(t) => t,
            None => self.options.lock_timeout,
        }
    }

    /// Whether `step` asks for a run of the factory.
    pub open spec fn runs_factory(self, step: Step<V>) -> bool {
        &&& step matches Step::Ask(flow, Request::RunFactory(ctx, timeout))
        &&& flow == self
        &&& timeout == self.factory_timeout()
        &&& ctx.key == self.key
        &&& ctx.options == self.options
        &&& ctx.call_tags@ == self.tags@
        &&& ctx.adaptive_tags is None
        &&& ctx.stale == self.stale
    }

    /// Whether the distributed cache is to be read.
    pub open spec fn wants_distributed(self, cache: Cache) -> bool {
        &&& cache.settings.has_distributed
        &&& !self.options.skip_distributed_read
        &&& !(self.stale is Some && self.options.skip_distributed_read_when_stale)
    }

    /// Whether `step` goes on with the distributed cache, if it is to be read and its breaker
    /// lets it, and otherwise with the factory.
    pub open spec fn goes_on(
        self,
        before: Cache,
        after: Cache,
        now: Timestamp,
        step: Step<V>,
    ) -> bool {
        &&& after == (Cache {
            circuit_l2: if self.wants_distributed(before) {
                before.circuit_l2.consulted(now)
            } else {
                before.circuit_l2
            },
            ..before
        })
        &&& if self.wants_distributed(before) && before.circuit_l2.lets_through(now) {
            &&& step matches Step::Ask(flow, Request::ReadDistributed(read))
            &&& flow == self
            &&& read.key@ == versioned(
                before.settings.distributed_key_modifier_mode,
                before.settings.distributed_wire_version@,
                self.key@,
            )
            &&& read.timeout == self.options.effective_timeout(
                self.options.distributed_soft_timeout,
                self.options.distributed_hard_timeout,
                self.has_fallback(),
            )
        } else {
            self.runs_factory(step)
        }
    }

    /// Whether `step` looks into memory again, unless memory is not to be read.
    pub open spec fn checks_again(
        self,
        before: Cache,
        after: Cache,
        now: Timestamp,
        step: Step<V>,
    ) -> bool {
        if self.options.skip_memory_read {
            self.goes_on(before, after, now, step)
        } else {
            &&& after == before
            &&& step == Step::Ask(self, Request::ReadMemory)
        }
    }

    /// Whether `entry` serves the value of last resort at `now`.
    pub open spec fn stands_in(self, now: Timestamp, value: V, entry: Entry<V>) -> bool {
        &&& *entry.value == value
        &&& *entry.meta == (Metadata {
            created: now,
            logical_expiration: later_by(now, self.options.fail_safe_throttle_duration),
            physical_expiration: later_by(now, self.options.memory_lifetime()),
            backend_ttl: self.options.memory_lifetime(),
            is_from_fail_safe: true,
            eager_refresh_at: None,
            etag: None,
            last_modified: None,
            tags: entry.meta.tags,
        })
        &&& entry.meta.tags@.len() == 0
    }

    /// Whether `served` is what the call falls back to at `now`: a stale entry that still
    /// exists, throttled, or else the value of last resort; nothing without fail-safe.
    pub open spec fn falls_back(self, now: Timestamp, served: Option<Entry<V>>) -> bool {
        if !self.options.is_fail_safe_enabled {
            served is None
        } else if self.stale matches Some(stale) && stale.alive_at(now) {
            served == Some(Entry::throttled_from(self.stale->0, self.options, now))
        } else {
            match self.fail_safe_default.0 {
                Some(value) => served matches Some(entry) && self.stands_in(now, value, entry),
                None => served is None,
            }
        }
    }

    /// Begins a call.
    pub fn begin(
        key: String,
        options: EntryOptions,
        tags: Vec<Tag>,
        fail_safe_default: MaybeValue<V>,
    ) -> (advance: Advance<V>)
        ensures
            advance.effects@.len() == 0,
            ({
                let flow = GetOrSet {
                    key,
                    options,
                    tags,
                    fail_safe_default,
                    stale: None,
                    holds_lock: false,
                };
                advance.step == Step::Ask(
                    flow,
                    if options.skip_memory_read {
                        Request::Lock(flow.lock_wait())
                    } else {
                        Request::ReadMemory
                    },
                )
            }),
    {
        let flow = GetOrSet {
            key,
            options,
            tags,
            fail_safe_default,
            stale: None,
            holds_lock: false,
        };
        let request = if options.skip_memory_read() {
            Request::Lock(options.memory_lock_timeout())
        } else {
            Request::ReadMemory
        };
        Advance { effects: Vec::new(), step: Step::Ask(flow, request) }
    }

    fn run_factory(self) -> (step: Step<V>)
        ensures
            self.runs_factory(step),
    {
        let has_fallback = self.stale.is_some() || self.fail_safe_default.has_value();
        let timeout = self.options.appropriate_factory_timeout(has_fallback);
        let stale = match &self.stale {
            Some(entry) => Some(entry.clone()),
            None => None,
        };
        let ctx = FactoryContext::new(
            self.key.clone(),
            self.options,
            clone_tags(&self.tags),
            stale,
        );
        Step::Ask(self, Request::RunFactory(ctx, timeout))
    }

    fn go_on(self, cache: &mut Cache, now: Timestamp) -> (step: Step<V>)
        ensures
            self.goes_on(*old(cache), *final(cache), now, step),
    {
        if cache.settings.has_distributed && !self.options.skip_distributed_read() && !(
        self.stale.is_some() && self.options.skip_distributed_read_when_stale()) {
            let has_fallback = self.stale.is_some() || self.fail_safe_default.has_value();
            match cache.plan_l2_read(self.key.as_str(), &self.options, has_fallback, now) {
                Some(read) => return Step::Ask(self, Request::ReadDistributed(read)),
                None => {},
            }
        }
        self.run_factory()
    }

    fn check_again(self, cache: &mut Cache, now: Timestamp) -> (step: Step<V>)
        ensures
            self.checks_again(*old(cache), *final(cache), now, step),
    {
        if self.options.skip_memory_read() {
            self.go_on(cache, now)
        } else {
            Step::Ask(self, Request::ReadMemory)
        }
    }

    /// Whether `advance` is what follows a read of the memory store at `read_at`.
    pub open spec fn after_memory_read(
        self,
        before: Cache,
        after: Cache,
        found: Option<Entry<V>>,
        read_at: Timestamp,
        now: Timestamp,
        advance: Advance<V>,
    ) -> bool {
        match before.classified(found, read_at) {
            L1Read::Fresh(entry) => {
                &&& after == before
                &&& advance.step == Step::Finish(Outcome::Serve(entry))
                &&& advance.effects@ == (if !self.holds_lock && entry.refresh_due(read_at) {
                    seq![Effect::RefreshEagerly(entry)]
                } else {
                    Seq::empty()
                }).push(Effect::Emit(CacheEvent::Hit { key: self.key, stale: false }))
            },
            read => {
                let flow = match read {
                    L1Read::Stale(entry) => GetOrSet { stale: Some(entry), ..self },
                    _ => self,
                };
                &&& advance.effects@ == (if read is Evicted {
                    seq![Effect::<V>::RemoveMemory]
                } else {
                    Seq::<Effect<V>>::empty()
                })
                &&& if self.holds_lock {
                    flow.goes_on(before, after, now, advance.step)
                } else {
                    &&& after == before
                    &&& advance.step == Step::Ask(flow, Request::Lock(flow.lock_wait()))
                }
            },
        }
    }

    /// Takes in what the memory store held at `read_at`. A fresh entry ends the call, and the
    /// first time round it may be refreshed in the background. Otherwise the call goes on:
    /// to the lock, or, if it holds it already, to the distributed cache and the factory.
    pub fn memory_read(
        self,
        cache: &mut Cache,
        found: Option<Entry<V>>,
        read_at: Timestamp,
        now: Timestamp,
    ) -> (advance: Advance<V>)
        ensures
            advance.is_past(progress(self, Request::ReadMemory)),
            advance.is_single_flight(),
            self.after_memory_read(*old(cache), *final(cache), found, read_at, now, advance),
    {
        let mut effects: Vec<Effect<V>> = Vec::new();
        let mut flow = self;
        match cache.read_l1(found, read_at) {
            L1Read::Fresh(entry) => {
                if !flow.holds_lock && entry.should_eager_refresh(read_at) {
                    effects.push(Effect::RefreshEagerly(entry.clone()));
                }
                effects.push(Effect::Emit(CacheEvent::Hit { key: flow.key.clone(), stale: false }));
                return Advance { effects, step: Step::Finish(Outcome::Serve(entry)) };
            },
            L1Read::Stale(entry) => {
                flow.stale = Some(entry);
            },
            L1Read::Evicted => {
                effects.push(Effect::RemoveMemory);
            },
            L1Read::Miss => {},
        }
        if flow.holds_lock {
            Advance { effects, step: flow.go_on(cache, now) }
        } else {
            let timeout = flow.options.memory_lock_timeout();
            Advance { effects, step: Step::Ask(flow, Request::Lock(timeout)) }
        }
    }

    /// Whether `advance` is what follows a lock that was not had in time.
    pub open spec fn after_lock_timeout(self, advance: Advance<V>) -> bool {
        if !self.options.is_fail_safe_enabled || !self.has_fallback() {
            &&& advance.effects@.len() == 0
            &&& advance.step == Step::Finish(
                Outcome::<V>::Fail(
                    Error::LockTimeout {
                        elapsed: match self.lock_wait() {
                            Timeout::After(d) => d,
                            Timeout::Infinite => Duration { nanos: 0 },
                        },
                    },
                ),
            )
        } else if self.stale is Some {
            &&& advance.effects@ == seq![
                Effect::<V>::Emit(CacheEvent::Hit { key: self.key, stale: true }),
            ]
            &&& advance.step == Step::Finish(Outcome::Serve(self.stale->0))
        } else {
            &&& advance.effects@.len() == 0
            &&& advance.step == Step::Ask(self, Request::WaitForLock)
        }
    }

    /// Takes in that the lock was not had in time. With fail-safe a stale entry is served
    /// rather than queueing. The value of last resort is only for a factory that fails, so with
    /// nothing but that the call waits on; with nothing to fall back to it fails.
    pub fn lock_timed_out(self) -> (advance: Advance<V>)
        ensures
            forall|timeout: Timeout|
                advance.is_past(#[trigger] progress(self, Request::Lock(timeout))),
            advance.is_single_flight(),
            self.after_lock_timeout(advance),
    {
        let mut effects: Vec<Effect<V>> = Vec::new();
        if self.options.is_fail_safe_enabled() {
            if let Some(stale) = &self.stale {
                effects.push(Effect::Emit(CacheEvent::Hit { key: self.key.clone(), stale: true }));
                return Advance { effects, step: Step::Finish(Outcome::Serve(stale.clone())) };
            }
            if self.fail_safe_default.has_value() {
                return Advance { effects, step: Step::Ask(self, Request::WaitForLock) };
            }
        }
        let elapsed = match self.options.memory_lock_timeout() {
            Timeout::After(d) => d,
            Timeout::Infinite => Duration::zero(),
        };
        Advance { effects, step: Step::Finish(Outcome::Fail(Error::LockTimeout { elapsed })) }
    }

    /// Whether `advance` is what follows the lock.
    pub open spec fn after_lock(
        self,
        before: Cache,
        after: Cache,
        now: Timestamp,
        advance: Advance<V>,
    ) -> bool {
        let flow = GetOrSet { holds_lock: true, ..self };
        &&& advance.effects@.len() == 0
        &&& if before.settings.has_distributed_locker && !self.options.skip_distributed_locker {
            &&& after == before
            &&& advance.step matches Step::Ask(asking, Request::LockAcrossNodes(request))
            &&& asking == flow
            &&& request.key@ == "amalgam:lock:"@ + self.key@
            &&& request.ttl == self.options.memory_lifetime()
            &&& request.timeout == (match self.options.distributed_lock_timeout {
                Some(t) => t,
                None => self.options.lock_timeout,
            })
        } else {
            flow.checks_again(before, after, now, advance.step)
        }
    }

    /// Takes in that the lock is held. The cross-node lock comes next, if there is one.
    pub fn locked(self, cache: &mut Cache, now: Timestamp) -> (advance: Advance<V>)
        ensures
            advance.is_past(progress(self, Request::WaitForLock)),
            advance.is_single_flight(),
            self.after_lock(*old(cache), *final(cache), now, advance),
    {
        let mut flow = self;
        flow.holds_lock = true;
        let step = match cache.lock_request(flow.key.as_str(), &flow.options) {
            Some(request) => Step::Ask(flow, Request::LockAcrossNodes(request)),
            None => flow.check_again(cache, now),
        };
        Advance { effects: Vec::new(), step }
    }

    /// Takes in that the cross-node lock was had, or could not be: the call goes on either
    /// way.
    pub fn across_nodes_settled(self, cache: &mut Cache, now: Timestamp) -> (advance: Advance<V>)
        ensures
            self.holds_lock ==> forall|request: LockRequest|
                advance.is_past(#[trigger] progress(self, Request::LockAcrossNodes(request))),
            self.holds_lock ==> advance.is_single_flight(),
            advance.effects@.len() == 0,
            self.checks_again(*old(cache), *final(cache), now, advance.step),
    {
        Advance { effects: Vec::new(), step: self.check_again(cache, now) }
    }

    /// Whether `advance` is what follows the answer of the distributed cache.
    pub open spec fn follows_answer(
        self,
        cache: Cache,
        answer: L2Answer<V>,
        read_at: Timestamp,
        advance: Advance<V>,
    ) -> bool {
        let reports = emits::<V>(answer.events@);
        match answer.result {
            Err(err) => {
                &&& advance.effects@ == reports
                &&& advance.step == Step::Finish(Outcome::<V>::Fail(err))
            },
            Ok(None) => {
                &&& advance.effects@ == reports
                &&& self.runs_factory(advance.step)
            },
            Ok(Some(entry)) => if cache.verdict_on(entry) is Remove {
                &&& advance.effects@ == reports.push(Effect::RemoveDistributed)
                &&& self.runs_factory(advance.step)
            } else {
                let kept = if self.options.skip_memory_write {
                    reports
                } else {
                    reports.push(Effect::InsertMemory(entry))
                };
                if cache.servable(entry, read_at) {
                    &&& advance.effects@ == kept.push(
                        Effect::Emit(CacheEvent::Hit { key: self.key, stale: false }),
                    )
                    &&& advance.step == Step::Finish(Outcome::Serve(entry))
                } else {
                    &&& advance.effects@ == kept
                    &&& GetOrSet {
                        stale: Some(newer(self.stale, entry)),
                        ..self
                    }.runs_factory(advance.step)
                }
            },
        }
    }

    /// Whether `advance` is what follows a read of the distributed cache begun at `read_at`.
    pub open spec fn after_distributed_read(
        self,
        before: Cache,
        after: Cache,
        outcome: L2Outcome<V>,
        read_at: Timestamp,
        now: Timestamp,
        advance: Advance<V>,
    ) -> bool {
        exists|answer: L2Answer<V>|
            {
                &&& #[trigger] Cache::concluded_read(
                    before,
                    after,
                    self.key,
                    self.options,
                    self.has_fallback(),
                    outcome,
                    read_at,
                    now,
                    answer,
                )
                &&& self.follows_answer(before, answer, read_at, advance)
            }
    }

    /// Takes in how a read of the distributed cache, begun at `read_at`, went. A fresh entry
    /// ends the call and is kept in memory; a stale one may serve as a fallback; one that was
    /// invalidated is removed.
    pub fn distributed_read(
        self,
        cache: &mut Cache,
        outcome: L2Outcome<V>,
        read_at: Timestamp,
        now: Timestamp,
    ) -> (advance: Advance<V>)
        ensures
            forall|read: L2Read|
                advance.is_past(#[trigger] progress(self, Request::ReadDistributed(read))),
            self.holds_lock ==> advance.is_single_flight(),
            self.after_distributed_read(
                *old(cache),
                *final(cache),
                outcome,
                read_at,
                now,
                advance,
            ),
    {
        let has_fallback = self.stale.is_some() || self.fail_safe_default.has_value();
        let answer = cache.finish_l2_read(
            &self.key,
            &self.options,
            has_fallback,
            outcome,
            read_at,
            now,
        );
        let ghost reports = emits::<V>(answer.events@);
        let ghost given = answer;
        assert(Cache::concluded_read(
            *old(cache),
            *cache,
            self.key,
            self.options,
            self.has_fallback(),
            outcome,
            read_at,
            now,
            given,
        ));
        let mut effects: Vec<Effect<V>> = Vec::new();
        push_events(&mut effects, answer.events);
        assert(effects@ =~= reports);
        let entry = match answer.result {
            Err(err) => {
                let advance = Advance { effects, step: Step::Finish(Outcome::Fail(err)) };
                assert(self.follows_answer(*old(cache), given, read_at, advance));
                return advance;
            },
            Ok(None) => {
                let ghost flow = self;
                let advance = Advance { effects, step: self.run_factory() };
                assert(flow.follows_answer(*old(cache), given, read_at, advance));
                return advance;
            },
            Ok(Some(entry)) => entry,
        };
        let ghost start = self;
        let ghost read = entry;
        let mut flow = self;
        let verdict = cache.tags.evaluate(
            entry.meta().created(),
            entry.meta().tags(),
            cache.settings.remove_by_tag_behavior,
        );
        if matches!(verdict, TagVerdict::Remove) {
            effects.push(Effect::RemoveDistributed);
            let advance = Advance { effects, step: flow.run_factory() };
            assert(start.follows_answer(*old(cache), given, read_at, advance));
            return advance;
        }
        if !flow.options.skip_memory_write() {
            effects.push(Effect::InsertMemory(entry.clone()));
        }
        if matches!(verdict, TagVerdict::Valid) && entry.freshness(read_at).is_fresh() {
            effects.push(Effect::Emit(CacheEvent::Hit { key: flow.key.clone(), stale: false }));
            let advance = Advance { effects, step: Step::Finish(Outcome::Serve(entry)) };
            assert(start.follows_answer(*old(cache), given, read_at, advance));
            return advance;
        }
        flow.stale = Some(newer_of(flow.stale, entry));
        assert(flow == (GetOrSet { stale: Some(newer(start.stale, read)), ..start }));
        let advance = Advance { effects, step: flow.run_factory() };
        assert(start.follows_answer(*old(cache), given, read_at, advance));
        advance
    }

    /// Finds something to fall back to at `now`, and lists what serving it takes.
    fn try_serve_fallback(self, effects: &mut Vec<Effect<V>>, now: Timestamp) -> (served: Option<
        Entry<V>,
    >)
        ensures
            self.falls_back(now, served),
            final(effects)@ == (match served {
                Some(entry) => old(effects)@ + fallback_effects(self, entry),
                None => old(effects)@,
            }),
    {
        let ghost start = effects@;
        let ghost flow = self;
        if !self.options.is_fail_safe_enabled() {
            return None;
        }
        let throttled = match &self.stale {
            Some(stale) => Entry::throttled(stale, &self.options, now),
            None => None,
        };
        let entry = match throttled {
            Some(entry) => entry,
            None => match self.fail_safe_default.into_value() {
                Some(value) => Entry::from_fail_safe_default(value, &self.options, now),
                None => return None,
            },
        };
        if !self.options.skip_memory_write() {
            effects.push(Effect::InsertMemory(entry.clone()));
        }
        effects.push(Effect::Emit(CacheEvent::FailSafeActivate { key: self.key.clone() }));
        effects.push(Effect::Emit(CacheEvent::Hit { key: self.key, stale: true }));
        assert(effects@ =~= start + fallback_effects(flow, entry));
        Some(entry)
    }

    /// Whether `advance` is what follows a failed run: `reports`, and then a fallback if there
    /// is one, or else the error.
    pub open spec fn after_failure(
        self,
        reports: Seq<Effect<V>>,
        err: Error,
        now: Timestamp,
        advance: Advance<V>,
    ) -> bool {
        exists|served: Option<Entry<V>>|
            {
                &&& #[trigger] self.falls_back(now, served)
                &&& match served {
                    Some(entry) => {
                        &&& advance.effects@ == reports + fallback_effects(self, entry)
                        &&& advance.step == Step::Finish(Outcome::Serve(entry))
                    },
                    None => {
                        &&& advance.effects@ == reports
                        &&& advance.step == Step::Finish(Outcome::<V>::Fail(err))
                    },
                }
            }
    }

    /// Whether `advance` is what follows a run of the factory.
    pub open spec fn after_factory(
        self,
        result: Result<FactoryProduct<V>, FactoryError>,
        now: Timestamp,
        advance: Advance<V>,
    ) -> bool {
        match result {
            Ok(product) => {
                &&& advance.effects@.len() == 0
                &&& advance.step == Step::Finish(Outcome::Store(product))
            },
            Err(err) => self.after_failure(
                seq![
                    Effect::Emit(
                        CacheEvent::FactoryError { key: self.key, message: err.message },
                    ),
                ],
                Error::Factory { message: err.message },
                now,
                advance,
            ),
        }
    }

    /// Whether `advance` is what follows a run of the factory that ran out of time.
    pub open spec fn after_factory_timeout(self, now: Timestamp, advance: Advance<V>) -> bool {
        let timeout = Effect::<V>::Emit(CacheEvent::FactorySyntheticTimeout { key: self.key });
        self.after_failure(
            if self.options.allow_timed_out_factory_background_completion {
                seq![timeout, Effect::KeepFactory]
            } else {
                seq![Effect::AbortFactory, timeout]
            },
            Error::FactoryTimeout {
                elapsed: match self.factory_timeout() {
                    Timeout::After(d) => d,
                    Timeout::Infinite => Duration { nanos: 0 },
                },
            },
            now,
            advance,
        )
    }

    /// Takes in what the factory came to. A product is stored. A failure is made up for by a
    /// fallback, if there is one.
    pub fn factory_ended(
        self,
        result: Result<FactoryProduct<V>, FactoryError>,
        now: Timestamp,
    ) -> (advance: Advance<V>)
        ensures
            self.after_factory(result, now, advance),
    {
        let mut effects: Vec<Effect<V>> = Vec::new();
        let err = match result {
            Ok(product) => return Advance {
                effects,
                step: Step::Finish(Outcome::Store(product)),
            },
            Err(err) => err,
        };
        effects.push(
            Effect::Emit(
                CacheEvent::FactoryError { key: self.key.clone(), message: err.message.clone() },
            ),
        );
        assert(effects@ =~= seq![
            Effect::Emit(CacheEvent::FactoryError { key: self.key, message: err.message }),
        ]);
        match self.try_serve_fallback(&mut effects, now) {
            Some(entry) => Advance { effects, step: Step::Finish(Outcome::Serve(entry)) },
            None => Advance { effects, step: Step::Finish(Outcome::Fail(Error::from(err))) },
        }
    }

    /// Takes in that the factory ran out of time. It is stopped, or left to finish in the
    /// background where the options allow it, and a fallback is served if there is one.
    pub fn factory_timed_out(self, now: Timestamp) -> (advance: Advance<V>)
        ensures
            self.after_factory_timeout(now, advance),
    {
        let mut effects: Vec<Effect<V>> = Vec::new();
        let timeout = Effect::Emit(CacheEvent::FactorySyntheticTimeout { key: self.key.clone() });
        if self.options.allow_timed_out_factory_background_completion() {
            effects.push(timeout);
            effects.push(Effect::KeepFactory);
        } else {
            effects.push(Effect::AbortFactory);
            effects.push(timeout);
        }
        assert(effects@ =~= if self.options.allow_timed_out_factory_background_completion {
            seq![timeout, Effect::KeepFactory]
        } else {
            seq![Effect::AbortFactory, timeout]
        });
        let has_fallback = self.stale.is_some() || self.fail_safe_default.has_value();
        let elapsed = match self.options.appropriate_factory_timeout(has_fallback) {
            Timeout::After(d) => d,
            Timeout::Infinite => Duration::zero(),
        };
        match self.try_serve_fallback(&mut effects, now) {
            Some(entry) => Advance { effects, step: Step::Finish(Outcome::Serve(entry)) },
            None => Advance {
                effects,
                step: Step::Finish(Outcome::Fail(Error::FactoryTimeout { elapsed })),
            },
        }
    }
}

/// A request of a call.
pub type Asked<V> = (GetOrSet<V>, Request<V>);

/// Whether `advance` may follow a request, whatever the answer and whatever the state of the
/// cache.
pub open spec fn may_follow<V>(asked: Asked<V>, advance: Advance<V>) -> bool {
    let flow = asked.0;
    match asked.1 {
        Request::ReadMemory => exists|
            before: Cache,
            after: Cache,
            found: Option<Entry<V>>,
            read_at: Timestamp,
            now: Timestamp,
        | #[trigger]
            flow.after_memory_read(before, after, found, read_at, now, advance),
        Request::Lock(_) => {
            ||| flow.after_lock_timeout(advance)
            ||| exists|before: Cache, after: Cache, now: Timestamp| #[trigger]
                flow.after_lock(before, after, now, advance)
        },
        Request::WaitForLock => exists|before: Cache, after: Cache, now: Timestamp| #[trigger]
            flow.after_lock(before, after, now, advance),
        Request::LockAcrossNodes(_) => exists|before: Cache, after: Cache, now: Timestamp|
            #[trigger]
            flow.checks_again(before, after, now, advance.step),
        Request::ReadDistributed(_) => exists|
            before: Cache,
            after: Cache,
            outcome: L2Outcome<V>,
            read_at: Timestamp,
            now: Timestamp,
        | #[trigger]
            flow.after_distributed_read(before, after, outcome, read_at, now, advance),
        Request::RunFactory(_, _) => {
            ||| exists|result: Result<FactoryProduct<V>, FactoryError>, now: Timestamp|
                #[trigger]
                flow.after_factory(result, now, advance)
            ||| exists|now: Timestamp| #[trigger] flow.after_factory_timeout(now, advance)
        },
    }
}

/// Whether a request can come right after another.
pub open spec fn asked_after<V>(first: Asked<V>, second: Asked<V>) -> bool {
    exists|advance: Advance<V>| #[trigger]
        may_follow(first, advance) && advance.step == Step::Ask(second.0, second.1)
}

/// Whether `run` is what a call can ask for, from its beginning on.
pub open spec fn is_run<V>(run: Seq<Asked<V>>) -> bool {
    &&& run.len() > 0
    &&& !run[0].0.holds_lock
    &&& run[0].1 is ReadMemory || run[0].1 is Lock
    &&& forall|i: int, j: int|
        0 <= i && j == i + 1 && j < run.len() ==> asked_after(#[trigger] run[i], #[trigger] run[j])
}

/// Whether the lock is held wherever it has to be.
spec fn is_locked_in_time<V>(asked: Asked<V>) -> bool {
    asked.1 is LockAcrossNodes || asked.1 is ReadDistributed || asked.1 is RunFactory
        ==> asked.0.holds_lock
}

proof fn lemma_one_step<V>(first: Asked<V>, second: Asked<V>)
    requires
        asked_after(first, second),
        is_locked_in_time(first),
    ensures
        progress(second.0, second.1) > progress(first.0, first.1),
        is_locked_in_time(second),
        !(first.1 is RunFactory),
        second.0.key == first.0.key,
        second.0.options == first.0.options,
        second.0.fail_safe_default == first.0.fail_safe_default,
{
}

proof fn lemma_run<V>(run: Seq<Asked<V>>, i: int)
    requires
        is_run(run),
        0 <= i < run.len(),
    ensures
        is_locked_in_time(run[i]),
        progress(run[i].0, run[i].1) >= i,
        run[i].0.key == run[0].0.key,
        run[i].0.options == run[0].0.options,
    decreases i,
{
    if i > 0 {
        lemma_run(run, i - 1);
        assert(asked_after(run[i - 1], run[i]));
        lemma_one_step(run[i - 1], run[i]);
    }
}

/// Whatever answers it gets, a call asks for at most seven things, and always about its own
/// key and under its own options. It asks for the factory at most once, as the last thing,
/// and only while it holds the single-flight lock.
pub proof fn law_call_runs_the_factory_once_under_the_lock<V>(run: Seq<Asked<V>>)
    requires
        is_run(run),
    ensures
        run.len() <= 7,
        forall|i: int|
            0 <= i < run.len() ==> (#[trigger] run[i]).0.key == run[0].0.key && run[i].0.options
                == run[0].0.options,
        forall|i: int|
            0 <= i < run.len() && (#[trigger] run[i]).1 is RunFactory ==> run[i].0.holds_lock && i
                == run.len() - 1,
{
    assert forall|i: int| 0 <= i < run.len() implies {
        &&& (#[trigger] run[i]).0.key == run[0].0.key
        &&& run[i].0.options == run[0].0.options
        &&& run[i].1 is RunFactory ==> run[i].0.holds_lock && i == run.len() - 1
    } by {
        lemma_run(run, i);
        if i < run.len() - 1 {
            assert(asked_after(run[i], run[i + 1]));
            lemma_one_step(run[i], run[i + 1]);
        }
    }
    lemma_run(run, run.len() - 1);
}

/// A fresh entry in memory ends the call at once: it is served, and no factory is waited for.
pub proof fn law_fresh_memory_is_served<V>(
    flow: GetOrSet<V>,
    before: Cache,
    after: Cache,
    entry: Entry<V>,
    read_at: Timestamp,
    now: Timestamp,
    advance: Advance<V>,
)
    requires
        before.servable(entry, read_at),
        flow.after_memory_read(before, after, Some(entry), read_at, now, advance),
    ensures
        advance.step == Step::Finish(Outcome::Serve(entry)),
        after == before,
{
}

/// A call that asks for the factory has found nothing fresh: neither memory nor the
/// distributed cache gave it an entry that may be served.
pub proof fn law_factory_only_runs_without_a_fresh_entry<V>(
    flow: GetOrSet<V>,
    before: Cache,
    after: Cache,
    found: Option<Entry<V>>,
    answer: L2Answer<V>,
    read_at: Timestamp,
    now: Timestamp,
    advance: Advance<V>,
)
    requires
        advance.step matches Step::Ask(_, Request::RunFactory(_, _)),
    ensures
        flow.after_memory_read(before, after, found, read_at, now, advance) ==> (found matches Some(
            entry,
        ) ==> !before.servable(entry, read_at)),
        flow.follows_answer(before, answer, read_at, advance) ==> (answer.result matches Ok(
            Some(entry),
        ) ==> !before.servable(entry, read_at)),
{
}

/// With fail-safe on and something to fall back to, a failing or slow factory never makes the
/// call fail: the stale value is served if it still exists, and otherwise the value of last
/// resort.
pub proof fn law_fail_safe_never_fails<V>(
    flow: GetOrSet<V>,
    err: FactoryError,
    now: Timestamp,
    advance: Advance<V>,
)
    requires
        flow.options.is_fail_safe_enabled,
        (flow.stale matches Some(stale) && stale.alive_at(now)) || flow.fail_safe_default.0 is Some,
        flow.after_factory(Err(err), now, advance) || flow.after_factory_timeout(now, advance),
    ensures
        advance.step matches Step::Finish(Outcome::Serve(entry)) && {
            &&& entry.meta.is_from_fail_safe
            &&& if flow.stale matches Some(stale) && stale.alive_at(now) {
                entry.value == flow.stale->0.value
            } else {
                *entry.value == flow.fail_safe_default.0->0
            }
        },
{
}

/// Without fail-safe, or without anything to fall back to, the factory's failure reaches the
/// caller with its message, and nothing is served.
pub proof fn law_failure_surfaces_without_fallback<V>(
    flow: GetOrSet<V>,
    err: FactoryError,
    now: Timestamp,
    advance: Advance<V>,
)
    requires
        !flow.options.is_fail_safe_enabled || (flow.fail_safe_default.0 is None && (
        flow.stale matches Some(stale) ==> !stale.alive_at(now))),
        flow.after_factory(Err(err), now, advance),
    ensures
        advance.step == Step::Finish(
            Outcome::<V>::Fail(Error::Factory { message: err.message }),
        ),
{
}

/// The factory's wait differs from its hard timeout only under fail-safe and with something to
/// fall back to.
pub proof fn law_soft_timeout_only_cuts_short_in_favour_of_a_fallback<V>(flow: GetOrSet<V>)
    ensures
        flow.factory_timeout() != flow.options.factory_hard_timeout
            ==> flow.options.is_fail_safe_enabled && flow.has_fallback(),
{
}

/// A fallback that was served is served again, without the factory, until the throttle window
/// is over, unless a clear or a marker of one of its own tags has invalidated it.
pub proof fn law_fallback_holds_for_the_throttle_window<V>(
    flow: GetOrSet<V>,
    cache: Cache,
    err: FactoryError,
    now: Timestamp,
    advance: Advance<V>,
    entry: Entry<V>,
    held: Option<Entry<V>>,
    later: Timestamp,
)
    requires
        flow.after_factory(Err(err), now, advance) || flow.after_factory_timeout(now, advance),
        advance.step == Step::Finish(Outcome::Serve(entry)),
        !flow.options.skip_memory_write,
        cache.verdict_on(entry) is Valid,
        later.0 < later_by(now, flow.options.fail_safe_throttle_duration).0,
    ensures
        slot_after(advance.effects@, held) == Some(entry),
        cache.classified(slot_after(advance.effects@, held), later) == L1Read::Fresh(entry),
{
    let n = advance.effects@.len();
    assert(fallback_effects(flow, entry).len() == 3);
    let reports = advance.effects@.take(n - 3);
    assert(advance.effects@ =~= reports + fallback_effects(flow, entry));
    assert(fallback_effects(flow, entry) =~= seq![
        Effect::InsertMemory(entry),
        Effect::Emit(CacheEvent::FailSafeActivate { key: flow.key }),
        Effect::Emit(CacheEvent::Hit { key: flow.key, stale: true }),
    ]);
    lemma_slot_after_both(reports, fallback_effects(flow, entry), held);
    lemma_insert_comes_first(fallback_effects(flow, entry), entry, slot_after(reports, held));
}

proof fn lemma_insert_comes_first<V>(
    effects: Seq<Effect<V>>,
    entry: Entry<V>,
    held: Option<Entry<V>>,
)
    requires
        effects.len() > 0,
        effects[0] == Effect::InsertMemory(entry),
        forall|i: int| 1 <= i < effects.len() ==> #[trigger] effects[i] is Emit,
    ensures
        slot_after(effects, held) == Some(entry),
{
    let first = seq![Effect::InsertMemory(entry)];
    let rest = effects.skip(1);
    assert(effects =~= first + rest);
    lemma_slot_after_both(first, rest, held);
    assert(first.drop_last() =~= Seq::<Effect<V>>::empty());
    reveal_with_fuel(slot_after, 2);
    assert forall|i: int| 0 <= i < rest.len() implies !(#[trigger] rest[i] is InsertMemory) && !(
    rest[i] is RemoveMemory) && !(rest[i] is InvalidateMemory) by {
        assert(rest[i] == effects[i + 1]);
    }
    lemma_slot_unchanged(rest, Some(entry));
}

/// An entry that the distributed cache gave and that may be served is served and kept in
/// memory, so that the next read finds it there.
pub proof fn law_distributed_hit_fills_memory<V>(
    flow: GetOrSet<V>,
    cache: Cache,
    answer: L2Answer<V>,
    entry: Entry<V>,
    read_at: Timestamp,
    advance: Advance<V>,
    held: Option<Entry<V>>,
)
    requires
        flow.follows_answer(cache, answer, read_at, advance),
        answer.result == Ok::<Option<Entry<V>>, Error>(Some(entry)),
        cache.servable(entry, read_at),
        !flow.options.skip_memory_write,
    ensures
        advance.step == Step::Finish(Outcome::Serve(entry)),
        slot_after(advance.effects@, held) == Some(entry),
{
    let reports = emits::<V>(answer.events@);
    let rest = seq![
        Effect::InsertMemory(entry),
        Effect::Emit(CacheEvent::Hit { key: flow.key, stale: false }),
    ];
    assert(advance.effects@ =~= reports + rest);
    lemma_slot_after_both(reports, rest, held);
    lemma_insert_comes_first(rest, entry, slot_after(reports, held));
}

/// What one node wrote to the distributed cache, another node serves without a factory: as
/// long as it is fresh, unless the other node knows of a clear or a marker of one of its own
/// tags that has invalidated it.
pub proof fn law_other_nodes_serve_the_write<V>(
    written: Entry<V>,
    dist: DistributedEntry<V>,
    flow: GetOrSet<V>,
    before: Cache,
    after: Cache,
    read_at: Timestamp,
    now: Timestamp,
    advance: Advance<V>,
)
    requires
        dist.describes(written.metadata()),
        forall|i: int|
            0 <= i < written.meta.tags@.len() ==> !blank(#[trigger] written.meta.tags@[i]@),
        written.fresh_at(read_at),
        before.verdict_on(written) is Valid,
        flow.after_distributed_read(
            before,
            after,
            L2Outcome::Answered(Ok(Some(dist))),
            read_at,
            now,
            advance,
        ),
    ensures
        advance.step matches Step::Finish(Outcome::Serve(entry)) && {
            &&& *entry.value == dist.value
            &&& entry.meta.created == written.meta.created
            &&& entry.meta.logical_expiration == written.meta.logical_expiration
            &&& entry.meta.physical_expiration == written.meta.physical_expiration
            &&& entry.texts() == written.texts()
        },
{
    let answer = choose|answer: L2Answer<V>|
        {
            &&& #[trigger] Cache::concluded_read(
                before,
                after,
                flow.key,
                flow.options,
                flow.has_fallback(),
                L2Outcome::Answered(Ok(Some(dist))),
                read_at,
                now,
                answer,
            )
            &&& flow.follows_answer(before, answer, read_at, advance)
        };
    let entry = answer.result->Ok_0->0;
    law_envelope_round_trip(dist, written.metadata(), entry, read_at);
}

/// Whoever waited for the lock while another call ran the factory is served what that call
/// produced, and runs no factory: as long as it is fresh, unless a clear or a marker of one of
/// its own tags has invalidated it.
pub proof fn law_waiting_call_is_served_the_result<V>(
    key: String,
    product: FactoryProduct<V>,
    created: Timestamp,
    eager_share: Duration,
    reports_success: bool,
    stored: Stored<V>,
    held: Option<Entry<V>>,
    waiting: GetOrSet<V>,
    before: Cache,
    after: Cache,
    read_at: Timestamp,
    now: Timestamp,
    advance: Advance<V>,
)
    requires
        stored.is_stored_from(product, eager_share, created),
        stored.effects@ == store_effects(key, stored.entry, product.options, reports_success),
        !product.options.skip_memory_write,
        before.verdict_on(stored.entry) is Valid,
        stored.entry.fresh_at(read_at),
        waiting.after_memory_read(
            before,
            after,
            slot_after(stored.effects@, held),
            read_at,
            now,
            advance,
        ),
    ensures
        advance.step == Step::Finish(Outcome::Serve(stored.entry)),
        *stored.entry.value == product.value,
{
    law_product_is_read_back(
        before,
        key,
        product,
        created,
        eager_share,
        reports_success,
        stored,
        held,
        read_at,
    );
}

/// When the wait for the lock is over, the call fails exactly if fail-safe has nothing to fall
/// back to, and then it tells how long it waited.
pub proof fn law_lock_timeout_fails_only_without_fallback<V>(
    flow: GetOrSet<V>,
    advance: Advance<V>,
)
    requires
        flow.after_lock_timeout(advance),
    ensures
        advance.step matches Step::Finish(Outcome::Fail(_)) <==> !(
        flow.options.is_fail_safe_enabled && flow.has_fallback()),
        advance.step matches Step::Finish(Outcome::Fail(err)) ==> (err matches Error::LockTimeout {
            elapsed,
        } && (flow.lock_wait() matches Timeout::After(wait) ==> elapsed == wait)),
{
}

/// The value of last resort is served only if the factory failed or ran out of time: a wait for
/// the lock that is over serves nothing but the stale entry.
pub proof fn law_last_resort_waits_for_the_factory<V>(flow: GetOrSet<V>, advance: Advance<V>)
    requires
        flow.after_lock_timeout(advance),
    ensures
        advance.step matches Step::Finish(Outcome::Serve(entry)) ==> flow.stale == Some(entry),
        flow.options.is_fail_safe_enabled && flow.stale is None && flow.fail_safe_default.0 is Some
            ==> advance.step == Step::Ask(flow, Request::WaitForLock),
{
}

/// Whether an advance asks for a run of the factory on behalf of a call, with the right context:
/// the call's key, options and tags, and the stale entry that the call has found, if any.
pub open spec fn asks_for_factory<V>(advance: Advance<V>, flow: GetOrSet<V>) -> bool {
    &&& advance.step matches Step::Ask(asking, Request::RunFactory(ctx, _))
    &&& asking.key == flow.key && ctx.key == flow.key
    &&& asking.options == flow.options && ctx.options == flow.options
    &&& asking.tags == flow.tags && ctx.call_tags@ == flow.tags@
    &&& asking.fail_safe_default == flow.fail_safe_default
    &&& asking.holds_lock == flow.holds_lock
    &&& ctx.adaptive_tags is None
    &&& ctx.stale == asking.stale
}

/// Nothing is served from the distributed cache without the factory that a marker invalidates or
/// whose freshness has ended: what is served is the entry that was read, held valid by the markers
/// and fresh when it was read.
pub proof fn law_distributed_cache_serves_nothing_invalid<V>(
    flow: GetOrSet<V>,
    cache: Cache,
    answer: L2Answer<V>,
    entry: Entry<V>,
    read_at: Timestamp,
    advance: Advance<V>,
)
    requires
        flow.follows_answer(cache, answer, read_at, advance),
        answer.result == Ok::<Option<Entry<V>>, Error>(Some(entry)),
    ensures
        advance.step matches Step::Finish(outcome) ==> {
            &&& outcome == Outcome::Serve(entry)
            &&& cache.verdict_on(entry) is Valid
            &&& read_at.0 < entry.meta.logical_expiration.0
        },
        !(cache.verdict_on(entry) is Valid && read_at.0 < entry.meta.logical_expiration.0)
            ==> asks_for_factory(advance, flow),
{
}

/// A read of the distributed cache and what it comes to. A call ends there exactly if the entry
/// that was read is held valid by the markers and fresh, and then it is served and kept in memory;
/// or if an error is to reach the caller. Otherwise the factory is asked for. A stale or expired
/// entry is kept in memory too, and is what the factory is shown, unless a later one is known; an
/// entry that the markers remove is removed from the distributed cache, and neither kept nor shown.
pub proof fn law_distributed_read_is_followed<V>(
    flow: GetOrSet<V>,
    cache: &mut Cache,
    dist: DistributedEntry<V>,
    read_at: Timestamp,
    now: Timestamp,
    advance: Advance<V>,
)
    requires
        call_ensures(
            GetOrSet::<V>::distributed_read,
            (flow, cache, L2Outcome::Answered(Ok(Some(dist))), read_at, now),
            advance,
        ),
    ensures
        exists|entry: Entry<V>|
            {
                let verdict = old(cache).verdict_on(entry);
                let fresh = read_at.0 < entry.meta.logical_expiration.0;
                let kept = advance.effects@.contains(Effect::InsertMemory(entry));
                &&& #[trigger] dist.rebuilds_to(entry, read_at)
                &&& *entry.value == dist.value
                &&& entry.meta.created.0 == dist.created_ticks
                &&& entry.meta.logical_expiration.0 == dist.logical_expiration_ticks
                &&& verdict is Valid && fresh <==> advance.step == Step::Finish(
                    Outcome::Serve(entry),
                )
                &&& !(verdict is Valid && fresh) ==> asks_for_factory(advance, flow)
                &&& kept <==> !(verdict is Remove) && !flow.options.skip_memory_write
                &&& verdict is Remove <==> advance.effects@.contains(Effect::<V>::RemoveDistributed)
                &&& verdict is Remove ==> (advance.step matches Step::Ask(asking, _) && asking.stale
                    == flow.stale)
                &&& !(verdict is Remove) && !(verdict is Valid && fresh) ==> (
                advance.step matches Step::Ask(asking, _) && (asking.stale matches Some(shown) && (
                shown == entry || flow.stale == Some(shown)) && shown.meta.created.0
                    >= entry.meta.created.0 && (flow.stale matches Some(known)
                    ==> shown.meta.created.0 >= known.meta.created.0)))
            },
        forall|i: int|
            0 <= i < advance.effects@.len() ==> #[trigger] advance.effects@[i] is Emit
                || advance.effects@[i] is InsertMemory || advance.effects@[i] is RemoveDistributed,
        final(cache).tags == old(cache).tags,
        final(cache).settings == old(cache).settings,
{
    let outcome = L2Outcome::<V>::Answered(Ok(Some(dist)));
    let answer = choose|answer: L2Answer<V>|
        {
            &&& #[trigger] Cache::concluded_read(
                *old(cache),
                *final(cache),
                flow.key,
                flow.options,
                flow.has_fallback(),
                outcome,
                read_at,
                now,
                answer,
            )
            &&& flow.follows_answer(*old(cache), answer, read_at, advance)
        };
    let entry = answer.result->Ok_0->0;
    assert(dist.rebuilds_to(entry, read_at));
    let reports = emits::<V>(answer.events@);
    let effects = advance.effects@;
    let n = reports.len() as int;
    assert forall|i: int| 0 <= i < n implies #[trigger] effects[i] is Emit by {
        assert(effects[i] == reports[i]);
    }
    if old(cache).verdict_on(entry) is Remove {
        assert(effects[n] is RemoveDistributed);
    } else if !flow.options.skip_memory_write {
        assert(effects[n] == Effect::InsertMemory(entry));
    }
}

/// Finding nothing in the distributed cache, or running out of time there in favour of a fallback,
/// leads to the factory with what the call knew before; an error ends the call only if it is to
/// reach the caller.
pub proof fn law_nothing_in_the_distributed_cache_leads_to_the_factory<V>(
    flow: GetOrSet<V>,
    cache: &mut Cache,
    outcome: L2Outcome<V>,
    read_at: Timestamp,
    now: Timestamp,
    advance: Advance<V>,
)
    requires
        call_ensures(
            GetOrSet::<V>::distributed_read,
            (flow, cache, outcome, read_at, now),
            advance,
        ),
    ensures
        outcome matches L2Outcome::Answered(Ok(None)) ==> {
            &&& asks_for_factory(advance, flow)
            &&& advance.step matches Step::Ask(asking, _) ==> asking.stale == flow.stale
        },
        outcome matches L2Outcome::Answered(Err(err)) ==> {
            let codec = err is Serialization || err is Deserialization;
            let told = if codec {
                flow.options.rethrow_serialization_exceptions
            } else {
                flow.options.rethrow_distributed_exceptions
            };
            &&& told ==> advance.step == Step::Finish(Outcome::<V>::Fail(err))
            &&& !told ==> asks_for_factory(advance, flow)
            &&& !told ==> (advance.step matches Step::Ask(asking, _) && asking.stale == flow.stale)
        },
        outcome is TimedOut && !flow.options.rethrow_distributed_exceptions ==> asks_for_factory(
            advance,
            flow,
        ),
{
    let answer = choose|answer: L2Answer<V>|
        {
            &&& #[trigger] Cache::concluded_read(
                *old(cache),
                *final(cache),
                flow.key,
                flow.options,
                flow.has_fallback(),
                outcome,
                read_at,
                now,
                answer,
            )
            &&& flow.follows_answer(*old(cache), answer, read_at, advance)
        };
    assert(flow.follows_answer(*old(cache), answer, read_at, advance));
}

/// Whether the distributed cache stands between a call and the factory: there is one, its breaker
/// is not open, and the call is not to skip it, be it at all or because it holds a stale entry.
pub open spec fn comes_before_factory<V>(
    cache: Cache,
    options: EntryOptions,
    has_stale: bool,
    now: Timestamp,
) -> bool {
    &&& cache.settings.has_distributed
    &&& !is_open(cache.circuit_l2, now)
    &&& !options.skip_distributed_read
    &&& !(has_stale && options.skip_distributed_read_when_stale)
}

/// A call that holds the lock and finds nothing fresh in memory reads the distributed cache before
/// it asks for the factory, whether or not it found a stale entry, unless it is to skip it or
/// cannot have it; and only then it asks for the factory right away.
pub proof fn law_distributed_cache_comes_before_the_factory<V>(
    flow: GetOrSet<V>,
    cache: &mut Cache,
    found: Option<Entry<V>>,
    read_at: Timestamp,
    now: Timestamp,
    advance: Advance<V>,
)
    requires
        flow.holds_lock,
        call_ensures(
            GetOrSet::<V>::memory_read,
            (flow, cache, found, read_at, now),
            advance,
        ),
        found matches Some(entry) ==> !(old(cache).verdict_on(entry) is Valid && read_at.0
            < entry.meta.logical_expiration.0),
    ensures
        ({
            let stale = match found {
                Some(entry) => if old(cache).verdict_on(entry) is Remove {
                    flow.stale
                } else {
                    Some(entry)
                },
                None => flow.stale,
            };
            let wanted = comes_before_factory::<V>(
                *old(cache),
                flow.options,
                stale is Some,
                now,
            );
            &&& advance.step matches Step::Ask(asking, _) && asking.stale == stale && asking.key
                == flow.key && asking.options == flow.options && asking.holds_lock
            &&& wanted ==> (advance.step matches Step::Ask(_, Request::ReadDistributed(_)))
            &&& !wanted ==> asks_for_factory(advance, flow)
        }),
{
}

/// The same where memory is not to be read: the lock, and the lock across nodes, lead on to the
/// distributed cache, and only without it to the factory.
pub proof fn law_lock_leads_on_to_the_distributed_cache<V>(
    flow: GetOrSet<V>,
    cache: &mut Cache,
    now: Timestamp,
    locked: Advance<V>,
    settling: &mut Cache,
    settled: Advance<V>,
)
    requires
        call_ensures(GetOrSet::<V>::locked, (flow, cache, now), locked),
        call_ensures(GetOrSet::<V>::across_nodes_settled, (flow, settling, now), settled),
    ensures
        locked.effects@.len() == 0 && settled.effects@.len() == 0,
        locked.step matches Step::Ask(asking, _) && asking == (GetOrSet {
            holds_lock: true,
            ..flow
        }),
        settled.step matches Step::Ask(asking, _) && asking == flow,
        ({
            let across = old(cache).settings.has_distributed_locker
                && !flow.options.skip_distributed_locker;
            let wanted = comes_before_factory::<V>(
                *old(cache),
                flow.options,
                flow.stale is Some,
                now,
            );
            &&& locked.step matches Step::Ask(_, request)
            &&& request is LockAcrossNodes <==> across
            &&& request is ReadMemory <==> !across && !flow.options.skip_memory_read
            &&& request is ReadDistributed <==> !across && flow.options.skip_memory_read && wanted
            &&& request is RunFactory <==> !across && flow.options.skip_memory_read && !wanted
        }),
        ({
            let wanted = comes_before_factory::<V>(
                *old(settling),
                flow.options,
                flow.stale is Some,
                now,
            );
            &&& settled.step matches Step::Ask(_, request)
            &&& request is ReadMemory <==> !flow.options.skip_memory_read
            &&& request is ReadDistributed <==> flow.options.skip_memory_read && wanted
            &&& request is RunFactory <==> flow.options.skip_memory_read && !wanted
        }),
{
}

/// A call begins with memory, unless that is not to be read, and then with the lock, which it
/// waits for as long as the options say. It has found nothing and holds nothing yet.
pub proof fn law_call_begins_with_memory<V>(
    key: String,
    options: EntryOptions,
    tags: Vec<Tag>,
    default: MaybeValue<V>,
    wait: Timeout,
    advance: Advance<V>,
)
    requires
        call_ensures(GetOrSet::<V>::begin, (key, options, tags, default), advance),
        call_ensures(EntryOptions::memory_lock_timeout, (&options,), wait),
    ensures
        advance.effects@.len() == 0,
        advance.step matches Step::Ask(flow, request) && {
            &&& flow.key == key && flow.options == options && flow.tags == tags
            &&& flow.fail_safe_default == default
            &&& flow.stale is None && !flow.holds_lock
            &&& request is ReadMemory <==> !options.skip_memory_read
            &&& options.skip_memory_read ==> request == Request::<V>::Lock(wait)
        },
{
}

/// A read of memory and what it comes to. A fresh entry that the markers hold valid ends the call,
/// reported as a fresh hit, and has itself refreshed ahead of time exactly if that is due and this
/// is the first look. Otherwise nothing is served: an entry that the markers remove leaves memory
/// and is forgotten, any other becomes the fallback, and a first look leads to the lock, which is
/// waited for as long as the options say.
pub proof fn law_memory_read_is_followed<V>(
    flow: GetOrSet<V>,
    cache: &mut Cache,
    found: Option<Entry<V>>,
    read_at: Timestamp,
    now: Timestamp,
    wait: Timeout,
    due: bool,
    advance: Advance<V>,
)
    requires
        call_ensures(
            GetOrSet::<V>::memory_read,
            (flow, cache, found, read_at, now),
            advance,
        ),
        call_ensures(EntryOptions::memory_lock_timeout, (&flow.options,), wait),
        found matches Some(entry) ==> call_ensures(
            Entry::<V>::should_eager_refresh,
            (&entry, read_at),
            due,
        ),
    ensures
        found matches Some(entry) ==> {
            let verdict = old(cache).verdict_on(entry);
            let served = verdict is Valid && read_at.0 < entry.meta.logical_expiration.0;
            let hit = Effect::<V>::Emit(CacheEvent::Hit { key: flow.key, stale: false });
            &&& served <==> advance.step == Step::Finish(Outcome::Serve(entry))
            &&& served ==> advance.effects@.contains(hit) && *final(cache) == *old(cache)
            &&& served ==> (due && !flow.holds_lock <==> advance.effects@.contains(
                Effect::RefreshEagerly(entry),
            ))
            &&& verdict is Remove <==> advance.effects@.contains(Effect::<V>::RemoveMemory)
            &&& forall|i: int|
                0 <= i < advance.effects@.len() ==> match #[trigger] advance.effects@[i] {
                    Effect::Emit(event) => served && event == (CacheEvent::Hit {
                        key: flow.key,
                        stale: false,
                    }),
                    Effect::RefreshEagerly(given) => served && given == entry,
                    Effect::RemoveMemory => verdict is Remove,
                    _ => false,
                }
            &&& !served ==> (advance.step matches Step::Ask(asking, _) && asking.stale == (
            if verdict is Remove {
                flow.stale
            } else {
                Some(entry)
            }))
        },
        found is None ==> advance.effects@.len() == 0 && (advance.step matches Step::Ask(asking, _)
            && asking.stale == flow.stale),
        advance.step matches Step::Ask(asking, request) ==> {
            &&& asking.key == flow.key && asking.options == flow.options && asking.tags == flow.tags
            &&& asking.holds_lock == flow.holds_lock
            &&& asking.fail_safe_default == flow.fail_safe_default
            &&& !flow.holds_lock ==> request == Request::<V>::Lock(wait)
        },
{
    let effects = advance.effects@;
    if let Some(entry) = found {
        if old(cache).verdict_on(entry) is Valid && read_at.0 < entry.meta.logical_expiration.0 {
            assert(effects.last() == Effect::<V>::Emit(
                CacheEvent::Hit { key: flow.key, stale: false },
            ));
            if due && !flow.holds_lock {
                assert(effects[0] == Effect::RefreshEagerly(entry));
            }
        } else if old(cache).verdict_on(entry) is Remove {
            assert(effects[0] is RemoveMemory);
        }
    }
}

/// Whether `entry` is a fallback for a call whose factory failed at `now`: the stale entry's value
/// under the stale entry's own metadata if the call has one that still exists, and otherwise the
/// value of last resort; fresh for the throttle window either way, and marked as a fallback.
pub open spec fn makes_up_for_failure<V>(
    flow: GetOrSet<V>,
    now: Timestamp,
    entry: Entry<V>,
) -> bool {
    &&& entry.meta.is_from_fail_safe
    &&& entry.meta.logical_expiration == later_by(now, flow.options.fail_safe_throttle_duration)
    &&& if flow.stale matches Some(stale) && now.0 < stale.meta.physical_expiration.0 {
        &&& entry.value == flow.stale->0.value
        &&& entry.meta.created == flow.stale->0.meta.created
        &&& entry.meta.physical_expiration == flow.stale->0.meta.physical_expiration
        &&& entry.meta.etag == flow.stale->0.meta.etag
        &&& entry.meta.last_modified == flow.stale->0.meta.last_modified
        &&& entry.meta.tags == flow.stale->0.meta.tags
    } else {
        &&& flow.fail_safe_default.0 == Some(*entry.value)
        &&& entry.meta.created == now
    }
}

/// Whether there is something that can make up for a factory that failed at `now`.
pub open spec fn can_make_up<V>(flow: GetOrSet<V>, now: Timestamp) -> bool {
    &&& flow.options.is_fail_safe_enabled
    &&& (flow.stale matches Some(stale) && now.0 < stale.meta.physical_expiration.0)
        || flow.fail_safe_default.0 is Some
}

/// A run of the factory and what it comes to. What it produced is stored as it is. A failure is
/// reported, and made up for by a fallback, which is kept in memory unless that is to be skipped,
/// exactly if fail-safe is on and there is one; otherwise it reaches the caller with its message.
pub proof fn law_factory_result_is_followed<V>(
    flow: GetOrSet<V>,
    result: Result<FactoryProduct<V>, FactoryError>,
    now: Timestamp,
    advance: Advance<V>,
)
    requires
        call_ensures(GetOrSet::<V>::factory_ended, (flow, result, now), advance),
    ensures
        result matches Ok(product) ==> {
            &&& advance.step == Step::Finish(Outcome::Store(product))
            &&& advance.effects@.len() == 0
        },
        result matches Err(err) ==> {
            let reported = Effect::<V>::Emit(
                CacheEvent::FactoryError { key: flow.key, message: err.message },
            );
            &&& advance.effects@.contains(reported)
            &&& can_make_up(flow, now) ==> (advance.step matches Step::Finish(Outcome::Serve(entry))
                && makes_up_for_failure(flow, now, entry) && serves_fallback(
                advance.effects@,
                flow,
                entry,
            ))
            &&& !can_make_up(flow, now) ==> advance.step == Step::Finish(
                Outcome::<V>::Fail(Error::Factory { message: err.message }),
            )
            &&& !can_make_up(flow, now) ==> advance.effects@.len() == 1
        },
{
    if let Err(err) = result {
        let reports = seq![
            Effect::<V>::Emit(CacheEvent::FactoryError { key: flow.key, message: err.message }),
        ];
        assert(advance.effects@[0] == reports[0]);
        if can_make_up(flow, now) {
            lemma_serves_fallback(flow, reports, advance);
        }
    }
}

/// Whether effects tell that a fallback was served, and keep it in memory exactly if that is not
/// to be skipped; it is written nowhere else.
pub open spec fn serves_fallback<V>(
    effects: Seq<Effect<V>>,
    flow: GetOrSet<V>,
    entry: Entry<V>,
) -> bool {
    &&& effects.contains(Effect::<V>::Emit(CacheEvent::FailSafeActivate { key: flow.key }))
    &&& effects.contains(Effect::<V>::Emit(CacheEvent::Hit { key: flow.key, stale: true }))
    &&& effects.contains(Effect::InsertMemory(entry)) <==> !flow.options.skip_memory_write
    &&& forall|i: int|
        0 <= i < effects.len() ==> match #[trigger] effects[i] {
            Effect::InsertMemory(given) => given == entry,
            Effect::Emit(_) | Effect::KeepFactory | Effect::AbortFactory => true,
            _ => false,
        }
}

proof fn lemma_serves_fallback<V>(
    flow: GetOrSet<V>,
    reports: Seq<Effect<V>>,
    advance: Advance<V>,
)
    requires
        advance.step matches Step::Finish(Outcome::Serve(entry)) && advance.effects@ == reports
            + fallback_effects(flow, entry),
        forall|i: int|
            0 <= i < reports.len() ==> #[trigger] reports[i] is Emit || reports[i] is KeepFactory
                || reports[i] is AbortFactory,
    ensures
        serves_fallback(advance.effects@, flow, advance.step->Finish_0->Serve_0),
{
    let entry = advance.step->Finish_0->Serve_0;
    let effects = advance.effects@;
    let n = effects.len() as int;
    assert(effects[n - 2] == Effect::<V>::Emit(CacheEvent::FailSafeActivate { key: flow.key }));
    assert(effects[n - 1] == Effect::<V>::Emit(CacheEvent::Hit { key: flow.key, stale: true }));
    assert forall|i: int| 0 <= i < n implies match #[trigger] effects[i] {
        Effect::InsertMemory(given) => given == entry && !flow.options.skip_memory_write,
        Effect::Emit(_) | Effect::KeepFactory | Effect::AbortFactory => true,
        _ => false,
    } by {
        if i < reports.len() {
            assert(effects[i] == reports[i]);
        }
    }
    if !flow.options.skip_memory_write {
        assert(effects[n - 3] == Effect::InsertMemory(entry));
    }
}

/// A factory that runs out of time is left to finish in the background exactly if the options
/// allow it, and stopped otherwise; it is reported, and made up for like a failure. Without a
/// fallback the caller is told how long the factory was allowed to run.
pub proof fn law_factory_timeout_is_followed<V>(
    flow: GetOrSet<V>,
    now: Timestamp,
    wait: Timeout,
    advance: Advance<V>,
)
    requires
        call_ensures(GetOrSet::<V>::factory_timed_out, (flow, now), advance),
        call_ensures(
            EntryOptions::appropriate_factory_timeout,
            (&flow.options, flow.stale is Some || flow.fail_safe_default.0 is Some),
            wait,
        ),
    ensures
        ({
            let background = flow.options.allow_timed_out_factory_background_completion;
            let timeout = Effect::<V>::Emit(CacheEvent::FactorySyntheticTimeout { key: flow.key });
            &&& advance.effects@.contains(timeout)
            &&& advance.effects@.contains(Effect::<V>::KeepFactory) <==> background
            &&& advance.effects@.contains(Effect::<V>::AbortFactory) <==> !background
            &&& can_make_up(flow, now) ==> (advance.step matches Step::Finish(Outcome::Serve(entry))
                && makes_up_for_failure(flow, now, entry) && serves_fallback(
                advance.effects@,
                flow,
                entry,
            ))
            &&& !can_make_up(flow, now) ==> (advance.step matches Step::Finish(
                Outcome::Fail(Error::FactoryTimeout { elapsed }),
            ) && (wait matches Timeout::After(d) ==> elapsed == d))
        }),
{
    let effects = advance.effects@;
    let background = flow.options.allow_timed_out_factory_background_completion;
    let timeout = Effect::<V>::Emit(CacheEvent::FactorySyntheticTimeout { key: flow.key });
    let reports = if background {
        seq![timeout, Effect::KeepFactory]
    } else {
        seq![Effect::AbortFactory, timeout]
    };
    assert(effects.take(2) =~= reports);
    assert(effects[0] == reports[0] && effects[1] == reports[1]);
    assert forall|i: int| 2 <= i < effects.len() implies !(#[trigger] effects[i] is KeepFactory)
        && !(effects[i] is AbortFactory) by {}
    if can_make_up(flow, now) {
        lemma_serves_fallback(flow, reports, advance);
    }
}

/// A wait for the lock that is over: with fail-safe a stale entry is served, as it is and reported
/// as stale; with a value of last resort only, the call waits on; with nothing to fall back to, or
/// without fail-safe, it fails and tells how long it waited.
pub proof fn law_lock_timeout_is_followed<V>(flow: GetOrSet<V>, wait: Timeout, advance: Advance<V>)
    requires
        call_ensures(GetOrSet::<V>::lock_timed_out, (flow,), advance),
        call_ensures(EntryOptions::memory_lock_timeout, (&flow.options,), wait),
    ensures
        ({
            let safe = flow.options.is_fail_safe_enabled;
            let hit = Effect::<V>::Emit(CacheEvent::Hit { key: flow.key, stale: true });
            &&& safe ==> (flow.stale matches Some(stale) ==> {
                &&& advance.step == Step::Finish(Outcome::Serve(stale))
                &&& advance.effects@.contains(hit)
            })
            &&& safe && flow.stale is None && flow.fail_safe_default.0 is Some ==> advance.step
                == Step::Ask(flow, Request::WaitForLock)
            &&& !safe || (flow.stale is None && flow.fail_safe_default.0 is None) ==> (
            advance.step matches Step::Finish(Outcome::Fail(Error::LockTimeout { elapsed })) && (
            wait matches Timeout::After(d) ==> elapsed == d))
            &&& forall|i: int|
                0 <= i < advance.effects@.len() ==> #[trigger] advance.effects@[i] == hit
        }),
{
    if flow.options.is_fail_safe_enabled && flow.stale is Some {
        assert(advance.effects@[0] is Emit);
    }
}

/// The factory is waited for as long as the options say for a call that has what this one has to
/// fall back to, wherever on its way the call asks for it.
pub proof fn law_factory_is_waited_for_as_the_options_say<V>(
    flow: GetOrSet<V>,
    before: Cache,
    after: Cache,
    found: Option<Entry<V>>,
    answer: L2Answer<V>,
    read_at: Timestamp,
    now: Timestamp,
    advance: Advance<V>,
    asking: GetOrSet<V>,
    ctx: FactoryContext<V>,
    wait: Timeout,
    allowed: Timeout,
)
    requires
        advance.step == Step::Ask(asking, Request::RunFactory(ctx, wait)),
        call_ensures(
            EntryOptions::appropriate_factory_timeout,
            (&asking.options, asking.stale is Some || asking.fail_safe_default.0 is Some),
            allowed,
        ),
        flow.after_memory_read(before, after, found, read_at, now, advance) || flow.after_lock(
            before,
            after,
            now,
            advance,
        ) || flow.follows_answer(before, answer, read_at, advance),
    ensures
        wait == allowed,
        ctx.stale == asking.stale,
        ctx.options == flow.options,
        ctx.key == flow.key,
        ctx.call_tags@ == flow.tags@,
{
}

/// Of two entries the later created one counts, and of two created at once the one known before.
pub proof fn law_later_entry_counts<V>(known: Option<Entry<V>>, other: Entry<V>, kept: Entry<V>)
    requires
        call_ensures(newer_of::<V>, (known, other), kept),
    ensures
        kept == other || known == Some(kept),
        kept.meta.created.0 >= other.meta.created.0,
        known matches Some(entry) ==> kept.meta.created.0 >= entry.meta.created.0,
        known matches Some(entry) ==> (entry.meta.created == other.meta.created ==> kept == entry),
{
}

/// Wherever on its way a call asks for the distributed cache, it asks for its own key there, and
/// waits for as long as the options say for a call that has what this one has to fall back to.
pub proof fn law_distributed_cache_is_asked_for_the_call<V>(
    flow: GetOrSet<V>,
    cache: &mut Cache,
    found: Option<Entry<V>>,
    read_at: Timestamp,
    now: Timestamp,
    advance: Advance<V>,
    asking: GetOrSet<V>,
    read: L2Read,
    wait: Timeout,
)
    requires
        call_ensures(GetOrSet::<V>::memory_read, (flow, cache, found, read_at, now), advance)
            || call_ensures(GetOrSet::<V>::locked, (flow, cache, now), advance) || call_ensures(
            GetOrSet::<V>::across_nodes_settled,
            (flow, cache, now),
            advance,
        ),
        advance.step == Step::Ask(asking, Request::<V>::ReadDistributed(read)),
        call_ensures(
            EntryOptions::appropriate_distributed_timeout,
            (&flow.options, asking.stale is Some || flow.fail_safe_default.0 is Some),
            wait,
        ),
    ensures
        read.timeout == wait,
        read.key@ == versioned(
            old(cache).settings.distributed_key_modifier_mode,
            old(cache).settings.distributed_wire_version@,
            flow.key@,
        ),
        asking.key == flow.key && asking.options == flow.options && asking.tags == flow.tags,
        asking.fail_safe_default == flow.fail_safe_default,
{
}

/// The lock across nodes that a call asks for is that of its own key, held for as long as an entry
/// is kept and waited for as long as the options say for it.
pub proof fn law_cross_node_lock_is_that_of_the_key<V>(
    flow: GetOrSet<V>,
    cache: &mut Cache,
    now: Timestamp,
    advance: Advance<V>,
    asking: GetOrSet<V>,
    request: LockRequest,
    kept: Duration,
    wait: Timeout,
)
    requires
        call_ensures(GetOrSet::<V>::locked, (flow, cache, now), advance),
        advance.step == Step::Ask(asking, Request::<V>::LockAcrossNodes(request)),
        call_ensures(EntryOptions::physical_ttl, (&flow.options,), kept),
        call_ensures(EntryOptions::distributed_lock_timeout, (&flow.options,), wait),
    ensures
        request.key@ == "amalgam:lock:"@ + flow.key@,
        request.ttl == kept,
        request.timeout == wait,
{
}

/// A call reports what its read of the distributed cache did to the breaker, and takes it over: an
/// answer closes it, reported if it was open; an error opens it, reported if it was closed; and an
/// entry that is served from there is reported as a fresh hit.
pub proof fn law_distributed_read_is_reported<V>(
    flow: GetOrSet<V>,
    cache: &mut Cache,
    outcome: L2Outcome<V>,
    read_at: Timestamp,
    now: Timestamp,
    advance: Advance<V>,
)
    requires
        call_ensures(
            GetOrSet::<V>::distributed_read,
            (flow, cache, outcome, read_at, now),
            advance,
        ),
    ensures
        ({
            let before = old(cache).circuit_l2;
            let after = final(cache).circuit_l2;
            let component = CircuitComponent::Distributed;
            let closed = Effect::<V>::Emit(
                CacheEvent::CircuitBreakerChange { component, closed: true },
            );
            let opened = Effect::<V>::Emit(
                CacheEvent::CircuitBreakerChange { component, closed: false },
            );
            &&& outcome matches L2Outcome::Answered(Ok(_)) ==> {
                &&& after.closes_at is None
                &&& before.closes_at is Some ==> advance.effects@.contains(closed)
            }
            &&& outcome matches L2Outcome::Answered(Err(_)) ==> {
                &&& before.open_ticks > 0 && now.0 + before.open_ticks <= i64::MAX ==> is_open(
                    after,
                    now,
                )
                &&& before.open_ticks != 0 && before.closes_at is None
                    ==> advance.effects@.contains(opened)
            }
            &&& advance.step matches Step::Finish(Outcome::Serve(_)) ==> advance.effects@.contains(
                Effect::<V>::Emit(CacheEvent::Hit { key: flow.key, stale: false }),
            )
            &&& final(cache).recovery == old(cache).recovery
            &&& final(cache).circuit_backplane == old(cache).circuit_backplane
        }),
{
    let answer = choose|answer: L2Answer<V>|
        {
            &&& #[trigger] Cache::concluded_read(
                *old(cache),
                *final(cache),
                flow.key,
                flow.options,
                flow.has_fallback(),
                outcome,
                read_at,
                now,
                answer,
            )
            &&& flow.follows_answer(*old(cache), answer, read_at, advance)
        };
    let reports = emits::<V>(answer.events@);
    assert forall|i: int| 0 <= i < reports.len() implies #[trigger] advance.effects@[i]
        == Effect::<V>::Emit(answer.events@[i]) by {
        assert(advance.effects@[i] == reports[i]);
    }
    if answer.events@.len() > 0 {
        let last = answer.events@.len() - 1;
        assert(advance.effects@[last] == Effect::<V>::Emit(answer.events@[last]));
    }
    if advance.step matches Step::Finish(Outcome::Serve(_)) {
        assert(advance.effects@.last() is Emit);
    }
}

/// A wait for the distributed cache that is over in favour of a fallback leads to the factory, and
/// is no failure; any other ends the call only if errors of the distributed cache are to reach the
/// caller.
pub proof fn law_distributed_timeout_is_followed<V>(
    flow: GetOrSet<V>,
    cache: &mut Cache,
    read_at: Timestamp,
    now: Timestamp,
    wait: Timeout,
    advance: Advance<V>,
)
    requires
        call_ensures(
            GetOrSet::<V>::distributed_read,
            (flow, cache, L2Outcome::TimedOut, read_at, now),
            advance,
        ),
        call_ensures(
            EntryOptions::appropriate_distributed_timeout,
            (&flow.options, flow.stale is Some || flow.fail_safe_default.0 is Some),
            wait,
        ),
    ensures
        ({
            let benign = flow.options.is_fail_safe_enabled && (flow.stale is Some
                || flow.fail_safe_default.0 is Some) && wait
                == flow.options.distributed_soft_timeout;
            &&& benign ==> asks_for_factory(advance, flow) && *final(cache) == *old(cache)
            &&& !benign && !flow.options.rethrow_distributed_exceptions ==> asks_for_factory(
                advance,
                flow,
            )
            &&& !benign && flow.options.rethrow_distributed_exceptions ==> (
            advance.step matches Step::Finish(Outcome::Fail(Error::Distributed(_))))
            &&& advance.step matches Step::Ask(asking, _) ==> asking.stale == flow.stale
        }),
{
    let answer = choose|answer: L2Answer<V>|
        {
            &&& #[trigger] Cache::concluded_read(
                *old(cache),
                *final(cache),
                flow.key,
                flow.options,
                flow.has_fallback(),
                L2Outcome::<V>::TimedOut,
                read_at,
                now,
                answer,
            )
            &&& flow.follows_answer(*old(cache), answer, read_at, advance)
        };
    assert(flow.follows_answer(*old(cache), answer, read_at, advance));
}

} // verus!
