//! Operations on the distributed cache and the backplane, each guarded by a breaker.
//!
//! Such an operation comes in two parts: a plan, made before it from the state and the
//! options, and a conclusion, drawn after it from how it went. What fails, or is not tried
//! while a breaker is open, is queued for recovery.
use crate::backplane::{BackplaneAction, BackplaneMessage};
use crate::cache::{versioned, Cache};
use crate::circuit::CircuitBreaker;
use crate::distributed::DistributedEntry;
use crate::entry::Entry;
use crate::error::Error;
use crate::events::{CacheEvent, CircuitComponent};
use crate::options::EntryOptions;
use crate::recovery::{enqueued, AutoRecoveryService, Pending, RecoveryAction, RecoveryItem};
use crate::time::{later_by, Duration, Timeout, Timestamp};
use vstd::prelude::*;

verus! {

/// How long a failed operation stays worth replaying: ten minutes.
pub open spec fn recovery_item_ttl() -> Duration {
    Duration { nanos: 600_000_000_000 }
}

/// The replay that makes up for a message that was not sent.
pub open spec fn replay_of(action: BackplaneAction) -> RecoveryAction {
    match action {
        BackplaneAction::Put => RecoveryAction::Put,
        BackplaneAction::Remove => RecoveryAction::Remove,
        BackplaneAction::Expire => RecoveryAction::Expire,
    }
}

/// The replay that makes up for a message that was not sent.
pub fn recovery_action_of(action: BackplaneAction) -> (replay: RecoveryAction)
    ensures
        replay == replay_of(action),
{
    match action {
        BackplaneAction::Put => RecoveryAction::Put,
        BackplaneAction::Remove => RecoveryAction::Remove,
        BackplaneAction::Expire => RecoveryAction::Expire,
    }
}

/// Whether `after` is the recovery queue once `action` on `key` was offered to it at `now`.
pub open spec fn offered(
    before: Option<AutoRecoveryService>,
    after: Option<AutoRecoveryService>,
    key: Seq<char>,
    action: RecoveryAction,
    now: Timestamp,
) -> bool {
    match (before, after) {
        (None, None) => true,
        (Some(b), Some(a)) => a.settings() == b.settings() && enqueued(
            b.settings(),
            b@,
            key,
            Pending {
                action,
                timestamp: now,
                expires_at: later_by(now, recovery_item_ttl()),
                remaining_retries: None,
            },
            a@,
        ),
        _ => false,
    }
}

/// A read of the distributed cache to make.
#[derive(Debug)]
pub struct L2Read {
    /// The key to read.
    pub key: String,
    /// How long to wait for the answer.
    pub timeout: Timeout,
}

/// How a read of the distributed cache went.
#[derive(Debug)]
pub enum L2Outcome<V> {
    /// The backend answered, with an entry, without one, or with an error.
    Answered(Result<Option<DistributedEntry<V>>, Error>),
    /// The wait was over before an answer came.
    TimedOut,
}

/// What a read of the distributed cache comes to.
#[derive(Debug)]
pub struct L2Answer<V> {
    /// The entry that was found, if one was; an error only where the caller asked for it.
    pub result: Result<Option<Entry<V>>, Error>,
    /// What to report.
    pub events: Vec<CacheEvent>,
}

/// A write to the distributed cache to make, or not.
#[derive(Debug)]
pub enum L2Write {
    /// There is nothing to do now.
    Skip,
    /// Write the entry.
    Write {
        /// The key to write.
        key: String,
        /// How long the entry is to be kept.
        ttl: Duration,
        /// Whether the caller need not wait.
        background: bool,
    },
}

/// A message to publish, or not.
#[derive(Debug, Clone, Copy, PartialEq, Eq, Structural)]
pub enum Publish {
    /// There is nothing to do now.
    Skip,
    /// Send the message.
    Send {
        /// Whether the caller need not wait.
        background: bool,
    },
}

/// What replaying an operation takes, in this order; the first failure ends it.
#[derive(Debug)]
pub struct ReplaySteps {
    /// The key to write the entry under, and for how long.
    pub write: Option<(String, Duration)>,
    /// The key to remove.
    pub remove: Option<String>,
    /// The message to send.
    pub announce: Option<BackplaneMessage>,
}

/// The event of a breaker that opened or closed.
pub open spec fn breaker_event(component: CircuitComponent, closed: bool) -> CacheEvent {
    CacheEvent::CircuitBreakerChange { component, closed }
}

/// The event of a breaker that was closed, if it was open.
pub open spec fn closing_events(
    breaker: CircuitBreaker,
    component: CircuitComponent,
) -> Seq<CacheEvent> {
    if breaker.closes_at is Some {
        seq![breaker_event(component, true)]
    } else {
        Seq::empty()
    }
}

/// The event of a breaker that was tripped, if it was closed.
pub open spec fn opening_events(
    breaker: CircuitBreaker,
    component: CircuitComponent,
) -> Seq<CacheEvent> {
    if breaker.open_ticks != 0 && breaker.closes_at is None {
        seq![breaker_event(component, false)]
    } else {
        Seq::empty()
    }
}

/// What is reported of an error of the distributed cache, apart from the breaker.
pub open spec fn codec_events(key: String, err: Error) -> Seq<CacheEvent> {
    match err {
        Error::Serialization(message) => seq![CacheEvent::SerializationError { key, message }],
        Error::Deserialization(message) => seq![CacheEvent::DeserializationError { key, message }],
        _ => Seq::empty(),
    }
}

/// Whether an error of the distributed cache reaches the caller.
pub open spec fn rethrows(options: EntryOptions, err: Error) -> bool {
    match err {
        Error::Serialization(_) => options.rethrow_serialization_exceptions,
        Error::Deserialization(_) => options.rethrow_serialization_exceptions,
        _ => options.rethrow_distributed_exceptions,
    }
}

/// Whether a read that ran out of time was only cut short in favour of a fallback: that is
/// no failure of the distributed cache.
pub open spec fn is_soft_timeout(options: EntryOptions, has_fallback: bool) -> bool {
    &&& options.is_fail_safe_enabled
    &&& has_fallback
    &&& options.effective_timeout(
        options.distributed_soft_timeout,
        options.distributed_hard_timeout,
        has_fallback,
    ) == options.distributed_soft_timeout
}

impl Cache {
    /// Offers a failed operation to the recovery queue, if there is one.
    fn enqueue_recovery(&mut self, full_key: &String, action: RecoveryAction, now: Timestamp)
        ensures
            offered(old(self).recovery, final(self).recovery, full_key@, action, now),
            *final(self) == (Cache { recovery: final(self).recovery, ..*old(self) }),
    {
        if let Some(recovery) = &mut self.recovery {
            recovery.enqueue(
                RecoveryItem {
                    key: full_key.clone(),
                    action,
                    timestamp: now,
                    expires_at: now.saturating_add(Duration::from_secs(600)),
                    remaining_retries: None,
                },
            );
        }
    }

    fn close_circuit_l2(&mut self, events: &mut Vec<CacheEvent>)
        ensures
            *final(self) == (Cache {
                circuit_l2: old(self).circuit_l2.forced_closed(),
                ..*old(self)
            }),
            final(events)@ == old(events)@ + closing_events(
                old(self).circuit_l2,
                CircuitComponent::Distributed,
            ),
    {
        let ghost start = events@;
        if self.circuit_l2.close() {
            events.push(
                CacheEvent::CircuitBreakerChange {
                    component: CircuitComponent::Distributed,
                    closed: true,
                },
            );
        }
        assert(events@ =~= start + closing_events(
            old(self).circuit_l2,
            CircuitComponent::Distributed,
        ));
    }

    pub(crate) fn close_circuit_backplane(&mut self, events: &mut Vec<CacheEvent>)
        ensures
            *final(self) == (Cache {
                circuit_backplane: old(self).circuit_backplane.forced_closed(),
                ..*old(self)
            }),
            final(events)@ == old(events)@ + closing_events(
                old(self).circuit_backplane,
                CircuitComponent::Backplane,
            ),
    {
        let ghost start = events@;
        if self.circuit_backplane.close() {
            events.push(
                CacheEvent::CircuitBreakerChange {
                    component: CircuitComponent::Backplane,
                    closed: true,
                },
            );
        }
        assert(events@ =~= start + closing_events(
            old(self).circuit_backplane,
            CircuitComponent::Backplane,
        ));
    }

    /// Reports an error of the distributed cache and trips its breaker.
    fn on_l2_error(
        &mut self,
        full_key: &String,
        err: &Error,
        events: &mut Vec<CacheEvent>,
        now: Timestamp,
    )
        ensures
            *final(self) == (Cache { circuit_l2: old(self).circuit_l2.tripped(now), ..*old(self) }),
            final(events)@ == old(events)@ + codec_events(*full_key, *err) + opening_events(
                old(self).circuit_l2,
                CircuitComponent::Distributed,
            ),
    {
        let ghost start = events@;
        match err {
            Error::Serialization(message) => events.push(
                CacheEvent::SerializationError { key: full_key.clone(), message: message.clone() },
            ),
            Error::Deserialization(message) => events.push(
                CacheEvent::DeserializationError {
                    key: full_key.clone(),
                    message: message.clone(),
                },
            ),
            _ => {},
        }
        assert(events@ =~= start + codec_events(*full_key, *err));
        let ghost middle = events@;
        if self.circuit_l2.trip(now) {
            events.push(
                CacheEvent::CircuitBreakerChange {
                    component: CircuitComponent::Distributed,
                    closed: false,
                },
            );
        }
        assert(events@ =~= middle + opening_events(
            old(self).circuit_l2,
            CircuitComponent::Distributed,
        ));
    }

    /// Plans a read of the distributed cache: none without one, or while its breaker is
    /// open.
    pub fn plan_l2_read(
        &mut self,
        full_key: &str,
        options: &EntryOptions,
        has_fallback: bool,
        now: Timestamp,
    ) -> (plan: Option<L2Read>)
        ensures
            *final(self) == (Cache {
                circuit_l2: if old(self).settings.has_distributed {
                    old(self).circuit_l2.consulted(now)
                } else {
                    old(self).circuit_l2
                },
                ..*old(self)
            }),
            match plan {
                Some(read) => {
                    &&& old(self).settings.has_distributed
                    &&& old(self).circuit_l2.lets_through(now)
                    &&& read.key@ == versioned(
                        old(self).settings.distributed_key_modifier_mode,
                        old(self).settings.distributed_wire_version@,
                        full_key@,
                    )
                    &&& read.timeout == options.effective_timeout(
                        options.distributed_soft_timeout,
                        options.distributed_hard_timeout,
                        has_fallback,
                    )
                },
                None => !(old(self).settings.has_distributed && old(
                    self,
                ).circuit_l2.lets_through(now)),
            },
    {
        if !self.settings.has_distributed || !self.circuit_l2.is_closed(now) {
            return None;
        }
        Some(
            L2Read {
                key: self.l2_key(full_key),
                timeout: options.appropriate_distributed_timeout(has_fallback),
            },
        )
    }

    /// Whether `after` and `answer` are what follows a read of the distributed cache that was
    /// begun at `read_at`.
    pub open spec fn concluded_read<V>(
        before: Cache,
        after: Cache,
        full_key: String,
        options: EntryOptions,
        has_fallback: bool,
        outcome: L2Outcome<V>,
        read_at: Timestamp,
        now: Timestamp,
        answer: L2Answer<V>,
    ) -> bool {
        let component = CircuitComponent::Distributed;
        let closed = Cache { circuit_l2: before.circuit_l2.forced_closed(), ..before };
        let tripped = Cache { circuit_l2: before.circuit_l2.tripped(now), ..before };
        match outcome {
            L2Outcome::Answered(Ok(found)) => {
                &&& after == closed
                &&& answer.events@ == closing_events(before.circuit_l2, component)
                &&& match found {
                    Some(dist) => answer.result matches Ok(Some(entry)) && dist.rebuilds_to(
                        entry,
                        read_at,
                    ),
                    None => answer.result matches Ok(None),
                }
            },
            L2Outcome::Answered(Err(err)) => {
                &&& after == tripped
                &&& answer.events@ == codec_events(full_key, err) + opening_events(
                    before.circuit_l2,
                    component,
                )
                &&& answer.result == (if rethrows(options, err) {
                    Err(err)
                } else {
                    Ok::<Option<Entry<V>>, Error>(None)
                })
            },
            L2Outcome::TimedOut => if is_soft_timeout(options, has_fallback) {
                &&& after == before
                &&& answer.events@.len() == 0
                &&& answer.result matches Ok(None)
            } else {
                &&& after == tripped
                &&& answer.events@ == opening_events(before.circuit_l2, component)
                &&& if options.rethrow_distributed_exceptions {
                    answer.result matches Err(Error::Distributed(message)) && message@
                        == "l2 read timed out"@
                } else {
                    answer.result matches Ok(None)
                }
            },
        }
    }

    /// Concludes a read of the distributed cache that was begun at `read_at`. An answer
    /// closes the breaker; a failure trips it, and reaches the caller only where the
    /// options say so. A soft timeout is neither.
    pub fn finish_l2_read<V>(
        &mut self,
        full_key: &String,
        options: &EntryOptions,
        has_fallback: bool,
        outcome: L2Outcome<V>,
        read_at: Timestamp,
        now: Timestamp,
    ) -> (answer: L2Answer<V>)
        ensures
            Cache::concluded_read(
                *old(self),
                *final(self),
                *full_key,
                *options,
                has_fallback,
                outcome,
                read_at,
                now,
                answer,
            ),
    {
        let mut events: Vec<CacheEvent> = Vec::new();
        let err = match outcome {
            L2Outcome::Answered(Ok(found)) => {
                self.close_circuit_l2(&mut events);
                assert(events@ =~= closing_events(
                    old(self).circuit_l2,
                    CircuitComponent::Distributed,
                ));
                let entry = match found {
                    Some(dist) => Some(dist.into_entry(read_at)),
                    None => None,
                };
                return L2Answer { result: Ok(entry), events };
            },
            L2Outcome::Answered(Err(err)) => err,
            L2Outcome::TimedOut => {
                let timeout = options.appropriate_distributed_timeout(has_fallback);
                if options.is_fail_safe_enabled() && has_fallback && timeout
                    == options.distributed_soft_timeout() {
                    return L2Answer { result: Ok(None), events };
                }
                Error::Distributed(String::from_str("l2 read timed out"))
            },
        };
        self.on_l2_error(full_key, &err, &mut events, now);
        assert(events@ =~= codec_events(*full_key, err) + opening_events(
            old(self).circuit_l2,
            CircuitComponent::Distributed,
        ));
        let rethrow = match &err {
            Error::Serialization(_) => options.rethrow_serialization_exceptions(),
            Error::Deserialization(_) => options.rethrow_serialization_exceptions(),
            _ => options.rethrow_distributed_exceptions(),
        };
        if rethrow {
            L2Answer { result: Err(err), events }
        } else {
            L2Answer { result: Ok(None), events }
        }
    }

    /// Plans a write to the distributed cache: none without one; while its breaker is open
    /// the write is queued for recovery instead.
    pub fn plan_l2_write(
        &mut self,
        full_key: &String,
        options: &EntryOptions,
        now: Timestamp,
    ) -> (plan: L2Write)
        ensures
            if !old(self).settings.has_distributed {
                plan is Skip && *final(self) == *old(self)
            } else if !old(self).circuit_l2.lets_through(now) {
                &&& plan is Skip
                &&& offered(
                    old(self).recovery,
                    final(self).recovery,
                    full_key@,
                    RecoveryAction::Put,
                    now,
                )
                &&& *final(self) == (Cache { recovery: final(self).recovery, ..*old(self) })
            } else {
                &&& *final(self) == (Cache {
                    circuit_l2: old(self).circuit_l2.consulted(now),
                    ..*old(self)
                })
                &&& plan matches L2Write::Write { key, ttl, background } && {
                    &&& key@ == versioned(
                        old(self).settings.distributed_key_modifier_mode,
                        old(self).settings.distributed_wire_version@,
                        full_key@,
                    )
                    &&& ttl == options.distributed_lifetime()
                    &&& background == options.allow_background_distributed_operations
                }
            },
    {
        if !self.settings.has_distributed {
            return L2Write::Skip;
        }
        if !self.circuit_l2.is_closed(now) {
            self.enqueue_recovery(full_key, RecoveryAction::Put, now);
            return L2Write::Skip;
        }
        L2Write::Write {
            key: self.l2_key(full_key.as_str()),
            ttl: options.distributed_physical_ttl(),
            background: options.allow_background_distributed_operations(),
        }
    }

    /// Whether `after` and `events` are what follows an operation on the distributed cache:
    /// a success closes the breaker, a failure trips it and queues the operation.
    pub open spec fn concluded_l2(
        before: Cache,
        after: Cache,
        events: Seq<CacheEvent>,
        full_key: String,
        action: RecoveryAction,
        result: Result<(), Error>,
        queued_at: Timestamp,
        now: Timestamp,
    ) -> bool {
        match result {
            Ok(()) => {
                &&& after == (Cache { circuit_l2: before.circuit_l2.forced_closed(), ..before })
                &&& events == closing_events(before.circuit_l2, CircuitComponent::Distributed)
            },
            Err(err) => {
                &&& after == (Cache {
                    circuit_l2: before.circuit_l2.tripped(now),
                    recovery: after.recovery,
                    ..before
                })
                &&& offered(before.recovery, after.recovery, full_key@, action, queued_at)
                &&& events == codec_events(full_key, err) + opening_events(
                    before.circuit_l2,
                    CircuitComponent::Distributed,
                )
            },
        }
    }

    fn conclude_l2(
        &mut self,
        full_key: &String,
        action: RecoveryAction,
        result: Result<(), Error>,
        queued_at: Timestamp,
        now: Timestamp,
    ) -> (events: Vec<CacheEvent>)
        ensures
            Cache::concluded_l2(
                *old(self),
                *final(self),
                events@,
                *full_key,
                action,
                result,
                queued_at,
                now,
            ),
    {
        let mut events: Vec<CacheEvent> = Vec::new();
        match result {
            Ok(()) => {
                self.close_circuit_l2(&mut events);
                assert(events@ =~= closing_events(
                    old(self).circuit_l2,
                    CircuitComponent::Distributed,
                ));
            },
            Err(err) => {
                self.on_l2_error(full_key, &err, &mut events, now);
                assert(events@ =~= codec_events(*full_key, err) + opening_events(
                    old(self).circuit_l2,
                    CircuitComponent::Distributed,
                ));
                self.enqueue_recovery(full_key, action, queued_at);
            },
        }
        events
    }

    /// Concludes a write to the distributed cache.
    pub fn finish_l2_write(
        &mut self,
        full_key: &String,
        result: Result<(), Error>,
        now: Timestamp,
    ) -> (events: Vec<CacheEvent>)
        ensures
            Cache::concluded_l2(
                *old(self),
                *final(self),
                events@,
                *full_key,
                RecoveryAction::Put,
                result,
                now,
                now,
            ),
    {
        self.conclude_l2(full_key, RecoveryAction::Put, result, now, now)
    }

    /// Plans a removal from the distributed cache: the key to remove, if there is one; while
    /// the breaker is open the removal is queued for recovery instead.
    pub fn plan_l2_remove(&mut self, full_key: &String, now: Timestamp) -> (key: Option<String>)
        ensures
            if !old(self).settings.has_distributed {
                key is None && *final(self) == *old(self)
            } else if !old(self).circuit_l2.lets_through(now) {
                &&& key is None
                &&& offered(
                    old(self).recovery,
                    final(self).recovery,
                    full_key@,
                    RecoveryAction::Remove,
                    now,
                )
                &&& *final(self) == (Cache { recovery: final(self).recovery, ..*old(self) })
            } else {
                &&& *final(self) == (Cache {
                    circuit_l2: old(self).circuit_l2.consulted(now),
                    ..*old(self)
                })
                &&& key matches Some(k) && k@ == versioned(
                    old(self).settings.distributed_key_modifier_mode,
                    old(self).settings.distributed_wire_version@,
                    full_key@,
                )
            },
    {
        if !self.settings.has_distributed {
            return None;
        }
        if !self.circuit_l2.is_closed(now) {
            self.enqueue_recovery(full_key, RecoveryAction::Remove, now);
            return None;
        }
        Some(self.l2_key(full_key.as_str()))
    }

    /// Concludes a removal from the distributed cache that was planned at `planned_at`.
    pub fn finish_l2_remove(
        &mut self,
        full_key: &String,
        result: Result<(), Error>,
        planned_at: Timestamp,
        now: Timestamp,
    ) -> (events: Vec<CacheEvent>)
        ensures
            Cache::concluded_l2(
                *old(self),
                *final(self),
                events@,
                *full_key,
                RecoveryAction::Remove,
                result,
                planned_at,
                now,
            ),
    {
        self.conclude_l2(full_key, RecoveryAction::Remove, result, planned_at, now)
    }

    /// Plans an announcement to the other nodes: none without a backplane; while its breaker
    /// is open the operation is queued for recovery instead.
    pub fn plan_publish(
        &mut self,
        action: BackplaneAction,
        full_key: &String,
        options: &EntryOptions,
        now: Timestamp,
    ) -> (plan: Publish)
        ensures
            if !old(self).settings.has_backplane {
                plan is Skip && *final(self) == *old(self)
            } else if !old(self).circuit_backplane.lets_through(now) {
                &&& plan is Skip
                &&& offered(
                    old(self).recovery,
                    final(self).recovery,
                    full_key@,
                    replay_of(action),
                    now,
                )
                &&& *final(self) == (Cache { recovery: final(self).recovery, ..*old(self) })
            } else {
                &&& plan == (Publish::Send {
                    background: options.allow_background_backplane_operations,
                })
                &&& *final(self) == (Cache {
                    circuit_backplane: old(self).circuit_backplane.consulted(now),
                    ..*old(self)
                })
            },
    {
        if !self.settings.has_backplane {
            return Publish::Skip;
        }
        if !self.circuit_backplane.is_closed(now) {
            self.enqueue_recovery(full_key, recovery_action_of(action), now);
            return Publish::Skip;
        }
        Publish::Send { background: options.allow_background_backplane_operations() }
    }

    /// The message that announces `action` on `full_key`, signed with this instance's id.
    pub fn message(&self, action: BackplaneAction, full_key: &String, at: Timestamp) -> (message:
        BackplaneMessage)
        ensures
            message == (BackplaneMessage {
                source_id: self.settings.instance_id,
                timestamp: at,
                action,
                key: *full_key,
            }),
    {
        BackplaneMessage {
            source_id: self.settings.instance_id.clone(),
            timestamp: at,
            action,
            key: full_key.clone(),
        }
    }

    /// Concludes an announcement made at `now`.
    pub fn finish_publish(
        &mut self,
        action: BackplaneAction,
        full_key: &String,
        sent: bool,
        now: Timestamp,
    ) -> (events: Vec<CacheEvent>)
        ensures
            if sent {
                &&& *final(self) == (Cache {
                    circuit_backplane: old(self).circuit_backplane.forced_closed(),
                    ..*old(self)
                })
                &&& events@ == closing_events(
                    old(self).circuit_backplane,
                    CircuitComponent::Backplane,
                ).push(CacheEvent::MessagePublished { key: *full_key })
            } else {
                &&& *final(self) == (Cache {
                    circuit_backplane: old(self).circuit_backplane.tripped(now),
                    recovery: final(self).recovery,
                    ..*old(self)
                })
                &&& offered(
                    old(self).recovery,
                    final(self).recovery,
                    full_key@,
                    replay_of(action),
                    now,
                )
                &&& events@ == opening_events(
                    old(self).circuit_backplane,
                    CircuitComponent::Backplane,
                )
            },
    {
        let mut events: Vec<CacheEvent> = Vec::new();
        if sent {
            self.close_circuit_backplane(&mut events);
            events.push(CacheEvent::MessagePublished { key: full_key.clone() });
            assert(events@ =~= closing_events(
                old(self).circuit_backplane,
                CircuitComponent::Backplane,
            ).push(CacheEvent::MessagePublished { key: *full_key }));
        } else {
            if self.circuit_backplane.trip(now) {
                events.push(
                    CacheEvent::CircuitBreakerChange {
                        component: CircuitComponent::Backplane,
                        closed: false,
                    },
                );
            }
            assert(events@ =~= opening_events(
                old(self).circuit_backplane,
                CircuitComponent::Backplane,
            ));
            self.enqueue_recovery(full_key, recovery_action_of(action), now);
        }
        events
    }

    /// What replaying an operation takes, given the entry that memory holds for its key: a
    /// write is repeated only if there is still something to write, a removal always, and
    /// each is announced again with the time at which it first happened.
    pub fn replay_steps<V>(
        &self,
        item: &RecoveryItem,
        held: Option<&Entry<V>>,
    ) -> (steps: ReplaySteps)
        ensures
            match steps.write {
                Some((key, ttl)) => {
                    &&& item.action is Put && self.settings.has_distributed
                    &&& held matches Some(entry) && ttl == entry.meta.backend_ttl
                    &&& key@ == versioned(
                        self.settings.distributed_key_modifier_mode,
                        self.settings.distributed_wire_version@,
                        item.key@,
                    )
                },
                None => !(item.action is Put && self.settings.has_distributed && held is Some),
            },
            match steps.remove {
                Some(key) => {
                    &&& item.action is Remove && self.settings.has_distributed
                    &&& key@ == versioned(
                        self.settings.distributed_key_modifier_mode,
                        self.settings.distributed_wire_version@,
                        item.key@,
                    )
                },
                None => !(item.action is Remove && self.settings.has_distributed),
            },
            match steps.announce {
                Some(message) => {
                    &&& self.settings.has_backplane
                    &&& replay_of(message.action) == item.action
                    &&& message.key == item.key
                    &&& message.timestamp == item.timestamp
                    &&& message.source_id == self.settings.instance_id
                },
                None => !self.settings.has_backplane,
            },
    {
        let action = match item.action {
            RecoveryAction::Put => BackplaneAction::Put,
            RecoveryAction::Remove => BackplaneAction::Remove,
            RecoveryAction::Expire => BackplaneAction::Expire,
        };
        let mut write: Option<(String, Duration)> = None;
        let mut remove: Option<String> = None;
        if self.settings.has_distributed {
            match item.action {
                RecoveryAction::Put => {
                    if let Some(entry) = held {
                        write = Some((self.l2_key(item.key.as_str()), entry.backend_ttl()));
                    }
                },
                RecoveryAction::Remove => {
                    remove = Some(self.l2_key(item.key.as_str()));
                },
                RecoveryAction::Expire => {},
            }
        }
        let announce = if self.settings.has_backplane {
            Some(self.message(action, &item.key, item.timestamp))
        } else {
            None
        };
        ReplaySteps { write, remove, announce }
    }
}

/// A distributed read that is only cut short in favour of a fallback leaves the breaker as
/// it was; a read that fails trips it.
pub proof fn law_soft_timeout_is_benign<V>(
    before: Cache,
    after: Cache,
    full_key: String,
    options: EntryOptions,
    has_fallback: bool,
    read_at: Timestamp,
    now: Timestamp,
    answer: L2Answer<V>,
)
    requires
        Cache::concluded_read(
            before,
            after,
            full_key,
            options,
            has_fallback,
            L2Outcome::TimedOut,
            read_at,
            now,
            answer,
        ),
    ensures
        is_soft_timeout(options, has_fallback) ==> after == before && answer.result is Ok,
        !is_soft_timeout(options, has_fallback) ==> after.circuit_l2 == before.circuit_l2.tripped(
            now,
        ),
        !options.rethrow_distributed_exceptions ==> answer.result is Ok,
{
}

/// A failed operation is not lost: if there is a recovery queue that takes any number, and it
/// holds no later operation on the key, it holds this one now.
pub proof fn law_failed_operation_is_queued(
    before: Option<AutoRecoveryService>,
    after: Option<AutoRecoveryService>,
    key: Seq<char>,
    action: RecoveryAction,
    now: Timestamp,
)
    requires
        offered(before, after, key, action, now),
        before matches Some(service) && service.settings().enabled
            && service.settings().max_items is None && (service@.contains_key(key)
            ==> service@[key].timestamp.0 < now.0),
    ensures
        after matches Some(service) && service@.contains_key(key) && service@[key].action == action
            && service@[key].timestamp == now && service@.dom() =~= before->0@.dom().insert(key),
{
}

/// Whether a breaker keeps operations out at `now`: it has a span, was tripped, and the span has
/// not passed.
pub open spec fn is_open(breaker: CircuitBreaker, now: Timestamp) -> bool {
    breaker.open_ticks != 0 && (breaker.closes_at matches Some(at) && now.0 < at)
}

/// Whether a recovery queue that takes anything new would hold an operation on `key` that
/// happened at `now` once it was offered.
pub open spec fn takes(queue: Option<AutoRecoveryService>, key: Seq<char>, now: Timestamp) -> bool {
    &&& queue matches Some(service)
    &&& service.settings().enabled
    &&& service.settings().max_items is None
    &&& service@.contains_key(key) ==> service@[key].timestamp.0 < now.0
}

/// Whether a recovery queue holds an operation on `key` that happened at `at` and stays worth
/// replaying for ten minutes.
pub open spec fn holds(
    queue: Option<AutoRecoveryService>,
    key: Seq<char>,
    action: RecoveryAction,
    at: Timestamp,
) -> bool {
    &&& queue matches Some(service)
    &&& service@.contains_key(key)
    &&& service@[key].action == action
    &&& service@[key].timestamp == at
    &&& service@[key].expires_at == later_by(at, Duration { nanos: 600_000_000_000 })
}

/// A read of the distributed cache is made exactly if there is one and its breaker is not open,
/// of the key's distributed key, and waited for as long as the options say.
pub proof fn law_distributed_read_is_made_unless_blocked(
    cache: &mut Cache,
    key: &str,
    options: EntryOptions,
    has_fallback: bool,
    now: Timestamp,
    wait: Timeout,
    plan: Option<L2Read>,
)
    requires
        call_ensures(Cache::plan_l2_read, (cache, key, &options, has_fallback, now), plan),
        call_ensures(
            EntryOptions::appropriate_distributed_timeout,
            (&options, has_fallback),
            wait,
        ),
    ensures
        plan is Some <==> old(cache).settings.has_distributed && !is_open(
            old(cache).circuit_l2,
            now,
        ),
        plan matches Some(read) ==> {
            &&& read.timeout == wait
            &&& read.key@ == versioned(
                old(cache).settings.distributed_key_modifier_mode,
                old(cache).settings.distributed_wire_version@,
                key@,
            )
        },
        final(cache).settings == old(cache).settings,
        final(cache).tags == old(cache).tags,
        final(cache).recovery == old(cache).recovery,
{
}

/// A write to the distributed cache is made exactly if there is one and its breaker is not open:
/// under the key's distributed key, to be kept as long as the options say, and waited for unless
/// they allow otherwise. A write that an open breaker keeps back is queued.
pub proof fn law_distributed_write_is_made_or_queued(
    cache: &mut Cache,
    key: String,
    options: EntryOptions,
    now: Timestamp,
    kept: Duration,
    plan: L2Write,
)
    requires
        call_ensures(Cache::plan_l2_write, (cache, &key, &options, now), plan),
        call_ensures(EntryOptions::distributed_physical_ttl, (&options,), kept),
    ensures
        plan is Write <==> old(cache).settings.has_distributed && !is_open(
            old(cache).circuit_l2,
            now,
        ),
        plan matches L2Write::Write { key: under, ttl, background } ==> {
            &&& under@ == versioned(
                old(cache).settings.distributed_key_modifier_mode,
                old(cache).settings.distributed_wire_version@,
                key@,
            )
            &&& ttl == kept
            &&& background == options.allow_background_distributed_operations
            &&& final(cache).recovery == old(cache).recovery
        },
        old(cache).settings.has_distributed && is_open(old(cache).circuit_l2, now) && takes(
            old(cache).recovery,
            key@,
            now,
        ) ==> holds(final(cache).recovery, key@, RecoveryAction::Put, now),
        !old(cache).settings.has_distributed ==> *final(cache) == *old(cache),
        final(cache).settings == old(cache).settings,
        final(cache).tags == old(cache).tags,
{
}

/// A removal from the distributed cache is made exactly if there is one and its breaker is not
/// open; a removal that an open breaker keeps back is queued.
pub proof fn law_distributed_removal_is_made_or_queued(
    cache: &mut Cache,
    key: String,
    now: Timestamp,
    plan: Option<String>,
)
    requires
        call_ensures(Cache::plan_l2_remove, (cache, &key, now), plan),
    ensures
        plan is Some <==> old(cache).settings.has_distributed && !is_open(
            old(cache).circuit_l2,
            now,
        ),
        plan matches Some(under) ==> {
            &&& under@ == versioned(
                old(cache).settings.distributed_key_modifier_mode,
                old(cache).settings.distributed_wire_version@,
                key@,
            )
            &&& final(cache).recovery == old(cache).recovery
        },
        old(cache).settings.has_distributed && is_open(old(cache).circuit_l2, now) && takes(
            old(cache).recovery,
            key@,
            now,
        ) ==> holds(final(cache).recovery, key@, RecoveryAction::Remove, now),
        !old(cache).settings.has_distributed ==> *final(cache) == *old(cache),
        final(cache).settings == old(cache).settings,
        final(cache).tags == old(cache).tags,
{
}

/// The other nodes are told exactly if there is a backplane and its breaker is not open, and
/// waited for unless the options allow otherwise. What an open breaker keeps back is queued as
/// what it was.
pub proof fn law_announcement_is_made_or_queued(
    cache: &mut Cache,
    action: BackplaneAction,
    key: String,
    options: EntryOptions,
    now: Timestamp,
    plan: Publish,
)
    requires
        call_ensures(Cache::plan_publish, (cache, action, &key, &options, now), plan),
    ensures
        plan is Send <==> old(cache).settings.has_backplane && !is_open(
            old(cache).circuit_backplane,
            now,
        ),
        plan matches Publish::Send { background } ==> {
            &&& background == options.allow_background_backplane_operations
            &&& final(cache).recovery == old(cache).recovery
        },
        old(cache).settings.has_backplane && is_open(old(cache).circuit_backplane, now) && takes(
            old(cache).recovery,
            key@,
            now,
        ) ==> {
            &&& action is Put ==> holds(final(cache).recovery, key@, RecoveryAction::Put, now)
            &&& action is Remove ==> holds(final(cache).recovery, key@, RecoveryAction::Remove, now)
            &&& action is Expire ==> holds(final(cache).recovery, key@, RecoveryAction::Expire, now)
        },
        !old(cache).settings.has_backplane ==> *final(cache) == *old(cache),
        final(cache).settings == old(cache).settings,
        final(cache).tags == old(cache).tags,
{
}

/// How a write or a removal of the distributed cache went: a success closes the breaker, which is
/// reported if it was open, and queues nothing; a failure opens it for its span, which is reported
/// if it was closed, and the operation is queued as what it was, a removal under the instant at
/// which it was planned.
pub proof fn law_failed_distributed_operation_is_queued(
    wrote: &mut Cache,
    removed: &mut Cache,
    key: String,
    result: Result<(), Error>,
    planned_at: Timestamp,
    now: Timestamp,
    write_events: Vec<CacheEvent>,
    remove_events: Vec<CacheEvent>,
)
    requires
        call_ensures(Cache::finish_l2_write, (wrote, &key, result, now), write_events),
        call_ensures(
            Cache::finish_l2_remove,
            (removed, &key, result, planned_at, now),
            remove_events,
        ),
    ensures
        result is Ok ==> {
            &&& !is_open(final(wrote).circuit_l2, now) && !is_open(final(removed).circuit_l2, now)
            &&& final(wrote).circuit_l2.closes_at is None
            &&& final(removed).circuit_l2.closes_at is None
            &&& final(wrote).recovery == old(wrote).recovery
            &&& final(removed).recovery == old(removed).recovery
            &&& write_events@.len() == (if old(wrote).circuit_l2.closes_at is Some {
                1int
            } else {
                0
            })
            &&& remove_events@.len() == (if old(removed).circuit_l2.closes_at is Some {
                1int
            } else {
                0
            })
        },
        result is Err ==> {
            &&& old(wrote).circuit_l2.open_ticks > 0 && now.0 + old(wrote).circuit_l2.open_ticks
                <= i64::MAX ==> is_open(final(wrote).circuit_l2, now)
            &&& old(removed).circuit_l2.open_ticks > 0 && now.0 + old(removed).circuit_l2.open_ticks
                <= i64::MAX ==> is_open(final(removed).circuit_l2, now)
            &&& takes(old(wrote).recovery, key@, now) ==> holds(
                final(wrote).recovery,
                key@,
                RecoveryAction::Put,
                now,
            )
            &&& takes(old(removed).recovery, key@, planned_at) ==> holds(
                final(removed).recovery,
                key@,
                RecoveryAction::Remove,
                planned_at,
            )
        },
        final(wrote).settings == old(wrote).settings,
        final(wrote).tags == old(wrote).tags,
        final(wrote).circuit_backplane == old(wrote).circuit_backplane,
        final(removed).settings == old(removed).settings,
        final(removed).tags == old(removed).tags,
        final(removed).circuit_backplane == old(removed).circuit_backplane,
{
}

/// How an announcement went: what was sent closes the breaker, is reported and queues nothing;
/// what was not opens it for its span and is queued as what it was.
pub proof fn law_failed_announcement_is_queued(
    cache: &mut Cache,
    action: BackplaneAction,
    key: String,
    sent: bool,
    now: Timestamp,
    events: Vec<CacheEvent>,
)
    requires
        call_ensures(Cache::finish_publish, (cache, action, &key, sent, now), events),
    ensures
        events@.contains(CacheEvent::MessagePublished { key }) <==> sent,
        sent ==> {
            &&& final(cache).circuit_backplane.closes_at is None
            &&& final(cache).recovery == old(cache).recovery
        },
        !sent ==> {
            &&& old(cache).circuit_backplane.open_ticks > 0 && now.0 + old(
                cache,
            ).circuit_backplane.open_ticks <= i64::MAX ==> is_open(
                final(cache).circuit_backplane,
                now,
            )
            &&& takes(old(cache).recovery, key@, now) ==> {
                &&& action is Put ==> holds(final(cache).recovery, key@, RecoveryAction::Put, now)
                &&& action is Remove ==> holds(
                    final(cache).recovery,
                    key@,
                    RecoveryAction::Remove,
                    now,
                )
                &&& action is Expire ==> holds(
                    final(cache).recovery,
                    key@,
                    RecoveryAction::Expire,
                    now,
                )
            }
        },
        final(cache).settings == old(cache).settings,
        final(cache).tags == old(cache).tags,
        final(cache).circuit_l2 == old(cache).circuit_l2,
{
    if sent {
        assert(events@.last() == CacheEvent::MessagePublished { key });
    }
}

/// How a read of the distributed cache went. What was found is what the answer holds, and an
/// answer of either kind closes the breaker. An error opens it for its span, and reaches the
/// caller exactly if the options say so for its kind; otherwise it counts as nothing found. A
/// wait that was over opens it too, unless it was only cut short in favour of a fallback.
pub proof fn law_distributed_answer_is_taken_as_it_came<V>(
    cache: &mut Cache,
    key: String,
    options: EntryOptions,
    has_fallback: bool,
    outcome: L2Outcome<V>,
    read_at: Timestamp,
    now: Timestamp,
    wait: Timeout,
    answer: L2Answer<V>,
)
    requires
        call_ensures(
            Cache::finish_l2_read::<V>,
            (cache, &key, &options, has_fallback, outcome, read_at, now),
            answer,
        ),
        call_ensures(
            EntryOptions::appropriate_distributed_timeout,
            (&options, has_fallback),
            wait,
        ),
    ensures
        outcome matches L2Outcome::Answered(Ok(found)) ==> {
            &&& final(cache).circuit_l2.closes_at is None
            &&& answer.result matches Ok(entry)
            &&& entry is Some == found is Some
            &&& found matches Some(dist) ==> {
                &&& *entry->0.value == dist.value
                &&& entry->0.meta.created.0 == dist.created_ticks
                &&& entry->0.meta.logical_expiration.0 == dist.logical_expiration_ticks
                &&& entry->0.meta.physical_expiration.0 == dist.physical_expiration_ticks
                &&& entry->0.meta.is_from_fail_safe == dist.is_from_fail_safe
                &&& entry->0.meta.etag == dist.etag
            }
        },
        outcome matches L2Outcome::Answered(Err(err)) ==> {
            let codec = err is Serialization || err is Deserialization;
            let told = if codec {
                options.rethrow_serialization_exceptions
            } else {
                options.rethrow_distributed_exceptions
            };
            &&& told ==> answer.result == Err::<Option<Entry<V>>, Error>(err)
            &&& !told ==> answer.result == Ok::<Option<Entry<V>>, Error>(None)
        },
        outcome is TimedOut ==> {
            let benign = options.is_fail_safe_enabled && has_fallback && wait
                == options.distributed_soft_timeout;
            &&& benign ==> *final(cache) == *old(cache) && answer.result == Ok::<
                Option<Entry<V>>,
                Error,
            >(None)
            &&& !benign && !options.rethrow_distributed_exceptions ==> answer.result == Ok::<
                Option<Entry<V>>,
                Error,
            >(None)
            &&& !benign && options.rethrow_distributed_exceptions ==> (
            answer.result matches Err(err) && err is Distributed)
            &&& !benign && old(cache).circuit_l2.open_ticks > 0 && now.0 + old(
                cache,
            ).circuit_l2.open_ticks <= i64::MAX ==> is_open(final(cache).circuit_l2, now)
        },
        outcome matches L2Outcome::Answered(Err(_)) ==> (old(cache).circuit_l2.open_ticks > 0
            && now.0 + old(cache).circuit_l2.open_ticks <= i64::MAX ==> is_open(
            final(cache).circuit_l2,
            now,
        )),
        final(cache).settings == old(cache).settings,
        final(cache).tags == old(cache).tags,
        final(cache).recovery == old(cache).recovery,
        final(cache).circuit_backplane == old(cache).circuit_backplane,
{
}

/// A replay makes up for what failed: a write is written again from what memory holds, for the
/// time it has left, a removal is removed again, and whatever it was is announced again as what it
/// was, under the instant at which it happened.
pub proof fn law_replay_repeats_the_operation<V>(
    cache: Cache,
    item: RecoveryItem,
    held: Option<&Entry<V>>,
    steps: ReplaySteps,
)
    requires
        call_ensures(Cache::replay_steps::<V>, (&cache, &item, held), steps),
    ensures
        ({
            let key = versioned(
                cache.settings.distributed_key_modifier_mode,
                cache.settings.distributed_wire_version@,
                item.key@,
            );
            &&& steps.write is Some <==> item.action is Put && cache.settings.has_distributed
                && held is Some
            &&& steps.write matches Some((under, ttl)) ==> under@ == key && ttl
                == held->0.meta.backend_ttl
            &&& steps.remove is Some <==> item.action is Remove && cache.settings.has_distributed
            &&& steps.remove matches Some(under) ==> under@ == key
            &&& steps.announce is Some <==> cache.settings.has_backplane
            &&& steps.announce matches Some(message) ==> {
                &&& message.action is Put <==> item.action is Put
                &&& message.action is Remove <==> item.action is Remove
                &&& message.action is Expire <==> item.action is Expire
                &&& message.key == item.key
                &&& message.timestamp == item.timestamp
                &&& message.source_id == cache.settings.instance_id
            }
        }),
{
}

/// A message says what happened, to which key and when, and carries the sender's id, by which
/// the sender knows it as its own.
pub proof fn law_message_is_signed(
    cache: Cache,
    action: BackplaneAction,
    key: String,
    at: Timestamp,
    message: BackplaneMessage,
    own: bool,
)
    requires
        call_ensures(Cache::message, (&cache, action, &key, at), message),
        call_ensures(Cache::is_own_message, (&cache, &message), own),
    ensures
        message.action == action,
        message.key == key,
        message.timestamp == at,
        message.source_id == cache.settings.instance_id,
        own,
{
}

/// A breaker that opens or closes is reported once, as what it did and of what it guards, and
/// nothing else is reported of it; an error in encoding or decoding is reported with its message.
pub proof fn law_breaker_changes_are_reported(
    distributed: &mut Cache,
    key: String,
    result: Result<(), Error>,
    now: Timestamp,
    events: Vec<CacheEvent>,
    backplane: &mut Cache,
    action: BackplaneAction,
    sent: bool,
    told: Vec<CacheEvent>,
)
    requires
        call_ensures(Cache::finish_l2_write, (distributed, &key, result, now), events),
        call_ensures(Cache::finish_publish, (backplane, action, &key, sent, now), told),
    ensures
        ({
            let breaker = old(distributed).circuit_l2;
            let component = CircuitComponent::Distributed;
            let closing = CacheEvent::CircuitBreakerChange { component, closed: true };
            let opening = CacheEvent::CircuitBreakerChange { component, closed: false };
            &&& events@.contains(closing) <==> result is Ok && breaker.closes_at is Some
            &&& events@.contains(opening) <==> result is Err && breaker.open_ticks != 0
                && breaker.closes_at is None
            &&& result matches Err(Error::Serialization(message)) ==> events@.contains(
                CacheEvent::SerializationError { key, message },
            )
            &&& result matches Err(Error::Deserialization(message)) ==> events@.contains(
                CacheEvent::DeserializationError { key, message },
            )
        }),
        ({
            let breaker = old(backplane).circuit_backplane;
            let component = CircuitComponent::Backplane;
            let closing = CacheEvent::CircuitBreakerChange { component, closed: true };
            let opening = CacheEvent::CircuitBreakerChange { component, closed: false };
            &&& told@.contains(closing) <==> sent && breaker.closes_at is Some
            &&& told@.contains(opening) <==> !sent && breaker.open_ticks != 0 && breaker.closes_at
                is None
        }),
{
    let breaker = old(distributed).circuit_l2;
    match result {
        Ok(()) => {
            if breaker.closes_at is Some {
                assert(events@[0] is CircuitBreakerChange);
            }
        },
        Err(err) => {
            let codec = codec_events(key, err);
            let opening = opening_events(breaker, CircuitComponent::Distributed);
            if codec.len() > 0 {
                assert(events@[0] == codec[0]);
            }
            if opening.len() > 0 {
                assert(events@.last() == opening[0]);
            }
        },
    }
    let other = old(backplane).circuit_backplane;
    if sent {
        if other.closes_at is Some {
            assert(told@[0] is CircuitBreakerChange);
        }
    } else if other.open_ticks != 0 && other.closes_at is None {
        assert(told@[0] is CircuitBreakerChange);
    }
}

} // verus!
