//! Auto-recovery: operations that failed are queued and replayed.
//!
//! The queue holds at most one operation per key, the latest. It may be bounded, in
//! which case the operation that expires soonest gives way; and each operation may
//! have a budget of retries.
use crate::error::Error;
use crate::maps::{
    count_pending, get_pending, new_pending, pending_in, pending_keys, put_pending, remove_pending,
};
use crate::time::{Duration, Timestamp};
use dashmap::DashMap;
use vstd::prelude::*;

verus! {

/// The kind of operation to replay.
#[derive(Debug, Clone, Copy, PartialEq, Eq, Structural)]
pub enum RecoveryAction {
    /// Write the entry again and announce it again.
    Put,
    /// Remove the key again and announce it again.
    Remove,
    /// Announce an expiry again.
    Expire,
}

/// An operation to be replayed.
#[derive(Debug)]
pub struct RecoveryItem {
    /// The full cache key.
    pub key: String,
    /// What to replay.
    pub action: RecoveryAction,
    /// When the operation happened.
    pub timestamp: Timestamp,
    /// When it is not worth replaying any more.
    pub expires_at: Timestamp,
    /// How many replays may still fail; `None` for any number.
    pub remaining_retries: Option<u32>,
}

/// What the queue holds for a key.
#[derive(Debug, Clone, Copy, PartialEq, Eq, Structural)]
pub struct Pending {
    /// What to replay.
    pub action: RecoveryAction,
    /// When the operation happened.
    pub timestamp: Timestamp,
    /// When it is not worth replaying any more.
    pub expires_at: Timestamp,
    /// How many replays may still fail; `None` for any number.
    pub remaining_retries: Option<u32>,
}

impl RecoveryItem {
    /// What the queue would hold for the item's key.
    pub open spec fn pending(self) -> Pending {
        Pending {
            action: self.action,
            timestamp: self.timestamp,
            expires_at: self.expires_at,
            remaining_retries: self.remaining_retries,
        }
    }
}

/// How the queue behaves.
#[derive(Debug, Clone, Copy)]
pub struct RecoveryConfig {
    /// The master switch.
    pub enabled: bool,
    /// The delay between two passes over the queue.
    pub delay: Duration,
    /// The most operations the queue holds; `None` for any number.
    pub max_items: Option<usize>,
    /// The most replays of one operation that may fail; `None` for any number.
    pub max_retries: Option<u32>,
}

impl Default for RecoveryConfig {
    fn default() -> (config: RecoveryConfig)
        ensures
            config == (RecoveryConfig {
                enabled: true,
                delay: Duration { nanos: 2_000_000_000 },
                max_items: None,
                max_retries: None,
            }),
    {
        RecoveryConfig {
            enabled: true,
            delay: Duration::from_secs(2),
            max_items: None,
            max_retries: None,
        }
    }
}

impl RecoveryConfig {
    /// The time between two passes over the queue: the configured delay, but not less
    /// than fifty milliseconds.
    pub fn pass_interval(&self) -> (interval: Duration)
        ensures
            interval.nanos == (if self.delay.nanos >= 50_000_000 {
                self.delay.nanos
            } else {
                50_000_000
            }),
    {
        self.delay.max(Duration::from_millis(50))
    }
}

/// Replays an operation. Implemented by whoever can redo the write and the announcement.
pub trait RecoveryExecutor {
    /// Replays one operation; an error keeps it queued.
    fn replay(&self, item: &RecoveryItem) -> Result<(), Error>;
}

/// What an operation is queued as: with the configured budget where it has none.
pub open spec fn seeded(config: RecoveryConfig, pending: Pending) -> Pending {
    if pending.remaining_retries is None {
        Pending { remaining_retries: config.max_retries, ..pending }
    } else {
        pending
    }
}

/// Whether an operation is outdated by what the queue holds for its key.
pub open spec fn outdated(
    queue: Map<Seq<char>, Pending>,
    key: Seq<char>,
    pending: Pending,
) -> bool {
    queue.contains_key(key) && queue[key].timestamp.0 >= pending.timestamp.0
}

/// Whether no operation in the queue expires before that of `key`.
pub open spec fn expires_first(queue: Map<Seq<char>, Pending>, key: Seq<char>) -> bool {
    &&& queue.contains_key(key)
    &&& forall|other: Seq<char>| #[trigger]
        queue.contains_key(other) ==> queue[key].expires_at.0 <= queue[other].expires_at.0
}

/// Whether `after` is the queue once room was made for an operation that expires at
/// `bound`: one that expires first is gone, if it expires before `bound`.
pub open spec fn made_room(
    queue: Map<Seq<char>, Pending>,
    bound: Timestamp,
    after: Map<Seq<char>, Pending>,
) -> bool {
    ||| exists|key: Seq<char>| #[trigger]
        expires_first(queue, key) && queue[key].expires_at.0 < bound.0 && after == queue.remove(key)
    ||| after == queue && forall|key: Seq<char>| #[trigger]
        queue.contains_key(key) ==> queue[key].expires_at.0 >= bound.0
}

/// Whether the queue is full for a key it does not hold.
pub open spec fn is_full_for(
    config: RecoveryConfig,
    queue: Map<Seq<char>, Pending>,
    key: Seq<char>,
) -> bool {
    !queue.contains_key(key) && (config.max_items matches Some(max) && queue.dom().len() >= max)
}

/// Whether `after` is the queue once an operation was offered to it.
pub open spec fn enqueued(
    config: RecoveryConfig,
    queue: Map<Seq<char>, Pending>,
    key: Seq<char>,
    pending: Pending,
    after: Map<Seq<char>, Pending>,
) -> bool {
    if !config.enabled || outdated(queue, key, pending) {
        after == queue
    } else if is_full_for(config, queue, key) {
        exists|room: Map<Seq<char>, Pending>| #[trigger]
            made_room(queue, pending.expires_at, room) && after == if is_full_for(
                config,
                room,
                key,
            ) {
                room
            } else {
                room.insert(key, seeded(config, pending))
            }
    } else {
        after == queue.insert(key, seeded(config, pending))
    }
}

/// The queue once a replay of `key` has failed: the budget shrinks, and without one left
/// the operation is given up.
pub open spec fn failed(queue: Map<Seq<char>, Pending>, key: Seq<char>) -> Map<Seq<char>, Pending> {
    if !queue.contains_key(key) {
        queue
    } else {
        match queue[key].remaining_retries {
            None => queue,
            Some(left) => if left == 0 {
                queue.remove(key)
            } else {
                queue.insert(
                    key,
                    Pending { remaining_retries: Some((left - 1) as u32), ..queue[key] },
                )
            },
        }
    }
}

/// The queue once `key` was replayed.
pub open spec fn replayed(
    queue: Map<Seq<char>, Pending>,
    key: Seq<char>,
    succeeded: bool,
) -> Map<Seq<char>, Pending> {
    if succeeded {
        queue.remove(key)
    } else {
        failed(queue, key)
    }
}

/// The auto-recovery queue.
#[derive(Debug)]
pub struct AutoRecoveryService {
    config: RecoveryConfig,
    queue: DashMap<String, Pending>,
}

impl View for AutoRecoveryService {
    type V = Map<Seq<char>, Pending>;

    closed spec fn view(&self) -> Map<Seq<char>, Pending> {
        pending_in(self.queue)
    }
}

impl AutoRecoveryService {
    /// How the queue behaves.
    pub closed spec fn settings(self) -> RecoveryConfig {
        self.config
    }

    /// An empty queue.
    pub fn new(config: RecoveryConfig) -> (service: Self)
        ensures
            service.settings() == config,
            service@ == Map::<Seq<char>, Pending>::empty(),
    {
        AutoRecoveryService { config, queue: new_pending() }
    }

    /// How the queue behaves.
    pub fn config(&self) -> (config: RecoveryConfig)
        ensures
            config == self.settings(),
    {
        self.config
    }

    /// Number of queued operations.
    pub fn len(&self) -> (count: usize)
        ensures
            count == self@.dom().len(),
            self@.dom().finite(),
    {
        count_pending(&self.queue)
    }

    /// `true` if nothing is queued.
    pub fn is_empty(&self) -> (empty: bool)
        ensures
            empty == (self@.dom() =~= Set::<Seq<char>>::empty()),
    {
        let count: usize = count_pending(&self.queue);
        proof {
            if count == 0 {
                assert(self@.dom() =~= Set::<Seq<char>>::empty());
            }
        }
        count == 0
    }

    /// Queues an operation, unless the queue holds a later one for its key. A full queue
    /// lets go of the operation that expires soonest, if it expires before the new one,
    /// and otherwise refuses.
    pub fn enqueue(&mut self, item: RecoveryItem)
        ensures
            enqueued(old(self).settings(), old(self)@, item.key@, item.pending(), final(self)@),
            final(self).settings() == old(self).settings(),
    {
        if !self.config.enabled {
            return;
        }
        let existing = get_pending(&self.queue, item.key.as_str());
        if let Some(held) = existing {
            if held.timestamp.ticks() >= item.timestamp.ticks() {
                return;
            }
        }
        if let Some(max) = self.config.max_items {
            if existing.is_none() && count_pending(&self.queue) >= max {
                let ghost before = self@;
                self.evict_one_before(item.expires_at);
                assert(made_room(before, item.pending().expires_at, self@));
                if count_pending(&self.queue) >= max {
                    return;
                }
            }
        }
        let pending = Pending {
            action: item.action,
            timestamp: item.timestamp,
            expires_at: item.expires_at,
            remaining_retries: match item.remaining_retries {
                None => self.config.max_retries,
                Some(left) => Some(left),
            },
        };
        put_pending(&mut self.queue, item.key, pending);
    }

    /// Lets go of the operation that expires soonest, if it expires before `bound`.
    fn evict_one_before(&mut self, bound: Timestamp)
        ensures
            made_room(old(self)@, bound, final(self)@),
            final(self).settings() == old(self).settings(),
            forall|key: Seq<char>|
                !old(self)@.contains_key(key) ==> !#[trigger] final(self)@.contains_key(key),
    {
        let keys = pending_keys(&self.queue);
        let ghost queue = self@;
        let mut victim: Option<(usize, Timestamp)> = None;
        let mut i: usize = 0;
        while i < keys.len()
            invariant
                i <= keys.len(),
                queue == self@,
                forall|j: int| 0 <= j < keys@.len() ==> queue.contains_key(#[trigger] keys@[j]@),
                match victim {
                    Some((at, expires_at)) => at < i && queue[keys@[at as int]@].expires_at
                        == expires_at && forall|j: int|
                        0 <= j < i ==> expires_at.0 <= queue[#[trigger] keys@[j]@].expires_at.0,
                    None => i == 0,
                },
            decreases keys.len() - i,
        {
            if let Some(pending) = get_pending(&self.queue, keys[i].as_str()) {
                let sooner = match victim {
                    Some((_, soonest)) => pending.expires_at.is_before(soonest),
                    None => true,
                };
                if sooner {
                    victim = Some((i, pending.expires_at));
                }
            }
            i += 1;
        }
        match victim {
            Some((at, expires_at)) => {
                assert(expires_first(queue, keys@[at as int]@)) by {
                    assert forall|other: Seq<char>| #[trigger] queue.contains_key(other) implies
                        expires_at.0 <= queue[other].expires_at.0 by {
                        let j = choose|j: int|
                            0 <= j < keys@.len() && #[trigger] keys@[j]@ == other;
                        assert(expires_at.0 <= queue[keys@[j]@].expires_at.0);
                    }
                }
                if expires_at.is_before(bound) {
                    remove_pending(&mut self.queue, keys[at].as_str());
                }
            },
            None => {},
        }
    }

    /// The keys to go through in one pass: every key queued now, once, in no particular
    /// order.
    pub fn pass_keys(&self) -> (keys: Vec<String>)
        ensures
            forall|i: int| 0 <= i < keys@.len() ==> self@.contains_key(#[trigger] keys@[i]@),
            forall|key: Seq<char>| #[trigger]
                self@.contains_key(key) ==> exists|i: int|
                    0 <= i < keys@.len() && #[trigger] keys@[i]@ == key,
            forall|i: int, j: int|
                0 <= i < j < keys@.len() ==> #[trigger] keys@[i]@ != #[trigger] keys@[j]@,
    {
        pending_keys(&self.queue)
    }

    /// The operation to replay for `key` at `now`, if one is queued. One that is not worth
    /// replaying any more is dropped on the way.
    pub fn next_replay(&mut self, key: &str, now: Timestamp) -> (item: Option<RecoveryItem>)
        ensures
            final(self).settings() == old(self).settings(),
            if old(self)@.contains_key(key@) && now.0 < old(self)@[key@].expires_at.0 {
                item matches Some(i) && i.key@ == key@ && i.pending() == old(self)@[key@]
                    && final(self)@ == old(self)@
            } else {
                item is None && final(self)@ == old(self)@.remove(key@)
            },
    {
        match get_pending(&self.queue, key) {
            Some(pending) => {
                if now.is_before(pending.expires_at) {
                    return Some(
                        RecoveryItem {
                            key: String::from_str(key),
                            action: pending.action,
                            timestamp: pending.timestamp,
                            expires_at: pending.expires_at,
                            remaining_retries: pending.remaining_retries,
                        },
                    );
                }
                remove_pending(&mut self.queue, key);
            },
            None => {
                assert(self@ =~= self@.remove(key@));
            },
        }
        None
    }

    /// Takes note of how a replay of `key` went: a success removes the operation, a failure
    /// uses up one retry and removes the operation when none is left.
    pub fn record_replay(&mut self, key: &str, succeeded: bool)
        ensures
            final(self).settings() == old(self).settings(),
            final(self)@ == replayed(old(self)@, key@, succeeded),
    {
        if succeeded {
            remove_pending(&mut self.queue, key);
        } else {
            self.record_failure(key);
        }
    }

    /// Uses up one retry of `key`, dropping the operation when none is left.
    fn record_failure(&mut self, key: &str)
        ensures
            final(self).settings() == old(self).settings(),
            final(self)@ == failed(old(self)@, key@),
    {
        if let Some(pending) = get_pending(&self.queue, key) {
            match pending.remaining_retries {
                None => {},
                Some(left) => {
                    if left == 0 {
                        remove_pending(&mut self.queue, key);
                    } else {
                        put_pending(
                            &mut self.queue,
                            String::from_str(key),
                            Pending { remaining_retries: Some(left - 1), ..pending },
                        );
                    }
                },
            }
        }
    }

    /// Whether `after` is the queue once every operation in `before` was gone through at
    /// `now`: what was not worth replaying is gone, and every other operation was replayed
    /// by `executor` and recorded with the result that came back.
    pub open spec fn drained<E: RecoveryExecutor>(
        before: Map<Seq<char>, Pending>,
        after: Map<Seq<char>, Pending>,
        now: Timestamp,
        executor: E,
    ) -> bool {
        &&& forall|key: Seq<char>| #[trigger] after.contains_key(key) ==> before.contains_key(key)
        &&& forall|key: Seq<char>| #[trigger]
            before.contains_key(key) ==> Self::gone_through(before, after, key, now, executor)
    }

    /// Whether `key` was gone through on the way from `before` to `after`.
    pub open spec fn gone_through<E: RecoveryExecutor>(
        before: Map<Seq<char>, Pending>,
        after: Map<Seq<char>, Pending>,
        key: Seq<char>,
        now: Timestamp,
        executor: E,
    ) -> bool {
        if now.0 >= before[key].expires_at.0 {
            !after.contains_key(key)
        } else {
            exists|item: RecoveryItem, result: Result<(), Error>|
                {
                    &&& #[trigger] call_ensures(E::replay, (&executor, &item), result)
                    &&& item.key@ == key
                    &&& item.pending() == before[key]
                    &&& after.contains_key(key) == replayed(before, key, result is Ok).contains_key(
                        key,
                    )
                    &&& after.contains_key(key) ==> after[key] == replayed(
                        before,
                        key,
                        result is Ok,
                    )[key]
                }
        }
    }

    /// Replays every operation that is queued now once.
    pub fn drain_once<E: RecoveryExecutor>(&mut self, executor: &E, now: Timestamp)
        ensures
            Self::drained(old(self)@, final(self)@, now, *executor),
            final(self).settings() == old(self).settings(),
    {
        let keys = self.pass_keys();
        let ghost before = self@;
        let mut i: usize = 0;
        while i < keys.len()
            invariant
                i <= keys.len(),
                before == old(self)@,
                self.settings() == old(self).settings(),
                forall|j: int| 0 <= j < keys@.len() ==> before.contains_key(#[trigger] keys@[j]@),
                forall|j: int, k: int|
                    0 <= j < k < keys@.len() ==> #[trigger] keys@[j]@ != #[trigger] keys@[k]@,
                forall|key: Seq<char>| #[trigger]
                    self@.contains_key(key) ==> before.contains_key(key),
                forall|j: int|
                    i <= j < keys@.len() ==> self@.contains_key(#[trigger] keys@[j]@)
                        && self@[keys@[j]@] == before[keys@[j]@],
                forall|j: int|
                    0 <= j < i ==> Self::gone_through(
                        before,
                        self@,
                        #[trigger] keys@[j]@,
                        now,
                        *executor,
                    ),
            decreases keys.len() - i,
        {
            let ghost at_start = self@;
            let ghost key = keys@[i as int]@;
            match self.next_replay(keys[i].as_str(), now) {
                Some(item) => {
                    let result = executor.replay(&item);
                    assert(call_ensures(E::replay, (executor, &item), result));
                    self.record_replay(keys[i].as_str(), result.is_ok());
                },
                None => {},
            }
            proof {
                assert(Self::gone_through(before, self@, key, now, *executor));
                assert forall|j: int| 0 <= j < i implies Self::gone_through(
                    before,
                    self@,
                    #[trigger] keys@[j]@,
                    now,
                    *executor,
                ) by {
                    assert(Self::gone_through(before, at_start, keys@[j]@, now, *executor));
                    assert(keys@[j]@ != key);
                }
            }
            i += 1;
        }
        assert forall|key: Seq<char>| #[trigger] before.contains_key(key) implies
            Self::gone_through(before, self@, key, now, *executor) by {
            let j = choose|j: int| 0 <= j < keys@.len() && #[trigger] keys@[j]@ == key;
            assert(Self::gone_through(before, self@, keys@[j]@, now, *executor));
        }
    }
}

/// A bounded queue that is within its bound stays within it, whatever is offered.
pub proof fn law_queue_stays_bounded(
    config: RecoveryConfig,
    queue: Map<Seq<char>, Pending>,
    key: Seq<char>,
    pending: Pending,
    after: Map<Seq<char>, Pending>,
)
    requires
        queue.dom().finite(),
        config.max_items matches Some(max) && queue.dom().len() <= max,
        enqueued(config, queue, key, pending, after),
    ensures
        after.dom().finite(),
        after.dom().len() <= config.max_items->0,
{
    if config.enabled && !outdated(queue, key, pending) {
        if is_full_for(config, queue, key) {
            let room = choose|room: Map<Seq<char>, Pending>| #[trigger]
                made_room(queue, pending.expires_at, room) && after == if is_full_for(
                    config,
                    room,
                    key,
                ) {
                    room
                } else {
                    room.insert(key, seeded(config, pending))
                };
            if exists|victim: Seq<char>| #[trigger]
                expires_first(queue, victim) && queue[victim].expires_at.0 < pending.expires_at.0
                    && room == queue.remove(victim) {
                let victim = choose|victim: Seq<char>| #[trigger]
                    expires_first(queue, victim) && queue[victim].expires_at.0
                        < pending.expires_at.0 && room == queue.remove(victim);
                assert(room.dom() =~= queue.dom().remove(victim));
            }
            assert(room.insert(key, seeded(config, pending)).dom() =~= room.dom().insert(key));
        } else {
            assert(after.dom() =~= queue.dom().insert(key));
            if queue.contains_key(key) {
                assert(after.dom() =~= queue.dom());
            }
        }
    }
}

/// Of two operations offered for one key, an unbounded queue holds the later one,
/// whichever came first; of two that happened at once it holds the one that came first.
pub proof fn law_latest_operation_wins(
    config: RecoveryConfig,
    queue: Map<Seq<char>, Pending>,
    key: Seq<char>,
    first: Pending,
    second: Pending,
    between: Map<Seq<char>, Pending>,
    after: Map<Seq<char>, Pending>,
)
    requires
        config.enabled,
        config.max_items is None,
        !queue.contains_key(key),
        enqueued(config, queue, key, first, between),
        enqueued(config, between, key, second, after),
    ensures
        after.dom() =~= queue.dom().insert(key),
        after[key] == seeded(
            config,
            if second.timestamp.0 > first.timestamp.0 {
                second
            } else {
                first
            },
        ),
{
}

/// The queue after `count` replays of `key` have failed in a row.
pub open spec fn failed_times(
    queue: Map<Seq<char>, Pending>,
    key: Seq<char>,
    count: nat,
) -> Map<Seq<char>, Pending>
    decreases count,
{
    if count == 0 {
        queue
    } else {
        failed(failed_times(queue, key, (count - 1) as nat), key)
    }
}

proof fn lemma_retries_left(
    queue: Map<Seq<char>, Pending>,
    key: Seq<char>,
    budget: u32,
    count: nat,
)
    requires
        queue.contains_key(key),
        queue[key].remaining_retries == Some(budget),
        count <= budget,
    ensures
        failed_times(queue, key, count).contains_key(key),
        failed_times(queue, key, count)[key].remaining_retries == Some((budget - count) as u32),
    decreases count,
{
    if count > 0 {
        lemma_retries_left(queue, key, budget, (count - 1) as nat);
    }
}

/// An operation survives exactly as many failures as its budget has retries; one without
/// a budget survives them all.
pub proof fn law_retry_budget_is_exact(
    queue: Map<Seq<char>, Pending>,
    key: Seq<char>,
    budget: u32,
    count: nat,
)
    requires
        queue.contains_key(key),
        queue[key].remaining_retries == Some(budget),
    ensures
        count <= budget ==> failed_times(queue, key, count).contains_key(key),
        count > budget ==> !failed_times(queue, key, count).contains_key(key),
    decreases count,
{
    if count <= budget {
        lemma_retries_left(queue, key, budget, count);
    } else if count == budget + 1 {
        lemma_retries_left(queue, key, budget, budget as nat);
    } else {
        law_retry_budget_is_exact(queue, key, budget, (count - 1) as nat);
    }
}

/// An operation without a budget is never given up on account of failures.
pub proof fn law_unbounded_retries_never_give_up(
    queue: Map<Seq<char>, Pending>,
    key: Seq<char>,
    count: nat,
)
    requires
        queue.contains_key(key),
        queue[key].remaining_retries is None,
    ensures
        failed_times(queue, key, count) == queue,
    decreases count,
{
    if count > 0 {
        law_unbounded_retries_never_give_up(queue, key, (count - 1) as nat);
    }
}

/// Offering an operation to the queue. A queue that is switched off, or holds one of the key that
/// is no older, is left alone. Otherwise an unbounded queue, one with room, or one that holds an
/// older operation of the key, holds the new one afterwards, with the configured budget of retries
/// where it has none; and every operation of another key stays as it was.
pub proof fn law_queue_takes_the_later_operation(
    service: &mut AutoRecoveryService,
    item: RecoveryItem,
)
    requires
        call_ensures(AutoRecoveryService::enqueue, (service, item), ()),
    ensures
        ({
            let before = old(service)@;
            let after = final(service)@;
            let config = old(service).settings();
            let key = item.key@;
            let outdated = before.contains_key(key) && before[key].timestamp.0 >= item.timestamp.0;
            let room = config.max_items is None || before.contains_key(key) || (
            config.max_items matches Some(max) && before.dom().len() < max);
            &&& final(service).settings() == config
            &&& !config.enabled || outdated ==> after == before
            &&& config.enabled && !outdated && room ==> {
                &&& after.contains_key(key)
                &&& after[key].action == item.action
                &&& after[key].timestamp == item.timestamp
                &&& after[key].expires_at == item.expires_at
                &&& after[key].remaining_retries == (if item.remaining_retries is Some {
                    item.remaining_retries
                } else {
                    config.max_retries
                })
                &&& forall|other: Seq<char>|
                    other != key ==> {
                        &&& #[trigger] after.contains_key(other) == before.contains_key(other)
                        &&& before.contains_key(other) ==> after[other] == before[other]
                    }
            }
        }),
{
}

/// A full queue makes room for a new key by letting go of one operation that expires first, if that
/// one expires before the new one; otherwise it refuses the new one and keeps what it holds.
pub proof fn law_full_queue_lets_go_of_what_expires_first(
    service: &mut AutoRecoveryService,
    item: RecoveryItem,
    max: usize,
)
    requires
        call_ensures(AutoRecoveryService::enqueue, (service, item), ()),
        old(service).settings().enabled,
        old(service).settings().max_items == Some(max),
        max > 0,
        old(service)@.dom().finite(),
        old(service)@.dom().len() == max,
        !old(service)@.contains_key(item.key@),
    ensures
        ({
            let before = old(service)@;
            let after = final(service)@;
            let sooner = exists|key: Seq<char>| #[trigger]
                before.contains_key(key) && before[key].expires_at.0 < item.expires_at.0;
            &&& sooner ==> after.contains_key(item.key@) && exists|gone: Seq<char>|
                {
                    &&& #[trigger] before.contains_key(gone)
                    &&& !after.contains_key(gone)
                    &&& before[gone].expires_at.0 < item.expires_at.0
                    &&& forall|other: Seq<char>| #[trigger]
                        before.contains_key(other) ==> before[gone].expires_at.0
                            <= before[other].expires_at.0
                    &&& forall|other: Seq<char>| #[trigger]
                        before.contains_key(other) && other != gone ==> after.contains_key(other)
                            && after[other] == before[other]
                }
            &&& !sooner ==> after == before
        }),
{
    let before = old(service)@;
    let after = final(service)@;
    let config = old(service).settings();
    let key = item.key@;
    let pending = item.pending();
    let room = choose|room: Map<Seq<char>, Pending>| #[trigger]
        made_room(before, pending.expires_at, room) && after == if is_full_for(config, room, key) {
            room
        } else {
            room.insert(key, seeded(config, pending))
        };
    if exists|victim: Seq<char>| #[trigger]
        expires_first(before, victim) && before[victim].expires_at.0 < pending.expires_at.0 && room
            == before.remove(victim) {
        let victim = choose|victim: Seq<char>| #[trigger]
            expires_first(before, victim) && before[victim].expires_at.0 < pending.expires_at.0
                && room == before.remove(victim);
        assert(room.dom() =~= before.dom().remove(victim));
        assert(!is_full_for(config, room, key));
        assert(before.contains_key(victim) && !after.contains_key(victim));
    }
}

/// The operation to replay is the one that is queued, as it was queued, exactly if it is still
/// worth replaying; one that is not is dropped, and nothing else changes.
pub proof fn law_replay_is_what_was_queued(
    service: &mut AutoRecoveryService,
    key: &str,
    now: Timestamp,
    item: Option<RecoveryItem>,
)
    requires
        call_ensures(AutoRecoveryService::next_replay, (service, key, now), item),
    ensures
        item is Some <==> old(service)@.contains_key(key@) && now.0 < old(
            service,
        )@[key@].expires_at.0,
        item matches Some(next) ==> {
            let queued = old(service)@[key@];
            &&& next.key@ == key@
            &&& next.action == queued.action
            &&& next.timestamp == queued.timestamp
            &&& next.expires_at == queued.expires_at
            &&& next.remaining_retries == queued.remaining_retries
            &&& final(service)@ == old(service)@
        },
        item is None ==> !final(service)@.contains_key(key@),
        forall|other: Seq<char>|
            other != key@ ==> {
                &&& #[trigger] final(service)@.contains_key(other) == old(service)@.contains_key(
                    other,
                )
                &&& old(service)@.contains_key(other) ==> final(service)@[other] == old(
                    service,
                )@[other]
            },
        final(service).settings() == old(service).settings(),
{
}

/// A replay that succeeded is not made again. One that failed is made again as long as retries are
/// left, with one less, and without end if there is no budget; nothing else about it changes, and
/// nothing about any other key.
pub proof fn law_failed_replay_uses_up_a_retry(
    service: &mut AutoRecoveryService,
    key: &str,
    succeeded: bool,
)
    requires
        call_ensures(AutoRecoveryService::record_replay, (service, key, succeeded), ()),
    ensures
        ({
            let before = old(service)@;
            let after = final(service)@;
            let queued = before[key@];
            &&& succeeded ==> !after.contains_key(key@)
            &&& !before.contains_key(key@) ==> !after.contains_key(key@)
            &&& !succeeded && before.contains_key(key@) ==> {
                &&& queued.remaining_retries == Some(0u32) ==> !after.contains_key(key@)
                &&& queued.remaining_retries != Some(0u32) ==> {
                    &&& after.contains_key(key@)
                    &&& after[key@].action == queued.action
                    &&& after[key@].timestamp == queued.timestamp
                    &&& after[key@].expires_at == queued.expires_at
                    &&& queued.remaining_retries is None ==> after[key@].remaining_retries is None
                    &&& queued.remaining_retries matches Some(left)
                        ==> after[key@].remaining_retries == Some((left - 1) as u32)
                }
            }
            &&& forall|other: Seq<char>|
                other != key@ ==> {
                    &&& #[trigger] after.contains_key(other) == before.contains_key(other)
                    &&& before.contains_key(other) ==> after[other] == before[other]
                }
            &&& final(service).settings() == old(service).settings()
        }),
{
}

/// A pass over the queue goes through every key that is queued, once each, and through no other.
pub proof fn law_pass_goes_through_every_key(
    service: AutoRecoveryService,
    keys: Vec<String>,
    key: Seq<char>,
)
    requires
        call_ensures(AutoRecoveryService::pass_keys, (&service,), keys),
    ensures
        service@.contains_key(key) <==> exists|i: int|
            0 <= i < keys@.len() && (#[trigger] keys@[i])@ == key,
        forall|i: int, j: int|
            0 <= i < keys@.len() && 0 <= j < keys@.len() && (#[trigger] keys@[i])@ == (
            #[trigger] keys@[j])@ ==> i == j,
{
    if service@.contains_key(key) {
        let i = choose|i: int| 0 <= i < keys@.len() && #[trigger] keys@[i]@ == key;
        assert(keys@[i]@ == key);
    }
    assert forall|i: int, j: int|
        0 <= i < keys@.len() && 0 <= j < keys@.len() && (#[trigger] keys@[i])@ == (
        #[trigger] keys@[j])@ implies i == j by {
        if i < j {
            assert(keys@[i]@ != keys@[j]@);
        } else if j < i {
            assert(keys@[j]@ != keys@[i]@);
        }
    }
}

/// A whole pass: nothing new is queued; what is no longer worth replaying is gone; everything else
/// was handed to the executor as it was queued, and is gone exactly if that succeeded or no retry
/// was left.
pub proof fn law_pass_replays_everything_of_worth<E: RecoveryExecutor>(
    service: &mut AutoRecoveryService,
    executor: E,
    now: Timestamp,
    key: Seq<char>,
)
    requires
        call_ensures(AutoRecoveryService::drain_once::<E>, (service, &executor, now), ()),
    ensures
        ({
            let before = old(service)@;
            let after = final(service)@;
            &&& !before.contains_key(key) ==> !after.contains_key(key)
            &&& before.contains_key(key) && now.0 >= before[key].expires_at.0
                ==> !after.contains_key(key)
            &&& before.contains_key(key) && now.0 < before[key].expires_at.0 ==> exists|
                item: RecoveryItem,
                result: Result<(), Error>,
            |
                {
                    &&& #[trigger] call_ensures(E::replay, (&executor, &item), result)
                    &&& item.key@ == key
                    &&& item.action == before[key].action
                    &&& item.timestamp == before[key].timestamp
                    &&& !after.contains_key(key) <==> result is Ok || before[key].remaining_retries
                        == Some(0u32)
                }
        }),
{
    let before = old(service)@;
    let after = final(service)@;
    if before.contains_key(key) {
        assert(AutoRecoveryService::gone_through(before, after, key, now, executor));
    }
}

/// Passes are made at the configured pace, but never more often than every fifty milliseconds.
pub proof fn law_passes_keep_their_pace(config: RecoveryConfig, interval: Duration)
    requires
        call_ensures(RecoveryConfig::pass_interval, (&config,), interval),
    ensures
        interval.nanos >= 50_000_000,
        interval.nanos >= config.delay.nanos,
        interval.nanos == 50_000_000 || interval.nanos == config.delay.nanos,
{
}

/// A new queue holds nothing and behaves as configured; a queue counts what it holds, and is empty
/// exactly if that is nothing.
pub proof fn law_queue_counts_what_it_holds(
    config: RecoveryConfig,
    fresh: AutoRecoveryService,
    service: AutoRecoveryService,
    count: usize,
    empty: bool,
    shown: RecoveryConfig,
)
    requires
        call_ensures(AutoRecoveryService::new, (config,), fresh),
        call_ensures(AutoRecoveryService::len, (&service,), count),
        call_ensures(AutoRecoveryService::is_empty, (&service,), empty),
        call_ensures(AutoRecoveryService::config, (&service,), shown),
    ensures
        fresh.settings() == config,
        forall|key: Seq<char>| !#[trigger] fresh@.contains_key(key),
        count == service@.dom().len(),
        empty <==> forall|key: Seq<char>| !#[trigger] service@.contains_key(key),
        shown == service.settings(),
{
    if forall|key: Seq<char>| !#[trigger] service@.contains_key(key) {
        assert(service@.dom() =~= Set::<Seq<char>>::empty()) by {
            assert forall|key: Seq<char>| !#[trigger] service@.dom().contains(key) by {
                assert(!service@.contains_key(key));
            }
        }
    }
}

} // verus!
