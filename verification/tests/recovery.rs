use amalgam::{
    AutoRecoveryService, Duration, Error, RecoveryAction, RecoveryConfig, RecoveryExecutor,
    RecoveryItem, Timestamp,
};
use std::cell::{Cell, RefCell};
use std::collections::HashSet;

/// Tallies every replay, records what it saw, and fails for everything or for some keys.
struct MockExecutor {
    replays: Cell<usize>,
    fail_all: Cell<bool>,
    failing_keys: HashSet<String>,
    last_timestamp: Cell<Option<Timestamp>>,
    seen_keys: RefCell<Vec<String>>,
}

impl MockExecutor {
    fn new() -> Self {
        Self {
            replays: Cell::new(0),
            fail_all: Cell::new(false),
            failing_keys: HashSet::new(),
            last_timestamp: Cell::new(None),
            seen_keys: RefCell::new(Vec::new()),
        }
    }

    fn failing_keys(keys: &[&str]) -> Self {
        let mut me = Self::new();
        me.failing_keys = keys.iter().map(|k| (*k).to_owned()).collect();
        me
    }

    fn replay_count(&self) -> usize {
        self.replays.get()
    }

    fn seen(&self) -> HashSet<String> {
        self.seen_keys.borrow().iter().cloned().collect()
    }
}

impl RecoveryExecutor for MockExecutor {
    fn replay(&self, item: &RecoveryItem) -> Result<(), Error> {
        self.replays.set(self.replays.get() + 1);
        self.last_timestamp.set(Some(item.timestamp));
        self.seen_keys.borrow_mut().push(item.key.clone());
        if self.fail_all.get() || self.failing_keys.contains(&item.key) {
            Err(Error::Distributed("mock replay failure".into()))
        } else {
            Ok(())
        }
    }
}

/// The instant of every pass: any positive expiry lies in the future.
fn now() -> Timestamp {
    Timestamp::from_ticks(0)
}

fn far_future() -> Timestamp {
    Timestamp::from_ticks(1_000_000_000)
}

fn item(
    key: &str,
    action: RecoveryAction,
    timestamp_ticks: i64,
    expires_at: Timestamp,
) -> RecoveryItem {
    RecoveryItem {
        key: key.to_owned(),
        action,
        timestamp: Timestamp::from_ticks(timestamp_ticks),
        expires_at,
        remaining_retries: None,
    }
}

fn config(max_items: Option<usize>, max_retries: Option<u32>) -> RecoveryConfig {
    RecoveryConfig {
        enabled: true,
        delay: Duration::from_millis(100),
        max_items,
        max_retries,
    }
}

#[test]
fn enqueue_dedups_latest_timestamp_wins() {
    let mut service = AutoRecoveryService::new(config(None, None));
    let mock = MockExecutor::new();

    // Three enqueues for one key. Newest timestamp wins; the older one that
    // arrives afterwards is ignored. The queue holds a single deduplicated item.
    service.enqueue(item("k", RecoveryAction::Put, 10, far_future()));
    service.enqueue(item("k", RecoveryAction::Put, 20, far_future())); // newer: replaces
    service.enqueue(item("k", RecoveryAction::Put, 5, far_future())); // older: ignored
    assert_eq!(service.len(), 1, "dedup collapses one key to one item");

    service.drain_once(&mock, now());

    assert_eq!(mock.replay_count(), 1, "exactly one item was replayed");
    assert_eq!(
        mock.last_timestamp.get(),
        Some(Timestamp::from_ticks(20)),
        "the newest-timestamp item survived dedup"
    );
    assert_eq!(service.len(), 0, "the successful replay was removed");
}

#[test]
fn max_items_rejects_new_item_when_full_and_nothing_evictable() {
    // Capacity 2. All three items share the same (far-future) expiry, so no
    // existing item expires *before* the newcomer's bound: none is evictable and
    // the third enqueue is rejected.
    let mut service = AutoRecoveryService::new(config(Some(2), None));

    service.enqueue(item("a", RecoveryAction::Put, 1, far_future()));
    service.enqueue(item("b", RecoveryAction::Put, 1, far_future()));
    assert_eq!(service.len(), 2);

    service.enqueue(item("c", RecoveryAction::Put, 1, far_future()));
    assert_eq!(service.len(), 2, "the queue stayed at its bound");

    let mock = MockExecutor::new();
    service.drain_once(&mock, now());
    assert_eq!(
        mock.seen(),
        HashSet::from(["a".to_owned(), "b".to_owned()])
    );
}

#[test]
fn max_items_evicts_sooner_expiring_item_to_admit_newer() {
    // Capacity 2. "a" expires soon; "b" far away. Enqueuing "c" (far expiry) is
    // full, so the service evicts the soonest-expiring item that expires before
    // "c"'s bound, that is "a", and admits "c".
    let mut service = AutoRecoveryService::new(config(Some(2), None));

    let soon = Timestamp::from_ticks(10); // > now(0) but well before the far future
    service.enqueue(item("a", RecoveryAction::Put, 1, soon));
    service.enqueue(item("b", RecoveryAction::Put, 1, far_future()));
    assert_eq!(service.len(), 2);

    service.enqueue(item("c", RecoveryAction::Put, 1, far_future()));
    assert_eq!(service.len(), 2, "still at capacity after the swap");

    // "a" was evicted; "b" and "c" remain.
    let mock = MockExecutor::new();
    service.drain_once(&mock, now());
    assert_eq!(
        mock.seen(),
        HashSet::from(["b".to_owned(), "c".to_owned()])
    );
}

#[test]
fn max_retries_exhaustion_drops_item() {
    // Budget = 1 retry. The item is kept on the first failure (1 to 0) and dropped on
    // the second. So it survives one failed drain and is dropped on the next.
    let mut service = AutoRecoveryService::new(config(None, Some(1)));
    let mock = MockExecutor::new();
    mock.fail_all.set(true);

    service.enqueue(item("k", RecoveryAction::Put, 1, far_future()));
    assert_eq!(service.len(), 1);

    service.drain_once(&mock, now()); // failure #1: budget 1 to 0, kept
    assert_eq!(service.len(), 1, "item retained while retries remain");

    service.drain_once(&mock, now()); // failure #2: budget 0, dropped
    assert_eq!(
        service.len(),
        0,
        "item dropped once its retry budget is exhausted"
    );

    assert_eq!(mock.replay_count(), 2, "two replay attempts were made");
}

#[test]
fn drain_once_removes_succeeded_and_keeps_failed() {
    // Unbounded retries: a failed item is kept (not dropped by budget), letting us
    // assert "remove succeeded / keep failed" purely from drain semantics.
    let mut service = AutoRecoveryService::new(config(None, None));
    let mock = MockExecutor::failing_keys(&["bad"]);

    service.enqueue(item("ok", RecoveryAction::Put, 1, far_future()));
    service.enqueue(item("bad", RecoveryAction::Remove, 1, far_future()));
    assert_eq!(service.len(), 2);

    service.drain_once(&mock, now());
    assert_eq!(
        service.len(),
        1,
        "the succeeded item was removed; the failed one was retained"
    );

    // Prove the survivor is "bad": let the mock succeed for everyone, drain again,
    // and the queue empties.
    let healthy = MockExecutor::new();
    service.drain_once(&healthy, now());
    assert_eq!(
        service.len(),
        0,
        "the previously-failed item replayed on recovery"
    );
    assert_eq!(
        healthy.replay_count(),
        1,
        "only the retained item was replayed"
    );
    assert_eq!(healthy.seen(), HashSet::from(["bad".to_owned()]));
}

#[test]
fn expired_operations_are_dropped_unreplayed() {
    let mut service = AutoRecoveryService::new(config(None, None));
    service.enqueue(item("old", RecoveryAction::Put, 1, Timestamp::from_ticks(5)));
    service.enqueue(item("new", RecoveryAction::Put, 1, Timestamp::from_ticks(6)));
    let mock = MockExecutor::new();
    mock.fail_all.set(true);
    service.drain_once(&mock, Timestamp::from_ticks(5));
    assert_eq!(mock.seen(), HashSet::from(["new".to_owned()]));
    assert_eq!(service.len(), 1);
    assert!(service.next_replay("old", Timestamp::from_ticks(0)).is_none());
    let left = service.next_replay("new", Timestamp::from_ticks(5)).unwrap();
    assert_eq!(left.key, "new");
    assert_eq!(left.expires_at, Timestamp::from_ticks(6));
}

#[test]
fn a_disabled_queue_takes_nothing() {
    let mut service = AutoRecoveryService::new(RecoveryConfig {
        enabled: false,
        ..config(None, None)
    });
    service.enqueue(item("k", RecoveryAction::Put, 1, far_future()));
    assert!(service.is_empty());
}

#[test]
fn a_queue_without_room_takes_nothing() {
    let mut service = AutoRecoveryService::new(config(Some(0), None));
    service.enqueue(item("k", RecoveryAction::Put, 1, far_future()));
    assert!(service.is_empty());
}

#[test]
fn a_full_queue_still_takes_a_later_operation_on_a_key_it_holds() {
    let mut service = AutoRecoveryService::new(config(Some(1), Some(3)));
    service.enqueue(item("k", RecoveryAction::Put, 1, far_future()));
    service.enqueue(item("k", RecoveryAction::Remove, 2, far_future()));
    let held = service.next_replay("k", now()).unwrap();
    assert_eq!(held.action, RecoveryAction::Remove);
    assert_eq!(held.remaining_retries, Some(3));
    service.record_replay("k", false);
    assert_eq!(
        service.next_replay("k", now()).unwrap().remaining_retries,
        Some(2)
    );
    service.record_replay("k", true);
    assert!(service.is_empty());
    assert!(service.pass_keys().is_empty());
}

#[test]
fn a_budget_of_its_own_is_kept() {
    let mut service = AutoRecoveryService::new(config(None, Some(3)));
    service.enqueue(RecoveryItem {
        remaining_retries: Some(0),
        ..item("k", RecoveryAction::Put, 1, far_future())
    });
    service.record_replay("k", false);
    assert!(service.is_empty());
}

#[test]
fn recovery_defaults() {
    let config = RecoveryConfig::default();
    assert!(config.enabled);
    assert_eq!(config.delay, Duration::from_secs(2));
    assert_eq!(config.pass_interval(), Duration::from_secs(2));
    assert_eq!((config.max_items, config.max_retries), (None, None));
    let hasty = RecoveryConfig {
        delay: Duration::zero(),
        ..config
    };
    assert_eq!(hasty.pass_interval(), Duration::from_millis(50));
    assert_eq!(AutoRecoveryService::new(hasty).config().delay, Duration::zero());
}
