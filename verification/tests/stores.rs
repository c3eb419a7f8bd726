use amalgam::distributed_lock::{after_attempt, new_token, token_from};
use amalgam::{
    CacheRegistry, Duration, InMemoryDistributedCache, InMemoryDistributedLocker, KeyedLock,
    LockAttempt, Timeout, Timestamp,
};
use std::collections::hash_map::DefaultHasher;
use std::hash::{Hash, Hasher};

fn at(secs: u64) -> Timestamp {
    Timestamp::from_ticks(0).saturating_add(Duration::from_secs(secs))
}

#[test]
fn in_memory_l2_round_trips_and_expires() {
    let mut l2 = InMemoryDistributedCache::new();
    l2.set("k", b"hello".to_vec(), Some(Duration::from_secs(10)), at(0));
    assert_eq!(l2.get("k", at(0)), Some(b"hello".to_vec()));
    assert_eq!(l2.get("k", at(11)), None);
    // What had expired is gone.
    assert_eq!(l2.get("k", at(0)), None);
}

#[test]
fn stored_bytes_are_kept_apart_by_key() {
    let mut l2 = InMemoryDistributedCache::new();
    l2.set("a", vec![1], None, at(0));
    l2.set("b", vec![2], Some(Duration::from_secs(1)), at(0));
    l2.set("a", vec![3], None, at(5));
    assert_eq!(l2.get("a", at(1_000_000)), Some(vec![3]));
    assert_eq!(l2.get("b", at(0)), Some(vec![2]));
    assert_eq!(l2.get("b", at(1)), None);
    l2.remove("a");
    assert_eq!(l2.get("a", at(0)), None);
    l2.remove("a");
    assert_eq!(l2.get("missing", at(0)), None);
}

#[test]
fn second_acquire_blocks_until_release() {
    let mut locker = InMemoryDistributedLocker::new();
    let ttl = Duration::from_secs(30);
    let token = locker
        .try_once("k", ttl, at(0))
        .expect("first acquire succeeds");
    // A non-waiting second attempt fails while held.
    let second = after_attempt(
        locker.try_once("k", ttl, at(0)),
        Duration::zero(),
        Timeout::After(Duration::zero()),
    );
    assert_eq!(second, LockAttempt::GaveUp);
    locker.release("k", &token);
    // Now it can be acquired again.
    assert!(locker.try_once("k", ttl, at(0)).is_some());
}

#[test]
fn a_lock_falls_free_when_its_time_is_up() {
    let mut locker = InMemoryDistributedLocker::new();
    let mine = "mine".to_owned();
    let theirs = "theirs".to_owned();
    assert!(locker.try_with("k", &mine, Duration::from_secs(5), at(0)));
    assert!(!locker.try_with("k", &theirs, Duration::from_secs(5), at(4)));
    assert!(locker.is_free("other", at(4)));
    assert!(locker.try_with("k", &theirs, Duration::from_secs(5), at(5)));
    // Letting go with a token that no longer holds the lock does nothing.
    locker.release("k", "mine");
    assert!(!locker.is_free("k", at(6)));
    locker.release("k", "theirs");
    assert!(locker.is_free("k", at(6)));
}

#[test]
fn an_attempt_is_repeated_until_the_wait_is_over() {
    let wait = Timeout::After(Duration::from_secs(1));
    assert_eq!(
        after_attempt(None, Duration::from_millis(999), wait),
        LockAttempt::Retry
    );
    assert_eq!(
        after_attempt(None, Duration::from_secs(1), wait),
        LockAttempt::GaveUp
    );
    assert_eq!(
        after_attempt(None, Duration::from_secs(99), Timeout::Infinite),
        LockAttempt::Retry
    );
    assert_eq!(
        after_attempt(Some("t".to_owned()), Duration::from_secs(99), wait),
        LockAttempt::Acquired("t".to_owned())
    );
}

#[test]
fn tokens_are_hexadecimal_and_differ() {
    assert_eq!(
        token_from(0xabc, 1),
        "0000000000000abc0000000000000001"
    );
    let token = new_token();
    assert_eq!(token.len(), 32);
    assert!(token.chars().all(|c| c.is_ascii_hexdigit()));
    assert_ne!(token, new_token());
}

#[test]
fn lock_banks_are_rounded_up_to_a_power_of_two() {
    for (asked, given) in [(0, 1), (1, 1), (2, 2), (3, 4), (64, 64), (65, 128), (1000, 1024)] {
        assert_eq!(KeyedLock::new(asked).len(), given);
    }
    assert_eq!(KeyedLock::default().len(), 1024);
}

#[test]
fn a_key_always_has_the_same_lock() {
    let bank = KeyedLock::new(64);
    let twin = KeyedLock::new(64);
    for i in 0..500 {
        let key = format!("key-{i}");
        assert!(bank.shard_for(&key) < 64);
        assert_eq!(bank.shard_for(&key), twin.shard_for(&key));
    }
}

#[test]
fn locks_are_picked_by_the_hash_of_the_key() {
    let bank = KeyedLock::new(256);
    for key in ["", "a", "hot-key", "\u{1f600}"] {
        let mut hasher = DefaultHasher::new();
        key.hash(&mut hasher);
        assert_eq!(bank.shard_for(key), (hasher.finish() as usize) & 255);
    }
}

#[test]
fn registry_keeps_named_caches() {
    let mut registry: CacheRegistry<i32> = CacheRegistry::new();
    assert!(registry.is_empty());
    registry.register("alpha".to_owned(), 1);
    registry.register("beta".to_owned(), 2);
    assert_eq!(registry.len(), 2);
    assert_eq!(registry.get("alpha"), Some(1));
    assert_eq!(registry.get("beta"), Some(2));
    assert!(registry.get("missing").is_none());
    registry.register("alpha".to_owned(), 3);
    assert_eq!(registry.len(), 2);
    assert_eq!(registry.get("alpha"), Some(3));
    assert_eq!(registry.get_or_create("gamma", || 7), 7);
    assert_eq!(registry.get_or_create("gamma", || 8), 7);
    assert_eq!(registry.len(), 3);
}
