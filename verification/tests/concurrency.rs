//! Calls that race each other, on a real runtime.
use amalgam::distributed::{seal, unseal};
use amalgam::distributed_lock::after_attempt;
use amalgam::flow::{GetOrSet, Outcome, Request, Step};
use amalgam::guarded::{L2Outcome, L2Write};
use amalgam::{
    Cache, CacheBuilder, Clock, DistributedEntry, DistributedSerializer, Duration, Effect, Entry,
    EntryOptions, Error, InMemoryDistributedCache, InMemoryDistributedLocker, KeyedLock,
    LockAttempt, ManualClock, MaybeValue, Timestamp,
};
use std::collections::HashMap;
use std::fmt::Display;
use std::future::Future;
use std::str::FromStr;
use std::sync::atomic::{AtomicUsize, Ordering};
use std::sync::{Arc, Mutex};
use std::time::Instant;

fn run<T>(workers: usize, test: impl Future<Output = T>) -> T {
    tokio::runtime::Builder::new_multi_thread()
        .worker_threads(workers)
        .enable_all()
        .build()
        .unwrap()
        .block_on(test)
}

async fn pause(millis: u64) {
    tokio::time::sleep(std::time::Duration::from_millis(millis)).await;
}

/// Envelopes as lines of text.
struct Lines;

impl<V: Display + FromStr> DistributedSerializer<V> for Lines {
    fn serialize(&self, entry: &DistributedEntry<V>) -> Result<Vec<u8>, Error> {
        let text = format!(
            "{} {} {} {}",
            entry.created_ticks,
            entry.logical_expiration_ticks,
            entry.physical_expiration_ticks,
            entry.value
        );
        Ok(text.into_bytes())
    }

    fn deserialize(&self, bytes: &[u8]) -> Result<DistributedEntry<V>, Error> {
        let text = String::from_utf8(bytes.to_vec()).unwrap();
        let fields: Vec<&str> = text.splitn(4, ' ').collect();
        Ok(DistributedEntry {
            value: fields[3].parse().ok().unwrap(),
            created_ticks: fields[0].parse().unwrap(),
            logical_expiration_ticks: fields[1].parse().unwrap(),
            physical_expiration_ticks: fields[2].parse().unwrap(),
            is_from_fail_safe: false,
            etag: None,
            last_modified_ticks: None,
            tags: Vec::new(),
        })
    }
}

/// A bank of locks.
struct Bank {
    layout: KeyedLock,
    locks: Vec<Arc<tokio::sync::Mutex<()>>>,
}

impl Bank {
    fn new(shards: usize) -> Self {
        let layout = KeyedLock::new(shards);
        let locks = (0..layout.len()).map(|_| Arc::default()).collect();
        Self { layout, locks }
    }

    async fn lock(&self, key: &str) -> tokio::sync::OwnedMutexGuard<()> {
        let lock = self.locks[self.layout.shard_for(key)].clone();
        lock.lock_owned().await
    }
}

/// What several nodes share.
#[derive(Clone)]
struct Shared {
    clock: Arc<ManualClock>,
    l2: Arc<Mutex<InMemoryDistributedCache>>,
    locker: Arc<Mutex<InMemoryDistributedLocker>>,
}

impl Shared {
    fn new() -> Self {
        Self {
            clock: Arc::new(ManualClock::default()),
            l2: Arc::new(Mutex::new(InMemoryDistributedCache::new())),
            locker: Arc::new(Mutex::new(InMemoryDistributedLocker::new())),
        }
    }
}

/// One cache instance.
struct Node<V> {
    state: Mutex<Cache>,
    memory: Mutex<HashMap<String, Entry<V>>>,
    bank: Bank,
    shared: Shared,
}

impl<V: Clone + Display + FromStr> Node<V> {
    fn new(builder: CacheBuilder, shared: &Shared) -> Arc<Self> {
        let cache = builder.build();
        Arc::new(Self {
            bank: Bank::new(cache.settings.lock_shards),
            state: Mutex::new(cache),
            memory: Mutex::new(HashMap::new()),
            shared: shared.clone(),
        })
    }

    fn now(&self) -> Timestamp {
        self.shared.clock.now()
    }

    fn perform(&self, key: &String, effects: Vec<Effect<V>>) {
        for effect in effects {
            match effect {
                Effect::InsertMemory(entry) => {
                    self.memory.lock().unwrap().insert(key.clone(), entry);
                }
                Effect::WriteDistributed(entry, options) => {
                    let now = self.now();
                    let mut state = self.state.lock().unwrap();
                    if let L2Write::Write {
                        key: l2_key, ttl, ..
                    } = state.plan_l2_write(key, &options, now)
                    {
                        let bytes = seal(&entry, &Lines).unwrap();
                        let mut l2 = self.shared.l2.lock().unwrap();
                        l2.set(&l2_key, bytes, Some(ttl), now);
                        state.finish_l2_write(key, Ok(()), now);
                    }
                }
                _ => {}
            }
        }
    }

    /// Gets the value of a key; the factory takes a while, and counts its runs.
    async fn get_or_set(
        &self,
        key: &str,
        options: EntryOptions,
        value: V,
        takes: u64,
        runs: Arc<AtomicUsize>,
    ) -> Result<V, Error> {
        let key = self.state.lock().unwrap().full_key(key);
        let mut guard = None;
        let mut across = None;
        let mut advance = GetOrSet::begin(key.clone(), options, Vec::new(), MaybeValue::none());
        let result = loop {
            self.perform(&key, advance.effects);
            let (flow, request) = match advance.step {
                Step::Ask(flow, request) => (flow, request),
                Step::Finish(Outcome::Serve(entry)) => break Ok(entry.value_cloned()),
                Step::Finish(Outcome::Fail(err)) => break Err(err),
                Step::Finish(Outcome::Store(product)) => {
                    let stored = self.state.lock().unwrap().store_product(
                        &key,
                        product,
                        Duration::zero(),
                        self.now(),
                    );
                    let value = stored.entry.value_cloned();
                    self.perform(&key, stored.effects);
                    break Ok(value);
                }
            };
            let now = self.now();
            advance = match request {
                Request::ReadMemory => {
                    let found = self.memory.lock().unwrap().get(&key).cloned();
                    flow.memory_read(&mut self.state.lock().unwrap(), found, now, now)
                }
                Request::Lock(_) | Request::WaitForLock => {
                    guard = Some(self.bank.lock(&key).await);
                    flow.locked(&mut self.state.lock().unwrap(), now)
                }
                Request::LockAcrossNodes(lock) => {
                    let started = Instant::now();
                    let token = loop {
                        let token = self
                            .shared
                            .locker
                            .lock()
                            .unwrap()
                            .try_once(&lock.key, lock.ttl, now);
                        let waited = Duration::from_nanos(started.elapsed().as_nanos());
                        match after_attempt(token, waited, lock.timeout) {
                            LockAttempt::Acquired(token) => break Some(token),
                            LockAttempt::GaveUp => break None,
                            LockAttempt::Retry => pause(1).await,
                        }
                    };
                    across = token.map(|token| (lock.key, token));
                    flow.across_nodes_settled(&mut self.state.lock().unwrap(), now)
                }
                Request::ReadDistributed(read) => {
                    let stored = self.shared.l2.lock().unwrap().get(&read.key, now);
                    let outcome = L2Outcome::Answered(unseal(stored, &Lines));
                    flow.distributed_read(&mut self.state.lock().unwrap(), outcome, now, now)
                }
                Request::RunFactory(ctx, _) => {
                    runs.fetch_add(1, Ordering::SeqCst);
                    pause(takes).await;
                    flow.factory_ended(Ok(ctx.value(value.clone())), self.now())
                }
            };
        };
        if let Some((key, token)) = across {
            self.shared.locker.lock().unwrap().release(&key, &token);
        }
        drop(guard);
        result
    }
}

#[test]
fn stampede_runs_factory_once() {
    let calls = Arc::new(AtomicUsize::new(0));
    let node: Arc<Node<i32>> = Node::new(CacheBuilder::new(), &Shared::new());
    run(4, async {
        let mut handles = Vec::new();
        for _ in 0..32 {
            let node = node.clone();
            let calls = calls.clone();
            handles.push(tokio::spawn(async move {
                let opts = EntryOptions::default();
                node.get_or_set("hot", opts, 42, 30, calls).await
            }));
        }
        for h in handles {
            assert_eq!(h.await.unwrap().unwrap(), 42);
        }
    });
    assert_eq!(
        calls.load(Ordering::SeqCst),
        1,
        "factory must run exactly once"
    );
}

#[test]
fn distributed_locker_enforces_cross_instance_single_flight() {
    let shared = Shared::new();
    let opts = EntryOptions::new(Duration::from_secs(60));
    let build = || {
        let builder = CacheBuilder::new()
            .distributed(true)
            .distributed_locker(true)
            .default_options(opts);
        Node::new(builder, &shared)
    };
    let cache1 = build();
    let cache2 = build();
    let calls = Arc::new(AtomicUsize::new(0));
    let (v1, v2) = run(2, async {
        let race = |node: Arc<Node<String>>| {
            let calls = calls.clone();
            tokio::spawn(async move {
                node.get_or_set("k", opts, "from-factory".to_owned(), 50, calls)
                    .await
            })
        };
        let (h1, h2) = (race(cache1), race(cache2));
        (h1.await.unwrap().unwrap(), h2.await.unwrap().unwrap())
    });
    assert_eq!(v1, "from-factory");
    assert_eq!(v2, "from-factory", "loser served the winner's L2 value");
    assert_eq!(
        calls.load(Ordering::SeqCst),
        1,
        "the distributed lock collapsed both flights into a single factory run"
    );
}

#[test]
fn same_key_serializes() {
    let bank = Arc::new(Bank::new(64));
    let counter = Arc::new(AtomicUsize::new(0));
    let max_seen = Arc::new(AtomicUsize::new(0));
    run(4, async {
        let mut handles = Vec::with_capacity(16);
        for _ in 0..16 {
            let bank = bank.clone();
            let counter = counter.clone();
            let max_seen = max_seen.clone();
            handles.push(tokio::spawn(async move {
                let _g = bank.lock("hot-key").await;
                let inside = counter.fetch_add(1, Ordering::SeqCst) + 1;
                max_seen.fetch_max(inside, Ordering::SeqCst);
                pause(5).await;
                counter.fetch_sub(1, Ordering::SeqCst);
            }));
        }
        for h in handles {
            h.await.unwrap();
        }
    });
    // Never more than one holder of the same key at once.
    assert_eq!(max_seen.load(Ordering::SeqCst), 1);
}
