//! `amalgam`: the verified core of a robust, multi-level, fail-safe cache.
//!
//! The crate holds the rules the cache follows: when an entry is fresh, stale or
//! dead, which value a caller is served, when a factory runs and under which
//! timeout, what happens to a tag or clear marker, how failed operations are
//! queued and replayed, and how invalidation messages are framed on the wire.
//! Waiting, networking and storage are left to the runtime around it: the rules
//! say what to do next, the runtime does it and reports back. Two things the
//! runtime works out by itself: which part of a freshness window an eager-refresh
//! threshold makes, which is floating point, and when memory evicts an entry.
#![allow(unused_imports)]

pub mod background;
pub mod backplane;
pub mod builder;
pub mod cache;
pub mod circuit;
pub mod distributed;
pub mod distributed_lock;
pub mod effects;
pub mod entry;
pub mod error;
pub mod events;
pub mod factory;
pub mod flow;
pub mod guarded;
pub mod incoming;
pub mod laws;
pub mod locking;
pub mod maps;
pub mod maybe;
pub mod observability;
pub mod options;
pub mod plugins;
pub mod recovery;
pub mod registry;
pub mod tags;
pub mod text;
pub mod time;
pub mod writes;

pub use backplane::{BackplaneAction, BackplaneMessage};
pub use builder::CacheBuilder;
pub use cache::{Cache, CacheSettings};
pub use circuit::CircuitBreaker;
pub use distributed::{DistributedEntry, DistributedSerializer, InMemoryDistributedCache};
pub use distributed_lock::{InMemoryDistributedLocker, LockAttempt};
pub use effects::Effect;
pub use entry::{Entry, Freshness, Metadata};
pub use error::{Error, FactoryError};
pub use events::{CacheEvent, CircuitComponent};
pub use factory::{FactoryContext, FactoryProduct, ModifiedBuilder};
pub use flow::GetOrSet;
pub use locking::KeyedLock;
pub use maybe::MaybeValue;
pub use observability::MetricsPlugin;
pub use options::{EagerThreshold, EntryOptions, KeyModifierMode, Priority, RemoveByTagBehavior};
pub use plugins::{Plugin, PluginHost};
pub use recovery::{
    AutoRecoveryService, RecoveryAction, RecoveryConfig, RecoveryExecutor, RecoveryItem,
};
pub use registry::{CacheRegistry, DefaultEntryOptionsProvider};
pub use tags::{collect_tags, Tag, TagRegistry, TagVerdict};
pub use time::{
    duration_to_ticks, ticks_to_duration, Clock, Duration, ManualClock, SystemClock, Timeout,
    Timestamp, TICKS_PER_SECOND,
};
