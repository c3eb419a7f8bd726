//! What a cache reports about itself.
use vstd::prelude::*;

verus! {

/// A dependency that a circuit breaker guards.
#[derive(Debug, Clone, Copy, PartialEq, Eq, Structural)]
pub enum CircuitComponent {
    /// The distributed cache.
    Distributed,
    /// The backplane.
    Backplane,
}

/// An observable cache event. Keys are full keys, prefix and all.
#[derive(Debug, Clone, PartialEq, Eq)]
#[non_exhaustive]
pub enum CacheEvent {
    /// A value was served; `stale` tells whether it was past its freshness.
    Hit {
        /// The cache key.
        key: String,
        /// Whether the served value was stale.
        stale: bool,
    },
    /// Nothing servable was found for the key.
    Miss {
        /// The cache key.
        key: String,
    },
    /// A value was written to the cache.
    Put {
        /// The cache key.
        key: String,
    },
    /// A key was removed.
    Remove {
        /// The cache key.
        key: String,
    },
    /// A key was logically expired.
    Expire {
        /// The cache key.
        key: String,
    },
    /// An entry left the memory store to make room.
    Eviction {
        /// The cache key.
        key: String,
    },
    /// The factory completed on the foreground path.
    FactorySuccess {
        /// The cache key.
        key: String,
    },
    /// The factory returned an error.
    FactoryError {
        /// The cache key.
        key: String,
        /// The failure message.
        message: String,
    },
    /// The factory exceeded a soft or hard timeout.
    FactorySyntheticTimeout {
        /// The cache key.
        key: String,
    },
    /// A fallback was served because the factory failed or timed out.
    FailSafeActivate {
        /// The cache key.
        key: String,
    },
    /// A proactive background refresh was started.
    EagerRefresh {
        /// The cache key.
        key: String,
    },
    /// A factory completed in the background.
    BackgroundFactorySuccess {
        /// The cache key.
        key: String,
    },
    /// A factory failed in the background.
    BackgroundFactoryError {
        /// The cache key.
        key: String,
        /// The failure message.
        message: String,
    },
    /// All entries carrying a tag were invalidated.
    RemoveByTag {
        /// The tag.
        tag: String,
    },
    /// The whole cache was cleared.
    Clear,
    /// A circuit breaker opened or closed.
    CircuitBreakerChange {
        /// The guarded dependency.
        component: CircuitComponent,
        /// Whether the breaker is now closed.
        closed: bool,
    },
    /// A value could not be serialized for the distributed cache.
    SerializationError {
        /// The cache key.
        key: String,
        /// The failure message.
        message: String,
    },
    /// A value could not be deserialized from the distributed cache.
    DeserializationError {
        /// The cache key.
        key: String,
        /// The failure message.
        message: String,
    },
    /// A backplane message was sent.
    MessagePublished {
        /// The key the message is about.
        key: String,
    },
    /// A backplane message from another node was received.
    MessageReceived {
        /// The key the message is about.
        key: String,
    },
}

} // verus!
