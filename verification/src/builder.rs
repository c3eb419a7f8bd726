//! Setting up a cache.
use crate::cache::{Cache, CacheSettings};
use crate::circuit::CircuitBreaker;
use crate::distributed_lock::{draw, is_drawn};
use crate::options::{baseline, EntryOptions, KeyModifierMode, RemoveByTagBehavior};
use crate::recovery::{AutoRecoveryService, Pending, RecoveryConfig};
use crate::tags::{Marks, TagRegistry};
use crate::text::{hex, push_hex};
use crate::time::{ticks_of, Duration};
use vstd::prelude::*;

verus! {

/// A cache in the making.
#[derive(Debug)]
#[must_use]
pub struct CacheBuilder {
    /// The cache's name.
    pub name: Option<String>,
    /// The id of the instance.
    pub instance_id: Option<String>,
    /// What is put in front of every key.
    pub key_prefix: Option<String>,
    /// The options of an operation that brings none.
    pub default_options: EntryOptions,
    /// The most entries the memory store holds.
    pub max_capacity: Option<u64>,
    /// The number of in-process locks.
    pub lock_shards: usize,
    /// What removing by tag does.
    pub remove_by_tag_behavior: RemoveByTagBehavior,
    /// How many events a slow observer may fall behind.
    pub events_capacity: usize,
    /// Whether there is a distributed cache.
    pub has_distributed: bool,
    /// Whether there is a backplane.
    pub has_backplane: bool,
    /// Whether there is a cross-node locker.
    pub has_distributed_locker: bool,
    /// How long the distributed cache is left alone after a failure.
    pub distributed_circuit_breaker: Duration,
    /// How long the backplane is left alone after a failure.
    pub backplane_circuit_breaker: Duration,
    /// How failed operations are replayed.
    pub recovery_config: RecoveryConfig,
    /// Whether messages from other nodes are dropped.
    pub ignore_incoming_backplane: bool,
    /// The wire-format version that distributed keys carry.
    pub distributed_wire_version: String,
    /// How distributed keys carry it.
    pub distributed_key_modifier_mode: KeyModifierMode,
}

/// The instance id made of a random number.
pub open spec fn instance_id_of(random: u64) -> Seq<char> {
    "amalgam-"@ + hex(random as nat, 16)
}

/// The instance id made of a random number.
pub fn instance_id_from(random: u64) -> (id: String)
    ensures
        id@ == instance_id_of(random),
{
    let mut id = String::from_str("amalgam-");
    push_hex(&mut id, random);
    id
}

/// Whether `id` is made of a number that was drawn.
pub open spec fn is_drawn_id(id: Seq<char>) -> bool {
    exists|random: u64| is_drawn(random) && id == #[trigger] instance_id_of(random)
}

/// A random instance id.
pub fn generate_instance_id() -> (id: String)
    ensures
        is_drawn_id(id@),
{
    let random: u64 = draw();
    instance_id_from(random)
}

impl CacheBuilder {
    /// Whether everything is at its default: in memory only, without a distributed cache, a
    /// backplane or a cross-node locker, and with no breaker.
    pub open spec fn is_plain(self) -> bool {
        &&& self.name is None
        &&& self.instance_id is None
        &&& self.key_prefix is None
        &&& self.default_options == baseline(Duration { nanos: 30_000_000_000 })
        &&& self.max_capacity is None
        &&& self.lock_shards == 1024
        &&& self.remove_by_tag_behavior is Expire
        &&& self.events_capacity == 256
        &&& !self.has_distributed
        &&& !self.has_backplane
        &&& !self.has_distributed_locker
        &&& self.distributed_circuit_breaker.nanos == 0
        &&& self.backplane_circuit_breaker.nanos == 0
        &&& self.recovery_config == (RecoveryConfig {
            enabled: true,
            delay: Duration { nanos: 2_000_000_000 },
            max_items: None,
            max_retries: None,
        })
        &&& !self.ignore_incoming_backplane
        &&& self.distributed_wire_version@ == "v1"@
        &&& self.distributed_key_modifier_mode is Prefix
    }

    /// A cache with default settings: in memory only, without a distributed cache, a
    /// backplane or a cross-node locker, and with no breaker.
    pub fn new() -> (builder: Self)
        ensures
            builder.is_plain(),
    {
        CacheBuilder {
            name: None,
            instance_id: None,
            key_prefix: None,
            default_options: EntryOptions::default(),
            max_capacity: None,
            lock_shards: 1024,
            remove_by_tag_behavior: RemoveByTagBehavior::Expire,
            events_capacity: 256,
            has_distributed: false,
            has_backplane: false,
            has_distributed_locker: false,
            distributed_circuit_breaker: Duration::zero(),
            backplane_circuit_breaker: Duration::zero(),
            recovery_config: RecoveryConfig::default(),
            ignore_incoming_backplane: false,
            distributed_wire_version: String::from_str("v1"),
            distributed_key_modifier_mode: KeyModifierMode::Prefix,
        }
    }

    /// Sets the id by which the instance knows its own messages; a random one is made otherwise.
    pub fn instance_id(self, id: String) -> (builder: Self)
        ensures
            builder == (CacheBuilder { instance_id: Some(id), ..self }),
    {
        CacheBuilder { instance_id: Some(id), ..self }
    }

    /// Says whether there is a distributed cache.
    pub fn distributed(self, present: bool) -> (builder: Self)
        ensures
            builder == (CacheBuilder { has_distributed: present, ..self }),
    {
        CacheBuilder { has_distributed: present, ..self }
    }

    /// Says whether there is a backplane.
    pub fn backplane(self, present: bool) -> (builder: Self)
        ensures
            builder == (CacheBuilder { has_backplane: present, ..self }),
    {
        CacheBuilder { has_backplane: present, ..self }
    }

    /// Says whether there is a cross-node locker.
    pub fn distributed_locker(self, present: bool) -> (builder: Self)
        ensures
            builder == (CacheBuilder { has_distributed_locker: present, ..self }),
    {
        CacheBuilder { has_distributed_locker: present, ..self }
    }

    /// Sets the cache's name.
    pub fn name(self, name: String) -> (builder: Self)
        ensures
            builder == (CacheBuilder { name: Some(name), ..self }),
    {
        CacheBuilder { name: Some(name), ..self }
    }

    /// Sets what is put in front of every key.
    pub fn key_prefix(self, prefix: String) -> (builder: Self)
        ensures
            builder == (CacheBuilder { key_prefix: Some(prefix), ..self }),
    {
        CacheBuilder { key_prefix: Some(prefix), ..self }
    }

    /// Sets the options of an operation that brings none.
    pub fn default_options(self, options: EntryOptions) -> (builder: Self)
        ensures
            builder == (CacheBuilder { default_options: options, ..self }),
    {
        CacheBuilder { default_options: options, ..self }
    }

    /// Caps the number of entries held in memory.
    pub fn max_capacity(self, capacity: u64) -> (builder: Self)
        ensures
            builder == (CacheBuilder { max_capacity: Some(capacity), ..self }),
    {
        CacheBuilder { max_capacity: Some(capacity), ..self }
    }

    /// Sets the number of in-process locks.
    pub fn lock_shards(self, shards: usize) -> (builder: Self)
        ensures
            builder == (CacheBuilder { lock_shards: shards, ..self }),
    {
        CacheBuilder { lock_shards: shards, ..self }
    }

    /// Sets what removing by tag does.
    pub fn remove_by_tag_behavior(self, behavior: RemoveByTagBehavior) -> (builder: Self)
        ensures
            builder == (CacheBuilder { remove_by_tag_behavior: behavior, ..self }),
    {
        CacheBuilder { remove_by_tag_behavior: behavior, ..self }
    }

    /// Sets how many events a slow observer may fall behind.
    pub fn events_capacity(self, capacity: usize) -> (builder: Self)
        ensures
            builder == (CacheBuilder { events_capacity: capacity, ..self }),
    {
        CacheBuilder { events_capacity: capacity, ..self }
    }

    /// Sets how long the distributed cache is left alone after a failure.
    pub fn distributed_circuit_breaker(self, duration: Duration) -> (builder: Self)
        ensures
            builder == (CacheBuilder { distributed_circuit_breaker: duration, ..self }),
    {
        CacheBuilder { distributed_circuit_breaker: duration, ..self }
    }

    /// Sets how long the backplane is left alone after a failure.
    pub fn backplane_circuit_breaker(self, duration: Duration) -> (builder: Self)
        ensures
            builder == (CacheBuilder { backplane_circuit_breaker: duration, ..self }),
    {
        CacheBuilder { backplane_circuit_breaker: duration, ..self }
    }

    /// Sets how failed operations are replayed, if at all.
    pub fn auto_recovery(self, config: RecoveryConfig) -> (builder: Self)
        ensures
            builder == (CacheBuilder { recovery_config: config, ..self }),
    {
        CacheBuilder { recovery_config: config, ..self }
    }

    /// Drops messages from other nodes.
    pub fn ignore_incoming_backplane(self, ignore: bool) -> (builder: Self)
        ensures
            builder == (CacheBuilder { ignore_incoming_backplane: ignore, ..self }),
    {
        CacheBuilder { ignore_incoming_backplane: ignore, ..self }
    }

    /// Sets the wire-format version that distributed keys carry.
    pub fn distributed_wire_version(self, version: String) -> (builder: Self)
        ensures
            builder == (CacheBuilder { distributed_wire_version: version, ..self }),
    {
        CacheBuilder { distributed_wire_version: version, ..self }
    }

    /// Sets how distributed keys carry the version.
    pub fn distributed_key_modifier_mode(self, mode: KeyModifierMode) -> (builder: Self)
        ensures
            builder == (CacheBuilder { distributed_key_modifier_mode: mode, ..self }),
    {
        CacheBuilder { distributed_key_modifier_mode: mode, ..self }
    }

    /// Builds the cache: no markers, both breakers closed, and an empty recovery queue if
    /// recovery is enabled and there is something to recover.
    pub fn build(self) -> (cache: Cache)
        ensures
            cache.settings.name@ == (match self.name {
                Some(name) => name@,
                None => "amalgam"@,
            }),
            match self.instance_id {
                Some(id) => cache.settings.instance_id == id,
                None => is_drawn_id(cache.settings.instance_id@),
            },
            cache.settings == (CacheSettings {
                name: cache.settings.name,
                instance_id: cache.settings.instance_id,
                key_prefix: self.key_prefix,
                default_options: self.default_options,
                remove_by_tag_behavior: self.remove_by_tag_behavior,
                has_distributed: self.has_distributed,
                has_backplane: self.has_backplane,
                has_distributed_locker: self.has_distributed_locker,
                ignore_incoming_backplane: self.ignore_incoming_backplane,
                distributed_wire_version: self.distributed_wire_version,
                distributed_key_modifier_mode: self.distributed_key_modifier_mode,
                max_capacity: self.max_capacity,
                lock_shards: self.lock_shards,
                events_capacity: self.events_capacity,
            }),
            cache.tags@ == Marks::none(),
            cache.circuit_l2 == (CircuitBreaker {
                open_ticks: ticks_of(self.distributed_circuit_breaker),
                closes_at: None,
            }),
            cache.circuit_backplane == (CircuitBreaker {
                open_ticks: ticks_of(self.backplane_circuit_breaker),
                closes_at: None,
            }),
            match cache.recovery {
                Some(service) => {
                    &&& self.recovery_config.enabled
                    &&& self.has_distributed || self.has_backplane
                    &&& service.settings() == self.recovery_config
                    &&& service@ == Map::<Seq<char>, Pending>::empty()
                },
                None => !(self.recovery_config.enabled && (self.has_distributed
                    || self.has_backplane)),
            },
    {
        let recovery = if self.recovery_config.enabled && (self.has_distributed
            || self.has_backplane) {
            Some(AutoRecoveryService::new(self.recovery_config))
        } else {
            None
        };
        let name = match self.name {
            Some(name) => name,
            None => String::from_str("amalgam"),
        };
        let instance_id = match self.instance_id {
            Some(id) => id,
            None => generate_instance_id(),
        };
        Cache {
            settings: CacheSettings {
                name,
                instance_id,
                key_prefix: self.key_prefix,
                default_options: self.default_options,
                remove_by_tag_behavior: self.remove_by_tag_behavior,
                has_distributed: self.has_distributed,
                has_backplane: self.has_backplane,
                has_distributed_locker: self.has_distributed_locker,
                ignore_incoming_backplane: self.ignore_incoming_backplane,
                distributed_wire_version: self.distributed_wire_version,
                distributed_key_modifier_mode: self.distributed_key_modifier_mode,
                max_capacity: self.max_capacity,
                lock_shards: self.lock_shards,
                events_capacity: self.events_capacity,
            },
            tags: TagRegistry::new(),
            circuit_l2: CircuitBreaker::new(self.distributed_circuit_breaker),
            circuit_backplane: CircuitBreaker::new(self.backplane_circuit_breaker),
            recovery,
        }
    }
}

impl Default for CacheBuilder {
    fn default() -> (builder: Self)
        ensures
            builder.is_plain(),
    {
        CacheBuilder::new()
    }
}

/// A cache is built as it was set up: every setting is carried over, a name and an id are made up
/// only where none is given; no marker is recorded, both breakers are closed and have their spans;
/// and there is an empty recovery queue exactly if recovery is on and there is something for it.
pub proof fn law_cache_is_built_as_it_was_set_up(builder: CacheBuilder, cache: Cache)
    requires
        call_ensures(CacheBuilder::build, (builder,), cache),
    ensures
        builder.name matches Some(name) ==> cache.settings.name@ == name@,
        builder.instance_id matches Some(id) ==> cache.settings.instance_id == id,
        cache.settings.key_prefix == builder.key_prefix,
        cache.settings.default_options == builder.default_options,
        cache.settings.remove_by_tag_behavior == builder.remove_by_tag_behavior,
        cache.settings.has_distributed == builder.has_distributed,
        cache.settings.has_backplane == builder.has_backplane,
        cache.settings.has_distributed_locker == builder.has_distributed_locker,
        cache.settings.ignore_incoming_backplane == builder.ignore_incoming_backplane,
        cache.settings.distributed_wire_version == builder.distributed_wire_version,
        cache.settings.distributed_key_modifier_mode == builder.distributed_key_modifier_mode,
        cache.settings.max_capacity == builder.max_capacity,
        cache.settings.lock_shards == builder.lock_shards,
        cache.settings.events_capacity == builder.events_capacity,
        cache.tags@.tags.dom() =~= Set::<Seq<char>>::empty(),
        cache.tags@.clear_expire is None && cache.tags@.clear_remove is None,
        cache.circuit_l2.closes_at is None && cache.circuit_backplane.closes_at is None,
        cache.circuit_l2.open_ticks == ticks_of(builder.distributed_circuit_breaker),
        cache.circuit_backplane.open_ticks == ticks_of(builder.backplane_circuit_breaker),
        cache.recovery is Some <==> builder.recovery_config.enabled && (builder.has_distributed
            || builder.has_backplane),
        cache.recovery matches Some(queue) ==> queue.settings() == builder.recovery_config
            && queue@.dom() =~= Set::<Seq<char>>::empty(),
{
}

/// What is set on a builder is what is found set.
pub proof fn law_builder_sets_what_it_names(
    b: CacheBuilder,
    text: String,
    flag: bool,
    span: Duration,
    options: EntryOptions,
    config: RecoveryConfig,
    behavior: RemoveByTagBehavior,
    mode: KeyModifierMode,
    made: CacheBuilder,
)
    ensures
        call_ensures(CacheBuilder::instance_id, (b, text), made) ==> made.instance_id == Some(text),
        call_ensures(CacheBuilder::name, (b, text), made) ==> made.name == Some(text),
        call_ensures(CacheBuilder::key_prefix, (b, text), made) ==> made.key_prefix == Some(text),
        call_ensures(CacheBuilder::distributed_wire_version, (b, text), made)
            ==> made.distributed_wire_version == text,
        call_ensures(CacheBuilder::distributed_key_modifier_mode, (b, mode), made)
            ==> made.distributed_key_modifier_mode == mode,
        call_ensures(CacheBuilder::distributed, (b, flag), made) ==> made.has_distributed == flag,
        call_ensures(CacheBuilder::backplane, (b, flag), made) ==> made.has_backplane == flag,
        call_ensures(CacheBuilder::distributed_locker, (b, flag), made)
            ==> made.has_distributed_locker == flag,
        call_ensures(CacheBuilder::ignore_incoming_backplane, (b, flag), made)
            ==> made.ignore_incoming_backplane == flag,
        call_ensures(CacheBuilder::default_options, (b, options), made) ==> made.default_options
            == options,
        call_ensures(CacheBuilder::remove_by_tag_behavior, (b, behavior), made)
            ==> made.remove_by_tag_behavior == behavior,
        call_ensures(CacheBuilder::distributed_circuit_breaker, (b, span), made)
            ==> made.distributed_circuit_breaker == span,
        call_ensures(CacheBuilder::backplane_circuit_breaker, (b, span), made)
            ==> made.backplane_circuit_breaker == span,
        call_ensures(CacheBuilder::auto_recovery, (b, config), made) ==> made.recovery_config
            == config,
{
}

/// A plain cache works in memory only, expires by tag, blocks nothing, hears every message, and
/// carries the version in front of distributed keys.
pub proof fn law_plain_cache_is_in_memory_only(builder: CacheBuilder)
    requires
        call_ensures(CacheBuilder::new, (), builder),
    ensures
        builder.name is None && builder.instance_id is None && builder.key_prefix is None,
        !builder.has_distributed && !builder.has_backplane && !builder.has_distributed_locker,
        !builder.ignore_incoming_backplane,
        builder.distributed_circuit_breaker.nanos == 0,
        builder.backplane_circuit_breaker.nanos == 0,
        builder.remove_by_tag_behavior is Expire,
        builder.distributed_key_modifier_mode is Prefix,
        builder.recovery_config.enabled,
        builder.recovery_config.max_items is None && builder.recovery_config.max_retries is None,
        builder.recovery_config.delay.nanos == 2_000_000_000,
        builder.max_capacity is None,
        builder.lock_shards == 1024 && builder.events_capacity == 256,
        builder.distributed_wire_version@ == "v1"@,
        builder.default_options.duration.nanos == 30_000_000_000,
        !builder.default_options.is_fail_safe_enabled,
{
}

} // verus!
