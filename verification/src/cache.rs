//! The cache's own state, and how it reads.
//!
//! Memory, the distributed cache and the backplane are reached by the runtime. The cache
//! says what to do with them, and what to make of what they hold.
use crate::circuit::CircuitBreaker;
use crate::entry::Entry;
use crate::events::CacheEvent;
use crate::maybe::MaybeValue;
use crate::options::{EntryOptions, KeyModifierMode, RemoveByTagBehavior};
use crate::recovery::AutoRecoveryService;
use crate::registry::DefaultEntryOptionsProvider;
use crate::tags::{TagRegistry, TagVerdict};
use crate::text::join;
use crate::time::{Duration, Timeout, Timestamp};
use vstd::prelude::*;

verus! {

/// How a cache is set up.
#[derive(Debug)]
pub struct CacheSettings {
    /// The cache's name.
    pub name: String,
    /// The id of this instance, by which it knows its own messages.
    pub instance_id: String,
    /// What is put in front of every key.
    pub key_prefix: Option<String>,
    /// The options of an operation that brings none.
    pub default_options: EntryOptions,
    /// What removing by tag does.
    pub remove_by_tag_behavior: RemoveByTagBehavior,
    /// Whether there is a distributed cache.
    pub has_distributed: bool,
    /// Whether there is a backplane.
    pub has_backplane: bool,
    /// Whether there is a cross-node locker.
    pub has_distributed_locker: bool,
    /// Whether messages from other nodes are dropped.
    pub ignore_incoming_backplane: bool,
    /// The wire-format version that distributed keys carry.
    pub distributed_wire_version: String,
    /// How distributed keys carry it.
    pub distributed_key_modifier_mode: KeyModifierMode,
    /// The most entries the memory store holds; `None` for any number.
    pub max_capacity: Option<u64>,
    /// The number of in-process locks asked for.
    pub lock_shards: usize,
    /// How many events a slow observer may fall behind.
    pub events_capacity: usize,
}

/// The state of a cache, apart from what is stored.
#[derive(Debug)]
pub struct Cache {
    /// How the cache is set up.
    pub settings: CacheSettings,
    /// The tag and clear markers.
    pub tags: TagRegistry,
    /// The breaker that guards the distributed cache.
    pub circuit_l2: CircuitBreaker,
    /// The breaker that guards the backplane.
    pub circuit_backplane: CircuitBreaker,
    /// The queue of operations to replay, if there is one.
    pub recovery: Option<AutoRecoveryService>,
}

/// What a key becomes with a prefix.
pub open spec fn prefixed(prefix: Option<String>, key: Seq<char>) -> Seq<char> {
    match prefix {
        Some(p) => p@ + key,
        None => key,
    }
}

/// What a key becomes in a distributed cache shared by several versions.
pub open spec fn versioned(
    mode: KeyModifierMode,
    version: Seq<char>,
    key: Seq<char>,
) -> Seq<char> {
    match mode {
        KeyModifierMode::Prefix => version + seq![':'] + key,
        KeyModifierMode::Suffix => key + seq![':'] + version,
        KeyModifierMode::Unmodified => key,
    }
}

/// What a read of the memory store comes to.
#[derive(Debug)]
pub enum L1Read<V> {
    /// The entry may be served.
    Fresh(Entry<V>),
    /// The entry may only be fallen back to.
    Stale(Entry<V>),
    /// The entry was invalidated and is to be removed; it counts as absent.
    Evicted,
    /// There is no entry.
    Miss,
}

/// What a read-only lookup comes to.
#[derive(Debug)]
pub struct Lookup<V> {
    /// The entry to serve, if any.
    pub served: Option<Entry<V>>,
    /// Whether the entry that was found is to be removed from memory.
    pub evict: bool,
    /// What to report.
    pub event: CacheEvent,
}

impl<V: Clone> Lookup<V> {
    /// The value to return.
    pub fn value(&self) -> (value: MaybeValue<V>)
        ensures
            match self.served {
                Some(entry) => value.0 matches Some(v) && cloned(*entry.value, v),
                None => value.0 is None,
            },
    {
        match &self.served {
            Some(entry) => MaybeValue::from_value(entry.value_cloned()),
            None => MaybeValue::none(),
        }
    }
}

/// A cross-node lock to ask for.
#[derive(Debug)]
pub struct LockRequest {
    /// The lock's key.
    pub key: String,
    /// How long the lock may be held.
    pub ttl: Duration,
    /// How long to wait for it.
    pub timeout: Timeout,
}

impl Cache {
    /// What the markers say of an entry.
    pub open spec fn verdict_on<V>(self, entry: Entry<V>) -> TagVerdict {
        self.tags@.verdict(
            entry.meta.created,
            entry.texts(),
            self.settings.remove_by_tag_behavior,
        )
    }

    /// Whether an entry may be served at `now`.
    pub open spec fn servable<V>(self, entry: Entry<V>, now: Timestamp) -> bool {
        self.verdict_on(entry) is Valid && entry.fresh_at(now)
    }

    /// What a read of the memory store comes to at `now`.
    pub open spec fn classified<V>(self, found: Option<Entry<V>>, now: Timestamp) -> L1Read<V> {
        match found {
            None => L1Read::Miss,
            Some(entry) => if self.verdict_on(entry) is Remove {
                L1Read::Evicted
            } else if self.servable(entry, now) {
                L1Read::Fresh(entry)
            } else {
                L1Read::Stale(entry)
            },
        }
    }

    /// The full key of `key`.
    pub fn full_key(&self, key: &str) -> (full: String)
        ensures
            full@ == prefixed(self.settings.key_prefix, key@),
    {
        match &self.settings.key_prefix {
            Some(prefix) => join(prefix.as_str(), key),
            None => String::from_str(key),
        }
    }

    /// The options of an operation, given what `provided` offers for its key: its own, or
    /// else those, or else the defaults.
    pub fn options_or_provided(
        &self,
        options: Option<EntryOptions>,
        provided: Option<EntryOptions>,
    ) -> (resolved: EntryOptions)
        ensures
            resolved == (match options {
                Some(own) => own,
                None => match provided {
                    Some(other) => other,
                    None => self.settings.default_options,
                },
            }),
    {
        match options {
            Some(own) => own,
            None => match provided {
                Some(other) => other,
                None => self.settings.default_options,
            },
        }
    }

    /// The options of an operation: its own, or else those that the provider gives for its
    /// key, or else the defaults. The provider is asked only if it has a say.
    pub fn resolve_options<P: DefaultEntryOptionsProvider>(
        &self,
        key: &str,
        options: Option<EntryOptions>,
        provider: Option<&P>,
    ) -> (resolved: EntryOptions)
        ensures
            options matches Some(own) ==> resolved == own,
            options is None && provider is None ==> resolved == self.settings.default_options,
            options is None && provider is Some ==> exists|answer: Option<EntryOptions>|
                {
                    &&& #[trigger] call_ensures(P::options_for, (provider->0, key), answer)
                    &&& resolved == (match answer {
                        Some(other) => other,
                        None => self.settings.default_options,
                    })
                },
    {
        if options.is_some() {
            return self.options_or_provided(options, None);
        }
        match provider {
            Some(p) => {
                let answer = p.options_for(key);
                assert(call_ensures(P::options_for, (p, key), answer));
                self.options_or_provided(None, answer)
            },
            None => self.options_or_provided(None, None),
        }
    }

    /// Holds what a read of the memory store found against the markers and the time.
    pub fn read_l1<V>(&self, found: Option<Entry<V>>, now: Timestamp) -> (read: L1Read<V>)
        ensures
            read == self.classified(found, now),
    {
        let entry = match found {
            Some(entry) => entry,
            None => return L1Read::Miss,
        };
        match self.tags.evaluate(
            entry.meta().created(),
            entry.meta().tags(),
            self.settings.remove_by_tag_behavior,
        ) {
            TagVerdict::Remove => L1Read::Evicted,
            TagVerdict::Expire => L1Read::Stale(entry),
            TagVerdict::Valid => if entry.freshness(now).is_fresh() {
                L1Read::Fresh(entry)
            } else {
                L1Read::Stale(entry)
            },
        }
    }

    /// Concludes a read-only lookup from what the memory store holds: a fresh entry is
    /// served, a stale one only where the options allow it. With memory reads skipped
    /// nothing is.
    pub fn try_get<V>(
        &self,
        full_key: &String,
        options: &EntryOptions,
        found: Option<Entry<V>>,
        now: Timestamp,
    ) -> (lookup: Lookup<V>)
        ensures
            ({
                let read = self.classified(found, now);
                let miss = Lookup {
                    served: None,
                    evict: !options.skip_memory_read && read is Evicted,
                    event: CacheEvent::Miss { key: *full_key },
                };
                lookup == (if options.skip_memory_read {
                    miss
                } else {
                    match read {
                        L1Read::Fresh(entry) => Lookup {
                            served: Some(entry),
                            evict: false,
                            event: CacheEvent::Hit { key: *full_key, stale: false },
                        },
                        L1Read::Stale(entry) => if options.allow_stale_on_read_only {
                            Lookup {
                                served: Some(entry),
                                evict: false,
                                event: CacheEvent::Hit { key: *full_key, stale: true },
                            }
                        } else {
                            miss
                        },
                        _ => miss,
                    }
                })
            }),
    {
        if options.skip_memory_read() {
            return Lookup {
                served: None,
                evict: false,
                event: CacheEvent::Miss { key: full_key.clone() },
            };
        }
        match self.read_l1(found, now) {
            L1Read::Fresh(entry) => Lookup {
                served: Some(entry),
                evict: false,
                event: CacheEvent::Hit { key: full_key.clone(), stale: false },
            },
            L1Read::Stale(entry) => if options.allow_stale_on_read_only() {
                Lookup {
                    served: Some(entry),
                    evict: false,
                    event: CacheEvent::Hit { key: full_key.clone(), stale: true },
                }
            } else {
                Lookup {
                    served: None,
                    evict: false,
                    event: CacheEvent::Miss { key: full_key.clone() },
                }
            },
            L1Read::Evicted => Lookup {
                served: None,
                evict: true,
                event: CacheEvent::Miss { key: full_key.clone() },
            },
            L1Read::Miss => Lookup {
                served: None,
                evict: false,
                event: CacheEvent::Miss { key: full_key.clone() },
            },
        }
    }

    /// The key under which the distributed cache holds an entry.
    pub fn l2_key(&self, full_key: &str) -> (key: String)
        ensures
            key@ == versioned(
                self.settings.distributed_key_modifier_mode,
                self.settings.distributed_wire_version@,
                full_key@,
            ),
    {
        let version = self.settings.distributed_wire_version.as_str();
        match self.settings.distributed_key_modifier_mode {
            KeyModifierMode::Prefix => {
                let mut key = String::from_str(version);
                key.push(':');
                key.append(full_key);
                assert(key@ =~= version@ + seq![':'] + full_key@);
                key
            },
            KeyModifierMode::Suffix => {
                let mut key = String::from_str(full_key);
                key.push(':');
                key.append(version);
                assert(key@ =~= full_key@ + seq![':'] + version@);
                key
            },
            KeyModifierMode::Unmodified => String::from_str(full_key),
        }
    }

    /// The cross-node lock to ask for, if there is a locker and it is not to be skipped.
    pub fn lock_request(&self, full_key: &str, options: &EntryOptions) -> (request: Option<
        LockRequest,
    >)
        ensures
            match request {
                Some(r) => {
                    &&& self.settings.has_distributed_locker && !options.skip_distributed_locker
                    &&& r.key@ == "amalgam:lock:"@ + full_key@
                    &&& r.ttl == options.memory_lifetime()
                    &&& r.timeout == (match options.distributed_lock_timeout {
                        Some(t) => t,
                        None => options.lock_timeout,
                    })
                },
                None => !self.settings.has_distributed_locker || options.skip_distributed_locker,
            },
    {
        if options.skip_distributed_locker() || !self.settings.has_distributed_locker {
            return None;
        }
        Some(
            LockRequest {
                key: join("amalgam:lock:", full_key),
                ttl: options.physical_ttl(),
                timeout: options.distributed_lock_timeout(),
            },
        )
    }
}

/// Two keys never share a full key.
pub proof fn law_full_keys_are_distinct(prefix: Option<String>, a: Seq<char>, b: Seq<char>)
    requires
        a != b,
    ensures
        prefixed(prefix, a) != prefixed(prefix, b),
{
    if prefixed(prefix, a) == prefixed(prefix, b) {
        if let Some(p) = prefix {
            assert((p@ + a).skip(p@.len() as int) =~= a);
            assert((p@ + b).skip(p@.len() as int) =~= b);
        }
    }
}

/// Under one version, two keys never share a distributed key.
pub proof fn law_distributed_keys_are_distinct(
    mode: KeyModifierMode,
    version: Seq<char>,
    a: Seq<char>,
    b: Seq<char>,
)
    requires
        a != b,
    ensures
        versioned(mode, version, a) != versioned(mode, version, b),
{
    let x = versioned(mode, version, a);
    let y = versioned(mode, version, b);
    if x == y {
        match mode {
            KeyModifierMode::Prefix => {
                assert(x.skip(version.len() as int + 1) =~= a);
                assert(y.skip(version.len() as int + 1) =~= b);
            },
            KeyModifierMode::Suffix => {
                assert(x.take(x.len() - version.len() - 1) =~= a);
                assert(y.take(y.len() - version.len() - 1) =~= b);
            },
            KeyModifierMode::Unmodified => {},
        }
    }
}

/// Two versions whose names hold no colon never share a distributed key, whatever the keys,
/// as long as keys carry the version at all: several versions can use one distributed cache.
pub proof fn law_versions_do_not_collide(
    mode: KeyModifierMode,
    v: Seq<char>,
    w: Seq<char>,
    a: Seq<char>,
    b: Seq<char>,
)
    requires
        !(mode is Unmodified),
        v != w,
        !v.contains(':'),
        !w.contains(':'),
    ensures
        versioned(mode, v, a) != versioned(mode, w, b),
{
    let x = versioned(mode, v, a);
    let y = versioned(mode, w, b);
    if x == y {
        match mode {
            KeyModifierMode::Prefix => {
                assert(x[v.len() as int] == ':');
                assert(y[w.len() as int] == ':');
                if v.len() < w.len() {
                    assert(y[v.len() as int] == w[v.len() as int]);
                } else if w.len() < v.len() {
                    assert(x[w.len() as int] == v[w.len() as int]);
                } else {
                    assert(x.take(v.len() as int) =~= v);
                    assert(y.take(w.len() as int) =~= w);
                }
            },
            KeyModifierMode::Suffix => {
                let n = x.len();
                assert(x[n - v.len() - 1] == ':');
                assert(y[n - w.len() - 1] == ':');
                if v.len() < w.len() {
                    assert(y[n - v.len() - 1] == w[w.len() - v.len() - 1]);
                } else if w.len() < v.len() {
                    assert(x[n - w.len() - 1] == v[v.len() - w.len() - 1]);
                } else {
                    assert(x.skip(n - v.len()) =~= v);
                    assert(y.skip(n - w.len()) =~= w);
                }
            },
            KeyModifierMode::Unmodified => {},
        }
    }
}

/// Nothing is served that a marker invalidates: what is served from memory is fresh and held
/// valid by the markers.
pub proof fn law_only_valid_entries_are_fresh<V>(
    cache: Cache,
    found: Option<Entry<V>>,
    now: Timestamp,
)
    ensures
        cache.classified(found, now) matches L1Read::Fresh(entry) ==> {
            &&& found == Some(entry)
            &&& cache.verdict_on(entry) is Valid
            &&& entry.fresh_at(now)
        },
        cache.classified(found, now) matches L1Read::Stale(entry) ==> {
            &&& found == Some(entry)
            &&& !(cache.verdict_on(entry) is Remove)
        },
{
}

/// What the markers say of an entry, in terms of the markers themselves: it is valid exactly if
/// no clear and no marker of one of its own tags was recorded for its creation or later, and it
/// is removed exactly if a removing clear was, or if such a tag marker was and markers remove.
pub proof fn law_entry_falls_to_clears_and_own_tags<V>(cache: Cache, entry: Entry<V>)
    ensures
        ({
            let marks = cache.tags@;
            let created = entry.meta.created.0;
            let removed = marks.clear_remove matches Some(at) && created <= at;
            let expired = marks.clear_expire matches Some(at) && created <= at;
            let hit = exists|i: int|
                0 <= i < entry.meta.tags@.len() && marks.tags.contains_key(
                    (#[trigger] entry.meta.tags@[i])@,
                ) && created <= marks.tags[entry.meta.tags@[i]@];
            &&& cache.verdict_on(entry) is Remove <==> removed || (hit
                && cache.settings.remove_by_tag_behavior is Remove)
            &&& cache.verdict_on(entry) is Valid <==> !removed && !expired && !hit
        }),
{
    let marks = cache.tags@;
    let texts = entry.texts();
    let tags = entry.meta.tags@;
    let created = entry.meta.created;
    if marks.hits(created, texts) {
        let i = choose|i: int|
            0 <= i < texts.len() && marks.tags.contains_key(#[trigger] texts[i]) && created.0
                <= marks.tags[texts[i]];
        assert(marks.tags.contains_key(tags[i]@));
    }
    if exists|i: int|
        0 <= i < tags.len() && marks.tags.contains_key((#[trigger] tags[i])@) && created.0
            <= marks.tags[tags[i]@] {
        let i = choose|i: int|
            0 <= i < tags.len() && marks.tags.contains_key((#[trigger] tags[i])@) && created.0
                <= marks.tags[tags[i]@];
        assert(marks.tags.contains_key(texts[i]));
    }
}

/// What a read of memory comes to: the entry that was found, as fresh exactly if the markers
/// hold it valid and its freshness has not ended; as gone exactly if the markers remove it; and
/// otherwise as a fallback.
pub proof fn law_memory_read_tells_fresh_from_stale<V>(
    cache: Cache,
    found: Option<Entry<V>>,
    now: Timestamp,
    read: L1Read<V>,
)
    requires
        call_ensures(Cache::read_l1::<V>, (&cache, found, now), read),
    ensures
        read == cache.classified(found, now),
        found is None <==> read is Miss,
        found matches Some(entry) ==> {
            let valid = cache.verdict_on(entry) is Valid;
            let removed = cache.verdict_on(entry) is Remove;
            let fresh = now.0 < entry.meta.logical_expiration.0;
            &&& valid && fresh ==> read == L1Read::Fresh(entry)
            &&& removed ==> read is Evicted
            &&& !removed && !(valid && fresh) ==> read == L1Read::Stale(entry)
        },
{
}

/// A lookup serves what memory holds or nothing. It serves nothing that the markers remove, and
/// what is invalidated or past its freshness only where stale values are allowed, and then
/// reports it as such. What is fresh and valid is always served, unless memory is not to be read.
/// A miss is reported exactly if nothing is served, and only what the markers remove is evicted.
pub proof fn law_lookup_serves_what_it_may<V>(
    cache: Cache,
    key: String,
    options: EntryOptions,
    found: Option<Entry<V>>,
    now: Timestamp,
    lookup: Lookup<V>,
)
    requires
        call_ensures(Cache::try_get::<V>, (&cache, &key, &options, found, now), lookup),
    ensures
        lookup.served matches Some(entry) ==> {
            let fresh = cache.verdict_on(entry) is Valid && now.0 < entry.meta.logical_expiration.0;
            &&& found == Some(entry)
            &&& !options.skip_memory_read
            &&& !(cache.verdict_on(entry) is Remove)
            &&& fresh || options.allow_stale_on_read_only
            &&& lookup.event == (CacheEvent::Hit { key, stale: !fresh })
        },
        lookup.served is None ==> lookup.event == (CacheEvent::Miss { key }),
        !options.skip_memory_read ==> (found matches Some(entry) ==> {
            &&& cache.verdict_on(entry) is Valid && now.0 < entry.meta.logical_expiration.0
                ==> lookup.served == Some(entry)
            &&& options.allow_stale_on_read_only && !(cache.verdict_on(entry) is Remove)
                ==> lookup.served == Some(entry)
            &&& lookup.evict == (cache.verdict_on(entry) is Remove)
        }),
        found is None || options.skip_memory_read ==> lookup.served is None && !lookup.evict,
{
}

/// An operation goes by its own options if it has any, or else by those that are provided for
/// its key, or else by the cache's defaults.
pub proof fn law_own_options_come_first(
    cache: Cache,
    options: Option<EntryOptions>,
    provided: Option<EntryOptions>,
    resolved: EntryOptions,
)
    requires
        call_ensures(Cache::options_or_provided, (&cache, options, provided), resolved),
    ensures
        options matches Some(own) ==> resolved == own,
        options is None && provided is Some ==> Some(resolved) == provided,
        options is None && provided is None ==> resolved == cache.settings.default_options,
{
}

/// Full keys and distributed keys: two keys never share one, a prefix stands in front of the key
/// and only in front, and the version stands at the end that the mode names, set off by a colon.
pub proof fn law_keys_stay_apart(
    cache: Cache,
    a: &str,
    b: &str,
    full_a: String,
    full_b: String,
    distributed_a: String,
    distributed_b: String,
)
    requires
        call_ensures(Cache::full_key, (&cache, a), full_a),
        call_ensures(Cache::full_key, (&cache, b), full_b),
        call_ensures(Cache::l2_key, (&cache, a), distributed_a),
        call_ensures(Cache::l2_key, (&cache, b), distributed_b),
    ensures
        full_a@ == full_b@ <==> a@ == b@,
        distributed_a@ == distributed_b@ <==> a@ == b@,
        cache.settings.key_prefix is None ==> full_a@ == a@,
        cache.settings.key_prefix matches Some(p) ==> full_a@ == p@ + a@,
        cache.settings.distributed_key_modifier_mode is Unmodified ==> distributed_a@ == a@,
        cache.settings.distributed_key_modifier_mode is Prefix ==> distributed_a@
            == cache.settings.distributed_wire_version@ + seq![':'] + a@,
        cache.settings.distributed_key_modifier_mode is Suffix ==> distributed_a@ == a@ + seq![':']
            + cache.settings.distributed_wire_version@,
{
    if a@ != b@ {
        law_full_keys_are_distinct(cache.settings.key_prefix, a@, b@);
        law_distributed_keys_are_distinct(
            cache.settings.distributed_key_modifier_mode,
            cache.settings.distributed_wire_version@,
            a@,
            b@,
        );
    }
}

/// The cross-node lock is asked for exactly if there is a locker and it is not to be skipped,
/// under a key of its own, for as long as an entry is kept, and waited for as long as the options
/// say for it.
pub proof fn law_cross_node_lock_is_asked_for(
    cache: Cache,
    key: &str,
    options: EntryOptions,
    kept: Duration,
    wait: Timeout,
    request: Option<LockRequest>,
)
    requires
        call_ensures(Cache::lock_request, (&cache, key, &options), request),
        call_ensures(EntryOptions::physical_ttl, (&options,), kept),
        call_ensures(EntryOptions::distributed_lock_timeout, (&options,), wait),
    ensures
        request is Some <==> cache.settings.has_distributed_locker
            && !options.skip_distributed_locker,
        request matches Some(asked) ==> {
            &&& asked.key@ == "amalgam:lock:"@ + key@
            &&& asked.ttl == kept
            &&& asked.timeout == wait
        },
{
}

/// A provider of options is asked only where an operation has none of its own, and what it answers
/// for the key is what counts then; the defaults count where it has no answer.
pub proof fn law_provider_is_asked_only_without_own_options<P: DefaultEntryOptionsProvider>(
    cache: Cache,
    key: &str,
    options: Option<EntryOptions>,
    provider: Option<&P>,
    resolved: EntryOptions,
)
    requires
        call_ensures(Cache::resolve_options::<P>, (&cache, key, options, provider), resolved),
    ensures
        options matches Some(own) ==> resolved == own,
        options is None && provider is None ==> resolved == cache.settings.default_options,
        options is None && provider is Some ==> exists|answer: Option<EntryOptions>|
            {
                &&& #[trigger] call_ensures(P::options_for, (provider->0, key), answer)
                &&& answer matches Some(other) ==> resolved == other
                &&& answer is None ==> resolved == cache.settings.default_options
            },
{
}

/// What a lookup returns is the value of the entry it serves, and no value exactly if it serves
/// none.
pub proof fn law_lookup_returns_the_value_it_serves<V: Clone>(
    lookup: Lookup<V>,
    value: MaybeValue<V>,
)
    requires
        call_ensures(Lookup::<V>::value, (&lookup,), value),
    ensures
        value.0 is Some <==> lookup.served is Some,
        value.0 matches Some(v) ==> cloned(*lookup.served->0.value, v),
{
}

} // verus!
