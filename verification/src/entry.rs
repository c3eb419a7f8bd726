//! The cache entry: a value and the metadata that decides how it may be used.
//!
//! An entry is fresh up to its logical expiration, then stale: usable only as a
//! fallback, up to its physical expiration. Entries never change; expiring or
//! throttling one makes another entry that shares the value.
use crate::options::{
    law_jitter_stays_in_bounds, law_lifetime_is_the_longer_window, EntryOptions,
};
use crate::tags::{tag_texts, Tag};
use crate::time::{elapsed_between, later_by, law_later_is_monotone, Duration, Timestamp};
use std::sync::Arc;
use vstd::prelude::*;

verus! {

/// Whether an entry is still within its freshness window.
#[derive(Debug, Clone, Copy, PartialEq, Eq, Structural)]
pub enum Freshness {
    /// Before the logical expiration: may be returned as it is.
    Fresh,
    /// At or after the logical expiration: usable as a fallback only.
    Stale,
}

impl Freshness {
    /// `true` if the entry is fresh.
    pub fn is_fresh(self) -> (fresh: bool)
        ensures
            fresh == (self is Fresh),
    {
        matches!(self, Freshness::Fresh)
    }
}

/// Metadata stored alongside a cached value.
#[derive(Debug)]
pub struct Metadata {
    /// When the value was produced.
    pub created: Timestamp,
    /// Where freshness ends.
    pub logical_expiration: Timestamp,
    /// Where the entry ends.
    pub physical_expiration: Timestamp,
    /// How long the memory store is to keep the entry.
    pub backend_ttl: Duration,
    /// Whether the entry re-serves a fallback.
    pub is_from_fail_safe: bool,
    /// When to start a proactive refresh, if at all.
    pub eager_refresh_at: Option<Timestamp>,
    /// The entity tag, for conditional refresh.
    pub etag: Option<String>,
    /// The last-modified instant, for conditional refresh.
    pub last_modified: Option<Timestamp>,
    /// The tags attached to the entry.
    pub tags: Arc<Vec<Tag>>,
}

impl Clone for Metadata {
    fn clone(&self) -> (copy: Self)
        ensures
            copy == *self,
    {
        Metadata {
            created: self.created,
            logical_expiration: self.logical_expiration,
            physical_expiration: self.physical_expiration,
            backend_ttl: self.backend_ttl,
            is_from_fail_safe: self.is_from_fail_safe,
            eager_refresh_at: self.eager_refresh_at,
            etag: clone_text(&self.etag),
            last_modified: self.last_modified,
            tags: Arc::clone(&self.tags),
        }
    }
}

impl Metadata {
    /// When the value was produced.
    pub fn created(&self) -> (at: Timestamp)
        ensures
            at == self.created,
    {
        self.created
    }

    /// Where freshness ends.
    pub fn logical_expiration(&self) -> (at: Timestamp)
        ensures
            at == self.logical_expiration,
    {
        self.logical_expiration
    }

    /// Where the entry ends.
    pub fn physical_expiration(&self) -> (at: Timestamp)
        ensures
            at == self.physical_expiration,
    {
        self.physical_expiration
    }

    /// The tags attached to the entry.
    pub fn tags(&self) -> (tags: &Vec<Tag>)
        ensures
            *tags == *self.tags,
    {
        &self.tags
    }

    /// The entity tag, if any.
    pub fn etag(&self) -> (etag: Option<&str>)
        ensures
            match self.etag {
                Some(text) => etag matches Some(t) && t@ == text@,
                None => etag is None,
            },
    {
        match &self.etag {
            Some(text) => Some(text.as_str()),
            None => None,
        }
    }

    /// The last-modified instant, if any.
    pub fn last_modified(&self) -> (at: Option<Timestamp>)
        ensures
            at == self.last_modified,
    {
        self.last_modified
    }

    /// `true` if the entry re-serves a fallback.
    pub fn is_from_fail_safe(&self) -> (yes: bool)
        ensures
            yes == self.is_from_fail_safe,
    {
        self.is_from_fail_safe
    }
}

/// Clones optional text.
pub(crate) fn clone_text(text: &Option<String>) -> (copy: Option<String>)
    ensures
        copy == *text,
{
    match text {
        Some(t) => Some(t.clone()),
        None => None,
    }
}

/// A cheaply cloneable handle to a cached value and its metadata.
#[derive(Debug)]
pub struct Entry<V> {
    /// The cached value.
    pub value: Arc<V>,
    /// The entry's metadata.
    pub meta: Arc<Metadata>,
}

impl<V> Clone for Entry<V> {
    fn clone(&self) -> (entry: Self)
        ensures
            entry == *self,
    {
        Entry { value: Arc::clone(&self.value), meta: Arc::clone(&self.meta) }
    }
}

impl<V> Entry<V> {
    /// Whether the entry is fresh at `now`.
    pub open spec fn fresh_at(self, now: Timestamp) -> bool {
        now.0 < self.meta.logical_expiration.0
    }

    /// Whether the entry still exists at `now`.
    pub open spec fn alive_at(self, now: Timestamp) -> bool {
        now.0 < self.meta.physical_expiration.0
    }

    /// The entry's metadata.
    pub open spec fn metadata(self) -> Metadata {
        *self.meta
    }

    /// The texts of the entry's tags.
    pub open spec fn texts(self) -> Seq<Seq<char>> {
        tag_texts(self.meta.tags@)
    }

    /// Borrows the cached value.
    pub fn value(&self) -> (value: &V)
        ensures
            *value == *self.value,
    {
        &self.value
    }

    /// The entry's metadata.
    pub fn meta(&self) -> (meta: &Metadata)
        ensures
            *meta == *self.meta,
    {
        &self.meta
    }

    /// How long the memory store is to keep the entry.
    pub fn backend_ttl(&self) -> (ttl: Duration)
        ensures
            ttl == self.meta.backend_ttl,
    {
        self.meta.backend_ttl
    }

    /// Freshness at `now`.
    pub fn freshness(&self, now: Timestamp) -> (freshness: Freshness)
        ensures
            freshness is Fresh <==> self.fresh_at(now),
    {
        if now.is_before(self.meta.logical_expiration) {
            Freshness::Fresh
        } else {
            Freshness::Stale
        }
    }

    /// `true` if the entry is past its freshness at `now`.
    pub fn is_logically_expired(&self, now: Timestamp) -> (expired: bool)
        ensures
            expired == !self.fresh_at(now),
    {
        !now.is_before(self.meta.logical_expiration)
    }

    /// `true` if the entry is unusable at `now`, even as a fallback.
    pub fn is_physically_expired(&self, now: Timestamp) -> (expired: bool)
        ensures
            expired == !self.alive_at(now),
    {
        !now.is_before(self.meta.physical_expiration)
    }

    /// Whether a proactive refresh is due at `now`: the entry is fresh, past its eager
    /// threshold, and not itself a fallback.
    pub open spec fn refresh_due(self, now: Timestamp) -> bool {
        &&& !self.meta.is_from_fail_safe
        &&& self.meta.eager_refresh_at matches Some(at)
        &&& at.0 <= now.0
        &&& self.fresh_at(now)
    }

    /// `true` if a proactive refresh should start now.
    pub fn should_eager_refresh(&self, now: Timestamp) -> (due: bool)
        ensures
            due == self.refresh_due(now),
    {
        if self.meta.is_from_fail_safe {
            return false;
        }
        match self.meta.eager_refresh_at {
            Some(at) => !now.is_before(at) && now.is_before(self.meta.logical_expiration),
            None => false,
        }
    }

    /// Whether this is an entry for a value produced at `created`: fresh for its window and
    /// whatever jitter adds, and kept for its lifetime.
    pub open spec fn is_made_of(
        self,
        value: V,
        options: EntryOptions,
        created: Timestamp,
        tags: Vec<Tag>,
        etag: Option<String>,
        last_modified: Option<Timestamp>,
        eager_share: Duration,
    ) -> bool {
        &&& *self.value == value
        &&& options.may_expire_at(created, self.meta.logical_expiration)
        &&& options.jitter_max.nanos == 0 ==> self.meta.logical_expiration == later_by(
            created,
            options.memory_window(),
        )
        &&& *self.meta == (Metadata {
            created,
            logical_expiration: self.meta.logical_expiration,
            physical_expiration: later_by(created, options.memory_lifetime()),
            backend_ttl: options.memory_lifetime(),
            is_from_fail_safe: false,
            eager_refresh_at: match options.eager_refresh_threshold {
                Some(_) => Some(later_by(created, eager_share)),
                None => None,
            },
            etag,
            last_modified,
            tags: self.meta.tags,
        })
        &&& *self.meta.tags == tags
    }

    /// An entry for a freshly produced value whose freshness ends at
    /// `logical_expiration`. `eager_share` is the part of the freshness window after
    /// which a proactive refresh is due; it counts only with a threshold set.
    pub fn fresh_until(
        value: V,
        options: &EntryOptions,
        created: Timestamp,
        logical_expiration: Timestamp,
        tags: Vec<Tag>,
        etag: Option<String>,
        last_modified: Option<Timestamp>,
        eager_share: Duration,
    ) -> (entry: Self)
        ensures
            *entry.value == value,
            *entry.meta == (Metadata {
                created,
                logical_expiration,
                physical_expiration: later_by(created, options.memory_lifetime()),
                backend_ttl: options.memory_lifetime(),
                is_from_fail_safe: false,
                eager_refresh_at: match options.eager_refresh_threshold {
                    Some(_) => Some(later_by(created, eager_share)),
                    None => None,
                },
                etag,
                last_modified,
                tags: entry.meta.tags,
            }),
            *entry.meta.tags == tags,
    {
        let physical_ttl = options.physical_ttl();
        let meta = Metadata {
            created,
            logical_expiration,
            physical_expiration: created.saturating_add(physical_ttl),
            backend_ttl: physical_ttl,
            is_from_fail_safe: false,
            eager_refresh_at: options.eager_refresh_at(created, eager_share),
            etag,
            last_modified,
            tags: Arc::new(tags),
        };
        Entry { value: Arc::new(value), meta: Arc::new(meta) }
    }

    /// An entry for a freshly produced value: fresh for its window, put off at random by
    /// at most the options' jitter.
    pub fn fresh(
        value: V,
        options: &EntryOptions,
        created: Timestamp,
        tags: Vec<Tag>,
        etag: Option<String>,
        last_modified: Option<Timestamp>,
        eager_share: Duration,
    ) -> (entry: Self)
        ensures
            entry.is_made_of(
                value,
                *options,
                created,
                tags,
                etag,
                last_modified,
                eager_share,
            ),
    {
        let logical_expiration = options.logical_expiration(created);
        Entry::fresh_until(
            value,
            options,
            created,
            logical_expiration,
            tags,
            etag,
            last_modified,
            eager_share,
        )
    }

    /// `source` re-served as a fallback at `now`: fresh again for the throttle window,
    /// ending where it ended before.
    pub open spec fn throttled_from(
        source: Entry<V>,
        options: EntryOptions,
        now: Timestamp,
    ) -> Entry<V> {
        Entry {
            value: source.value,
            meta: Arc::new(
                Metadata {
                    logical_expiration: later_by(now, options.fail_safe_throttle_duration),
                    backend_ttl: elapsed_between(now, source.meta.physical_expiration),
                    is_from_fail_safe: true,
                    eager_refresh_at: None,
                    ..*source.meta
                },
            ),
        }
    }

    /// Re-serves `source` as a fallback for the throttle window; `None` if it has ended.
    pub fn throttled(source: &Entry<V>, options: &EntryOptions, now: Timestamp) -> (entry: Option<
        Self,
    >)
        ensures
            match entry {
                Some(e) => source.alive_at(now) && e == Self::throttled_from(
                    *source,
                    *options,
                    now,
                ),
                None => !source.alive_at(now),
            },
    {
        if source.is_physically_expired(now) {
            return None;
        }
        let physical_expiration = source.meta.physical_expiration;
        let meta = Metadata {
            created: source.meta.created,
            logical_expiration: now.saturating_add(options.fail_safe_throttle_duration()),
            physical_expiration,
            backend_ttl: physical_expiration.saturating_duration_since(now),
            is_from_fail_safe: true,
            eager_refresh_at: None,
            etag: clone_text(&source.meta.etag),
            last_modified: source.meta.last_modified,
            tags: Arc::clone(&source.meta.tags),
        };
        Some(Entry { value: Arc::clone(&source.value), meta: Arc::new(meta) })
    }

    /// `self` with its freshness ended at `at`, ending where it ended before.
    pub open spec fn expired_at(self, at: Timestamp) -> Entry<V> {
        Entry {
            value: self.value,
            meta: Arc::new(
                Metadata {
                    logical_expiration: at,
                    eager_refresh_at: None,
                    backend_ttl: elapsed_between(at, self.meta.physical_expiration),
                    ..*self.meta
                },
            ),
        }
    }

    /// A copy of this entry that is past its freshness from `at` on, but still usable as
    /// a fallback for as long as before.
    pub fn with_logical_expiration(&self, at: Timestamp) -> (entry: Self)
        ensures
            entry == self.expired_at(at),
    {
        let physical_expiration = self.meta.physical_expiration;
        let meta = Metadata {
            created: self.meta.created,
            logical_expiration: at,
            physical_expiration,
            backend_ttl: physical_expiration.saturating_duration_since(at),
            is_from_fail_safe: self.meta.is_from_fail_safe,
            eager_refresh_at: None,
            etag: clone_text(&self.meta.etag),
            last_modified: self.meta.last_modified,
            tags: Arc::clone(&self.meta.tags),
        };
        Entry { value: Arc::clone(&self.value), meta: Arc::new(meta) }
    }

    /// Rebuilds an entry from what a distributed cache stores of it. How long the memory
    /// store is to keep it follows from its end.
    pub fn rehydrate(
        value: V,
        created: Timestamp,
        logical_expiration: Timestamp,
        physical_expiration: Timestamp,
        is_from_fail_safe: bool,
        etag: Option<String>,
        last_modified: Option<Timestamp>,
        tags: Vec<Tag>,
        now: Timestamp,
    ) -> (entry: Self)
        ensures
            *entry.value == value,
            *entry.meta == (Metadata {
                created,
                logical_expiration,
                physical_expiration,
                backend_ttl: elapsed_between(now, physical_expiration),
                is_from_fail_safe,
                eager_refresh_at: None,
                etag,
                last_modified,
                tags: entry.meta.tags,
            }),
            *entry.meta.tags == tags,
    {
        let meta = Metadata {
            created,
            logical_expiration,
            physical_expiration,
            backend_ttl: physical_expiration.saturating_duration_since(now),
            is_from_fail_safe,
            eager_refresh_at: None,
            etag,
            last_modified,
            tags: Arc::new(tags),
        };
        Entry { value: Arc::new(value), meta: Arc::new(meta) }
    }

    /// An entry that serves a fail-safe default for the throttle window.
    pub fn from_fail_safe_default(value: V, options: &EntryOptions, now: Timestamp) -> (entry: Self)
        ensures
            *entry.value == value,
            *entry.meta == (Metadata {
                created: now,
                logical_expiration: later_by(now, options.fail_safe_throttle_duration),
                physical_expiration: later_by(now, options.memory_lifetime()),
                backend_ttl: options.memory_lifetime(),
                is_from_fail_safe: true,
                eager_refresh_at: None,
                etag: None,
                last_modified: None,
                tags: entry.meta.tags,
            }),
            entry.meta.tags@.len() == 0,
    {
        let meta = Metadata {
            created: now,
            logical_expiration: now.saturating_add(options.fail_safe_throttle_duration()),
            physical_expiration: now.saturating_add(options.physical_ttl()),
            backend_ttl: options.physical_ttl(),
            is_from_fail_safe: true,
            eager_refresh_at: None,
            etag: None,
            last_modified: None,
            tags: Arc::new(Vec::new()),
        };
        Entry { value: Arc::new(value), meta: Arc::new(meta) }
    }
}

impl<V: Clone> Entry<V> {
    /// Clones the cached value out.
    pub fn value_cloned(&self) -> (value: V)
        ensures
            cloned(*self.value, value),
    {
        (*self.value).clone()
    }
}

/// A freshly made entry is fresh, and exists, up to the end of its window at least; without
/// jitter it exists for as long as it is fresh.
pub proof fn law_fresh_entry_lasts_its_window<V>(
    entry: Entry<V>,
    value: V,
    options: EntryOptions,
    created: Timestamp,
    tags: Vec<Tag>,
    etag: Option<String>,
    last_modified: Option<Timestamp>,
    eager_share: Duration,
    now: Timestamp,
)
    requires
        entry.is_made_of(value, options, created, tags, etag, last_modified, eager_share),
    ensures
        now.0 < later_by(created, options.memory_window()).0 ==> entry.fresh_at(now),
        now.0 < later_by(created, options.memory_window()).0 ==> entry.alive_at(now),
        options.jitter_max.nanos == 0 && entry.fresh_at(now) ==> entry.alive_at(now),
{
    law_jitter_stays_in_bounds(options, created, entry.meta.logical_expiration);
    law_lifetime_is_the_longer_window(options);
    law_later_is_monotone(created, options.memory_window(), options.memory_lifetime());
}

/// Re-serving a stale entry keeps its value, its creation, its tags and its end; it is
/// fresh for the throttle window only, and never refreshed proactively.
pub proof fn law_throttling_keeps_the_end<V>(
    source: Entry<V>,
    options: EntryOptions,
    now: Timestamp,
    later: Timestamp,
)
    ensures
        ({
            let served = Entry::throttled_from(source, options, now);
            &&& served.value == source.value
            &&& served.meta.created == source.meta.created
            &&& served.texts() == source.texts()
            &&& served.alive_at(later) == source.alive_at(later)
            &&& served.fresh_at(later) == (later.0 < later_by(
                now,
                options.fail_safe_throttle_duration,
            ).0)
            &&& !served.refresh_due(later)
        }),
{
}

/// An expired entry is stale from the given instant on, and as usable a fallback as
/// before.
pub proof fn law_expiring_keeps_the_fallback<V>(entry: Entry<V>, at: Timestamp, later: Timestamp)
    ensures
        at.0 <= later.0 ==> !entry.expired_at(at).fresh_at(later),
        entry.expired_at(at).alive_at(later) == entry.alive_at(later),
        entry.expired_at(at).value == entry.value,
        entry.expired_at(at).texts() == entry.texts(),
        !entry.expired_at(at).refresh_due(later),
{
}

/// Ending an entry's freshness early changes nothing that a fallback or a conditional refresh
/// needs: the value, the creation, the end, the entity tag, the last-modified instant and the
/// tags stay. It is stale from the given instant on, never refreshed proactively, and memory
/// keeps it for the time it has left.
pub proof fn law_expired_copy_keeps_what_a_refresh_needs<V>(
    entry: Entry<V>,
    at: Timestamp,
    copy: Entry<V>,
)
    requires
        call_ensures(Entry::<V>::with_logical_expiration, (&entry, at), copy),
    ensures
        copy == entry.expired_at(at),
        copy.value == entry.value,
        copy.meta.created == entry.meta.created,
        copy.meta.physical_expiration == entry.meta.physical_expiration,
        copy.meta.is_from_fail_safe == entry.meta.is_from_fail_safe,
        copy.meta.etag == entry.meta.etag,
        copy.meta.last_modified == entry.meta.last_modified,
        copy.meta.tags == entry.meta.tags,
        copy.meta.logical_expiration == at,
        copy.meta.eager_refresh_at is None,
        at.0 >= entry.meta.physical_expiration.0 ==> copy.meta.backend_ttl.nanos == 0,
        0 <= entry.meta.physical_expiration.0 - at.0 <= u64::MAX / 100
            ==> copy.meta.backend_ttl.nanos == (entry.meta.physical_expiration.0 - at.0) * 100,
{
}

/// Re-serving a stale entry as a fallback works exactly until the entry ends. It too keeps what
/// a conditional refresh needs; it is fresh for the throttle window, counts as a fallback, is
/// never refreshed proactively, and ends where it ended before.
pub proof fn law_throttled_copy_keeps_what_a_refresh_needs<V>(
    source: Entry<V>,
    options: EntryOptions,
    now: Timestamp,
    throttled: Option<Entry<V>>,
)
    requires
        call_ensures(Entry::<V>::throttled, (&source, &options, now), throttled),
    ensures
        throttled is Some <==> now.0 < source.meta.physical_expiration.0,
        throttled matches Some(copy) ==> {
            &&& copy == Entry::throttled_from(source, options, now)
            &&& copy.value == source.value
            &&& copy.meta.created == source.meta.created
            &&& copy.meta.physical_expiration == source.meta.physical_expiration
            &&& copy.meta.etag == source.meta.etag
            &&& copy.meta.last_modified == source.meta.last_modified
            &&& copy.meta.tags == source.meta.tags
            &&& copy.meta.logical_expiration == later_by(now, options.fail_safe_throttle_duration)
            &&& copy.meta.is_from_fail_safe
            &&& copy.meta.eager_refresh_at is None
            &&& source.meta.physical_expiration.0 - now.0 <= u64::MAX / 100
                ==> copy.meta.backend_ttl.nanos == (source.meta.physical_expiration.0 - now.0) * 100
        },
{
}

/// A new entry carries what it was made of. It is fresh from its creation for its window, is kept
/// by memory for as long as it exists, is refreshed proactively only if there is a threshold, and
/// is no fallback.
pub proof fn law_new_entry_carries_what_it_was_made_of<V>(
    value: V,
    options: EntryOptions,
    created: Timestamp,
    tags: Vec<Tag>,
    etag: Option<String>,
    last_modified: Option<Timestamp>,
    share: Duration,
    kept: Duration,
    entry: Entry<V>,
)
    requires
        call_ensures(
            Entry::<V>::fresh,
            (value, &options, created, tags, etag, last_modified, share),
            entry,
        ),
        call_ensures(EntryOptions::physical_ttl, (&options,), kept),
    ensures
        *entry.value == value,
        entry.meta.created == created,
        entry.meta.etag == etag,
        entry.meta.last_modified == last_modified,
        entry.meta.tags@ == tags@,
        !entry.meta.is_from_fail_safe,
        entry.meta.backend_ttl == kept,
        entry.meta.physical_expiration == later_by(created, kept),
        entry.meta.eager_refresh_at == (if options.eager_refresh_threshold is Some {
            Some(later_by(created, share))
        } else {
            None
        }),
        options.memory_duration matches Some(d) ==> entry.meta.logical_expiration.0 >= later_by(
            created,
            d,
        ).0,
        options.memory_duration is None ==> entry.meta.logical_expiration.0 >= later_by(
            created,
            options.duration,
        ).0,
{
    law_jitter_stays_in_bounds(options, created, entry.meta.logical_expiration);
}

/// An entry that serves the value of last resort is fresh for the throttle window and counts as
/// a fallback. It has nothing that a conditional refresh could go by.
pub proof fn law_last_resort_entry_is_throttled<V>(
    value: V,
    options: EntryOptions,
    now: Timestamp,
    kept: Duration,
    entry: Entry<V>,
)
    requires
        call_ensures(Entry::<V>::from_fail_safe_default, (value, &options, now), entry),
        call_ensures(EntryOptions::physical_ttl, (&options,), kept),
    ensures
        *entry.value == value,
        entry.meta.created == now,
        entry.meta.is_from_fail_safe,
        entry.meta.logical_expiration == later_by(now, options.fail_safe_throttle_duration),
        entry.meta.physical_expiration == later_by(now, kept),
        entry.meta.backend_ttl == kept,
        entry.meta.eager_refresh_at is None,
        entry.meta.etag is None && entry.meta.last_modified is None,
        entry.meta.tags@.len() == 0,
{
}

/// The clock alone decides how an entry may be used: it is fresh strictly before its logical
/// expiration and exists strictly before its physical one; a proactive refresh is due from its
/// instant on, as long as the entry is fresh and no fallback.
pub proof fn law_the_clock_decides<V>(
    entry: Entry<V>,
    now: Timestamp,
    freshness: Freshness,
    stale: bool,
    ended: bool,
    due: bool,
)
    requires
        call_ensures(Entry::<V>::freshness, (&entry, now), freshness),
        call_ensures(Entry::<V>::is_logically_expired, (&entry, now), stale),
        call_ensures(Entry::<V>::is_physically_expired, (&entry, now), ended),
        call_ensures(Entry::<V>::should_eager_refresh, (&entry, now), due),
    ensures
        freshness is Fresh <==> now.0 < entry.meta.logical_expiration.0,
        stale <==> entry.meta.logical_expiration.0 <= now.0,
        ended <==> entry.meta.physical_expiration.0 <= now.0,
        due ==> !stale && !entry.meta.is_from_fail_safe,
        entry.meta.eager_refresh_at is None ==> !due,
        entry.meta.eager_refresh_at matches Some(at) ==> (due <==> at.0 <= now.0 && !stale
            && !entry.meta.is_from_fail_safe),
        entry.fresh_at(now) == (freshness is Fresh),
        entry.alive_at(now) == !ended,
        entry.refresh_due(now) == due,
{
}

/// What is read off an entry is what it holds.
pub proof fn law_entry_shows_what_it_holds<V: Clone>(
    entry: Entry<V>,
    value: &V,
    owned: V,
    meta: &Metadata,
    ttl: Duration,
    created: Timestamp,
    fresh_until: Timestamp,
    ends: Timestamp,
    fallback: bool,
    modified: Option<Timestamp>,
    tags: &Vec<Tag>,
)
    requires
        call_ensures(Entry::<V>::value, (&entry,), value),
        call_ensures(Entry::<V>::value_cloned, (&entry,), owned),
        call_ensures(Entry::<V>::meta, (&entry,), meta),
        call_ensures(Entry::<V>::backend_ttl, (&entry,), ttl),
        call_ensures(Metadata::created, (meta,), created),
        call_ensures(Metadata::logical_expiration, (meta,), fresh_until),
        call_ensures(Metadata::physical_expiration, (meta,), ends),
        call_ensures(Metadata::is_from_fail_safe, (meta,), fallback),
        call_ensures(Metadata::last_modified, (meta,), modified),
        call_ensures(Metadata::tags, (meta,), tags),
    ensures
        *value == *entry.value,
        cloned(*entry.value, owned),
        ttl == entry.meta.backend_ttl,
        created == entry.meta.created,
        fresh_until == entry.meta.logical_expiration,
        ends == entry.meta.physical_expiration,
        fallback == entry.meta.is_from_fail_safe,
        modified == entry.meta.last_modified,
        tags@ == entry.meta.tags@,
{
}

} // verus!
