//! The distributed cache: the envelope in which entries travel, and an in-memory
//! backend.
use crate::entry::{clone_text, Entry, Metadata};
use crate::error::Error;
use crate::maps::{bytes_in, get_bytes, new_bytes, put_bytes, remove_bytes};
use crate::tags::{collect_tags, tag_texts, tagged, Tag};
use crate::text::blank;
use crate::time::{elapsed_between, later_by, Duration, Timestamp};
use dashmap::DashMap;
use vstd::prelude::*;

verus! {

/// The envelope in which an entry is stored: its value and the metadata that any node
/// needs to rebuild it.
#[derive(Debug, Clone)]
pub struct DistributedEntry<V> {
    /// The cached value.
    pub value: V,
    /// The tick at which the value was produced.
    pub created_ticks: i64,
    /// The tick at which freshness ends.
    pub logical_expiration_ticks: i64,
    /// The tick at which the entry ends.
    pub physical_expiration_ticks: i64,
    /// Whether the entry re-serves a fallback.
    pub is_from_fail_safe: bool,
    /// The entity tag.
    pub etag: Option<String>,
    /// The last-modified tick.
    pub last_modified_ticks: Option<i64>,
    /// The texts of the entry's tags.
    pub tags: Vec<String>,
}

/// The texts in a list.
pub open spec fn texts_of(texts: Seq<String>) -> Seq<Seq<char>> {
    Seq::new(texts.len(), |i: int| texts[i]@)
}

impl<V> DistributedEntry<V> {
    /// Whether this is what an entry with metadata `meta` is stored as, but for its value.
    pub open spec fn describes(self, meta: Metadata) -> bool {
        &&& self.created_ticks == meta.created.0
        &&& self.logical_expiration_ticks == meta.logical_expiration.0
        &&& self.physical_expiration_ticks == meta.physical_expiration.0
        &&& self.is_from_fail_safe == meta.is_from_fail_safe
        &&& self.etag == meta.etag
        &&& self.last_modified_ticks == (match meta.last_modified {
            Some(at) => Some(at.0),
            None => None,
        })
        &&& texts_of(self.tags@) == tag_texts(meta.tags@)
    }
}

impl<V: Clone> DistributedEntry<V> {
    /// Puts an entry in its envelope.
    pub fn from_entry(entry: &Entry<V>) -> (dist: Self)
        ensures
            cloned(*entry.value, dist.value),
            dist.describes(*entry.meta),
    {
        let meta = entry.meta();
        let tags = texts_from(meta.tags());
        DistributedEntry {
            value: entry.value_cloned(),
            created_ticks: meta.created().ticks(),
            logical_expiration_ticks: meta.logical_expiration().ticks(),
            physical_expiration_ticks: meta.physical_expiration().ticks(),
            is_from_fail_safe: meta.is_from_fail_safe(),
            etag: clone_text(&meta.etag),
            last_modified_ticks: match meta.last_modified() {
                Some(at) => Some(at.ticks()),
                None => None,
            },
            tags,
        }
    }
}

impl<V> DistributedEntry<V> {
    /// Whether `entry` is what the envelope rebuilds to at `now`: tags that were blank are
    /// gone, and nothing is refreshed proactively.
    pub open spec fn rebuilds_to(self, entry: Entry<V>, now: Timestamp) -> bool {
        &&& *entry.value == self.value
        &&& *entry.meta == (Metadata {
            created: Timestamp(self.created_ticks),
            logical_expiration: Timestamp(self.logical_expiration_ticks),
            physical_expiration: Timestamp(self.physical_expiration_ticks),
            backend_ttl: elapsed_between(now, Timestamp(self.physical_expiration_ticks)),
            is_from_fail_safe: self.is_from_fail_safe,
            eager_refresh_at: None,
            etag: self.etag,
            last_modified: match self.last_modified_ticks {
                Some(ticks) => Some(Timestamp(ticks)),
                None => None,
            },
            tags: entry.meta.tags,
        })
        &&& entry.texts() == tagged(texts_of(self.tags@))
    }

    /// Rebuilds the entry at `now`.
    pub fn into_entry(self, now: Timestamp) -> (entry: Entry<V>)
        ensures
            self.rebuilds_to(entry, now),
    {
        let tags: Vec<Tag> = collect_tags(&self.tags);
        Entry::rehydrate(
            self.value,
            Timestamp::from_ticks(self.created_ticks),
            Timestamp::from_ticks(self.logical_expiration_ticks),
            Timestamp::from_ticks(self.physical_expiration_ticks),
            self.is_from_fail_safe,
            self.etag,
            match self.last_modified_ticks {
                Some(ticks) => Some(Timestamp::from_ticks(ticks)),
                None => None,
            },
            tags,
            now,
        )
    }
}

/// A format in which envelopes are stored.
pub trait DistributedSerializer<V>: Send + Sync {
    /// Serializes an envelope; [`Error::Serialization`] if it cannot be encoded.
    fn serialize(&self, entry: &DistributedEntry<V>) -> Result<Vec<u8>, Error>;

    /// Deserializes an envelope; [`Error::Deserialization`] if the bytes are none.
    fn deserialize(&self, bytes: &[u8]) -> Result<DistributedEntry<V>, Error>;
}

/// The bytes under which an entry is stored, in the serializer's format: what it makes of the
/// entry's envelope, or its error.
pub fn seal<V: Clone, S: DistributedSerializer<V> + ?Sized>(
    entry: &Entry<V>,
    serializer: &S,
) -> (sealed: Result<Vec<u8>, Error>)
    ensures
        exists|dist: DistributedEntry<V>|
            {
                &&& #[trigger] dist.describes(entry.metadata())
                &&& cloned(*entry.value, dist.value)
                &&& call_ensures(S::serialize, (serializer, &dist), sealed)
            },
{
    let dist = DistributedEntry::from_entry(entry);
    assert(dist.describes(entry.metadata()));
    serializer.serialize(&dist)
}

/// The envelope that was stored, if anything was: what the serializer makes of the bytes, or
/// its error. Where nothing was stored the serializer is not asked.
pub fn unseal<V, S: DistributedSerializer<V> + ?Sized>(
    stored: Option<Vec<u8>>,
    serializer: &S,
) -> (found: Result<Option<DistributedEntry<V>>, Error>)
    ensures
        match stored {
            Some(bytes) => exists|opened: Result<DistributedEntry<V>, Error>, slice: &[u8]|
                {
                    &&& #[trigger] call_ensures(S::deserialize, (serializer, slice), opened)
                    &&& slice@ == bytes@
                    &&& found == (match opened {
                        Ok(dist) => Ok(Some(dist)),
                        Err(err) => Err::<Option<DistributedEntry<V>>, Error>(err),
                    })
                },
            None => found matches Ok(None),
        },
{
    match stored {
        Some(bytes) => {
            let slice = bytes.as_slice();
            let opened = serializer.deserialize(slice);
            assert(call_ensures(S::deserialize, (serializer, slice), opened));
            match opened {
                Ok(dist) => Ok(Some(dist)),
                Err(err) => Err(err),
            }
        },
        None => Ok(None),
    }
}

fn texts_from(tags: &Vec<Tag>) -> (texts: Vec<String>)
    ensures
        texts_of(texts@) == tag_texts(tags@),
{
    let mut texts: Vec<String> = Vec::new();
    let mut i: usize = 0;
    while i < tags.len()
        invariant
            i <= tags.len(),
            texts_of(texts@) == tag_texts(tags@).take(i as int),
        decreases tags.len() - i,
    {
        let ghost before = texts@;
        texts.push(tags[i].to_text());
        i += 1;
        assert(texts_of(texts@) =~= texts_of(before).push(tags@[i - 1]@));
        assert(tag_texts(tags@).take(i as int) =~= tag_texts(tags@).take(i - 1).push(
            tags@[i - 1]@,
        ));
    }
    assert(tag_texts(tags@).take(i as int) =~= tag_texts(tags@));
    texts
}

/// An entry that went through the envelope has the same creation, the same freshness and
/// the same end, the same entity tag and last-modified instant, and the same tags,
/// provided that none of them is blank (no tag is).
pub proof fn law_envelope_round_trip<V>(
    dist: DistributedEntry<V>,
    meta: Metadata,
    entry: Entry<V>,
    now: Timestamp,
)
    requires
        dist.describes(meta),
        dist.rebuilds_to(entry, now),
        forall|i: int| 0 <= i < meta.tags@.len() ==> !blank(#[trigger] meta.tags@[i]@),
    ensures
        entry.meta.created == meta.created,
        entry.meta.logical_expiration == meta.logical_expiration,
        entry.meta.physical_expiration == meta.physical_expiration,
        entry.meta.is_from_fail_safe == meta.is_from_fail_safe,
        entry.meta.etag == meta.etag,
        entry.meta.last_modified == meta.last_modified,
        entry.texts() == tag_texts(meta.tags@),
{
    lemma_nothing_dropped(tag_texts(meta.tags@));
}

proof fn lemma_nothing_dropped(texts: Seq<Seq<char>>)
    requires
        forall|i: int| 0 <= i < texts.len() ==> !blank(#[trigger] texts[i]),
    ensures
        tagged(texts) == texts,
    decreases texts.len(),
{
    reveal(Seq::filter);
    if texts.len() > 0 {
        lemma_nothing_dropped(texts.drop_last());
        assert(texts.drop_last().push(texts.last()) =~= texts);
    }
}

/// Bytes with the instant at which they expire.
#[derive(Debug)]
pub struct StoredBytes {
    /// The bytes.
    pub bytes: Vec<u8>,
    /// When they expire; `None` if they do not.
    pub expires_at: Option<Timestamp>,
}

impl Clone for StoredBytes {
    fn clone(&self) -> (copy: Self)
        ensures
            copy.bytes@ == self.bytes@,
            copy.expires_at == self.expires_at,
    {
        let bytes = self.bytes.clone();
        assert(bytes@ =~= self.bytes@);
        StoredBytes { bytes, expires_at: self.expires_at }
    }
}

/// An in-memory distributed cache: bytes by key, with an optional time to live.
#[derive(Debug)]
pub struct InMemoryDistributedCache {
    map: DashMap<String, StoredBytes>,
}

impl View for InMemoryDistributedCache {
    type V = Map<Seq<char>, (Seq<u8>, Option<Timestamp>)>;

    closed spec fn view(&self) -> Map<Seq<char>, (Seq<u8>, Option<Timestamp>)> {
        bytes_in(self.map)
    }
}

/// The bytes that a store gives out for `key` at `now`: those stored there, unless they
/// have expired.
pub open spec fn readable(
    store: Map<Seq<char>, (Seq<u8>, Option<Timestamp>)>,
    key: Seq<char>,
    now: Timestamp,
) -> Option<Seq<u8>> {
    if store.contains_key(key) && (store[key].1 matches Some(at) ==> now.0 < at.0) {
        Some(store[key].0)
    } else {
        None
    }
}

/// A store after `bytes` were written at `now`.
pub open spec fn written(
    store: Map<Seq<char>, (Seq<u8>, Option<Timestamp>)>,
    key: Seq<char>,
    bytes: Seq<u8>,
    ttl: Option<Duration>,
    now: Timestamp,
) -> Map<Seq<char>, (Seq<u8>, Option<Timestamp>)> {
    let expires_at = match ttl {
        Some(d) => Some(later_by(now, d)),
        None => None,
    };
    store.insert(key, (bytes, expires_at))
}

impl InMemoryDistributedCache {
    /// An empty store.
    pub fn new() -> (store: Self)
        ensures
            store@ == Map::<Seq<char>, (Seq<u8>, Option<Timestamp>)>::empty(),
    {
        InMemoryDistributedCache { map: new_bytes() }
    }

    /// Reads the bytes at `key`. What has expired is dropped on the way.
    pub fn get(&mut self, key: &str, now: Timestamp) -> (bytes: Option<Vec<u8>>)
        ensures
            match readable(old(self)@, key@, now) {
                Some(stored) => bytes matches Some(b) && b@ == stored && final(self)@ == old(
                    self,
                )@,
                None => bytes is None && final(self)@ == old(self)@.remove(key@),
            },
    {
        match get_bytes(&self.map, key) {
            Some(stored) => {
                let live = match stored.expires_at {
                    Some(at) => now.is_before(at),
                    None => true,
                };
                if live {
                    return Some(stored.bytes);
                }
            },
            None => {},
        }
        remove_bytes(&mut self.map, key);
        None
    }

    /// Writes `value` at `key`, to expire after `ttl` if one is given.
    pub fn set(&mut self, key: &str, value: Vec<u8>, ttl: Option<Duration>, now: Timestamp)
        ensures
            final(self)@ == written(old(self)@, key@, value@, ttl, now),
    {
        let expires_at = match ttl {
            Some(d) => Some(now.saturating_add(d)),
            None => None,
        };
        put_bytes(&mut self.map, String::from_str(key), StoredBytes { bytes: value, expires_at });
    }

    /// Removes what is at `key`.
    pub fn remove(&mut self, key: &str)
        ensures
            final(self)@ == old(self)@.remove(key@),
    {
        remove_bytes(&mut self.map, key);
    }
}

/// A read gives back what was last written under its key, up to the end of its time to
/// live and not from then on, whatever is written or removed under other keys.
pub proof fn law_read_gives_back_the_write(
    store: Map<Seq<char>, (Seq<u8>, Option<Timestamp>)>,
    key: Seq<char>,
    bytes: Seq<u8>,
    ttl: Option<Duration>,
    at: Timestamp,
    now: Timestamp,
    other: Seq<char>,
    other_bytes: Seq<u8>,
)
    requires
        other != key,
    ensures
        readable(written(store, key, bytes, ttl, at), key, now) == (if ttl matches Some(d)
            && now.0 >= later_by(at, d).0 {
            None
        } else {
            Some(bytes)
        }),
        readable(
            written(written(store, key, bytes, ttl, at), other, other_bytes, ttl, at),
            key,
            now,
        ) == readable(written(store, key, bytes, ttl, at), key, now),
        readable(written(store, key, bytes, ttl, at).remove(other), key, now) == readable(
            written(store, key, bytes, ttl, at),
            key,
            now,
        ),
        readable(written(store, key, bytes, ttl, at).remove(key), key, now) is None,
{
}

/// An entry that goes into its envelope on one node comes out on any other as it was: the same
/// value, creation, freshness, end and tags, and what a conditional refresh needs. It is kept for
/// the time it has left then, and not refreshed proactively.
pub proof fn law_entry_survives_its_envelope<V: Clone>(
    entry: Entry<V>,
    dist: DistributedEntry<V>,
    now: Timestamp,
    rebuilt: Entry<V>,
)
    requires
        call_ensures(DistributedEntry::<V>::from_entry, (&entry,), dist),
        call_ensures(DistributedEntry::<V>::into_entry, (dist, now), rebuilt),
        forall|i: int| 0 <= i < entry.meta.tags@.len() ==> !blank(#[trigger] entry.meta.tags@[i]@),
    ensures
        cloned(*entry.value, *rebuilt.value),
        rebuilt.meta.created == entry.meta.created,
        rebuilt.meta.logical_expiration == entry.meta.logical_expiration,
        rebuilt.meta.physical_expiration == entry.meta.physical_expiration,
        rebuilt.meta.is_from_fail_safe == entry.meta.is_from_fail_safe,
        rebuilt.meta.etag == entry.meta.etag,
        rebuilt.meta.last_modified == entry.meta.last_modified,
        rebuilt.texts() == entry.texts(),
        rebuilt.meta.eager_refresh_at is None,
        0 <= entry.meta.physical_expiration.0 - now.0 <= u64::MAX / 100
            ==> rebuilt.meta.backend_ttl.nanos == (entry.meta.physical_expiration.0 - now.0) * 100,
{
    law_envelope_round_trip(dist, entry.metadata(), rebuilt, now);
}

/// A store gives back what was last written under a key, up to the end of its time to live and not
/// from then on; writing or removing under one key leaves every other as it was; and what was
/// removed is gone.
pub proof fn law_store_gives_back_what_was_written(
    written: &mut InMemoryDistributedCache,
    key: &str,
    value: Vec<u8>,
    ttl: Option<Duration>,
    at: Timestamp,
    read: &mut InMemoryDistributedCache,
    asked: &str,
    now: Timestamp,
    bytes: Option<Vec<u8>>,
    removed: &mut InMemoryDistributedCache,
)
    requires
        call_ensures(InMemoryDistributedCache::set, (written, key, value, ttl, at), ()),
        call_ensures(InMemoryDistributedCache::get, (read, asked, now), bytes),
        call_ensures(InMemoryDistributedCache::remove, (removed, key), ()),
    ensures
        old(read)@ == final(written)@ && asked@ == key@ ==> {
            let over = ttl matches Some(d) && now.0 >= later_by(at, d).0;
            &&& over ==> bytes is None
            &&& !over ==> (bytes matches Some(given) && given@ == value@)
        },
        old(read)@ == final(removed)@ && asked@ == key@ ==> bytes is None,
        forall|other: Seq<char>|
            other != key@ ==> {
                &&& #[trigger] final(written)@.contains_key(other) == old(written)@.contains_key(
                    other,
                )
                &&& old(written)@.contains_key(other) ==> final(written)@[other] == old(
                    written,
                )@[other]
                &&& final(removed)@.contains_key(other) == old(removed)@.contains_key(other)
                &&& old(removed)@.contains_key(other) ==> final(removed)@[other] == old(
                    removed,
                )@[other]
            },
        bytes is Some ==> final(read)@ == old(read)@,
        forall|other: Seq<char>|
            other != asked@ ==> #[trigger] final(read)@.contains_key(other) == old(
                read,
            )@.contains_key(other),
{
}

/// What is stored of an entry is what the serializer makes of its envelope, which holds the value,
/// the creation, the freshness, the end, the tags and what a conditional refresh needs; and what is
/// read is what it makes of the very bytes that were stored, or nothing where none were.
pub proof fn law_envelope_goes_through_the_serializer<V: Clone, S: DistributedSerializer<V>>(
    entry: Entry<V>,
    serializer: S,
    sealed: Result<Vec<u8>, Error>,
    stored: Option<Vec<u8>>,
    found: Result<Option<DistributedEntry<V>>, Error>,
)
    requires
        call_ensures(seal::<V, S>, (&entry, &serializer), sealed),
        call_ensures(unseal::<V, S>, (stored, &serializer), found),
    ensures
        exists|dist: DistributedEntry<V>|
            {
                &&& #[trigger] call_ensures(S::serialize, (&serializer, &dist), sealed)
                &&& cloned(*entry.value, dist.value)
                &&& dist.created_ticks == entry.meta.created.0
                &&& dist.logical_expiration_ticks == entry.meta.logical_expiration.0
                &&& dist.physical_expiration_ticks == entry.meta.physical_expiration.0
                &&& dist.is_from_fail_safe == entry.meta.is_from_fail_safe
                &&& dist.etag == entry.meta.etag
                &&& dist.last_modified_ticks is Some == entry.meta.last_modified is Some
                &&& entry.meta.last_modified matches Some(at) ==> dist.last_modified_ticks == Some(
                    at.0,
                )
                &&& dist.tags@.len() == entry.meta.tags@.len()
                &&& forall|i: int|
                    0 <= i < dist.tags@.len() ==> (#[trigger] dist.tags@[i])@
                        == entry.meta.tags@[i]@
            },
        stored is None ==> found == Ok::<Option<DistributedEntry<V>>, Error>(None),
        stored matches Some(bytes) ==> exists|
            opened: Result<DistributedEntry<V>, Error>,
            slice: &[u8],
        |
            {
                &&& #[trigger] call_ensures(S::deserialize, (&serializer, slice), opened)
                &&& slice@ == bytes@
                &&& opened matches Ok(dist) ==> found == Ok::<
                    Option<DistributedEntry<V>>,
                    Error,
                >(Some(dist))
                &&& opened matches Err(err) ==> found == Err::<
                    Option<DistributedEntry<V>>,
                    Error,
                >(err)
            },
{
    let dist = choose|dist: DistributedEntry<V>|
        {
            &&& #[trigger] dist.describes(entry.metadata())
            &&& cloned(*entry.value, dist.value)
            &&& call_ensures(S::serialize, (&serializer, &dist), sealed)
        };
    assert(call_ensures(S::serialize, (&serializer, &dist), sealed));
    assert(texts_of(dist.tags@).len() == tag_texts(entry.meta.tags@).len());
    assert forall|i: int| 0 <= i < dist.tags@.len() implies (#[trigger] dist.tags@[i])@
        == entry.meta.tags@[i]@ by {
        assert(texts_of(dist.tags@)[i] == tag_texts(entry.meta.tags@)[i]);
    }
}

} // verus!
