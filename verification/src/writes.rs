//! Writing, removing, expiring and invalidating.
use crate::backplane::{BackplaneAction, BackplaneMessage};
use crate::cache::{Cache, L1Read};
use crate::effects::{lemma_slot_after_both, lemma_slot_unchanged, slot_after, Effect};
use crate::entry::Entry;
use crate::events::CacheEvent;
use crate::factory::{FactoryContext, FactoryProduct};
use crate::options::{law_jitter_stays_in_bounds, EntryOptions};
use crate::tags::{law_marked_tag_spares_the_rest, Tag};
use crate::text::{blank, join};
use crate::time::{later_by, Duration, Timestamp};
use vstd::prelude::*;

verus! {

/// A value on its way into the cache.
#[derive(Debug)]
pub struct Stored<V> {
    /// The entry that was made for it.
    pub entry: Entry<V>,
    /// What writing it takes.
    pub effects: Vec<Effect<V>>,
}

impl<V> Stored<V> {
    /// Whether the entry was made for a product at `created`.
    pub open spec fn is_stored_from(
        self,
        product: FactoryProduct<V>,
        eager_share: Duration,
        created: Timestamp,
    ) -> bool {
        self.entry.is_made_of(
            product.value,
            product.options,
            created,
            product.tags,
            product.etag,
            product.last_modified,
            eager_share,
        )
    }
}

/// The reserved key that tells other nodes of an invalidated tag.
pub open spec fn tag_marker_key(tag: Seq<char>) -> Seq<char> {
    "__amalgam:t:"@ + tag
}

/// The reserved key that tells other nodes of a clear.
pub open spec fn clear_marker_key(allow_fail_safe: bool) -> Seq<char> {
    if allow_fail_safe {
        "__amalgam:clear:expire"@
    } else {
        "__amalgam:clear:remove"@
    }
}

/// The effects of writing an entry through: memory first, then the distributed cache, then
/// the announcement; each unless it is to be skipped.
pub open spec fn write_through<V>(entry: Entry<V>, options: EntryOptions) -> Seq<Effect<V>> {
    let memory = if options.skip_memory_write {
        Seq::<Effect<V>>::empty()
    } else {
        seq![Effect::InsertMemory(entry)]
    };
    let distributed = if options.skip_distributed_write {
        Seq::<Effect<V>>::empty()
    } else {
        seq![Effect::WriteDistributed(entry, options)]
    };
    let announce = if options.skip_backplane_notifications {
        Seq::<Effect<V>>::empty()
    } else {
        seq![Effect::<V>::Announce(BackplaneAction::Put, options)]
    };
    memory + distributed + announce
}

/// The effects of storing what a factory produced: the entry is written through, and it is
/// reported, as a success of the factory only if the factory made a new value while the
/// caller waited.
pub open spec fn store_effects<V>(
    key: String,
    entry: Entry<V>,
    options: EntryOptions,
    reports_success: bool,
) -> Seq<Effect<V>> {
    let put = Effect::<V>::Emit(CacheEvent::Put { key });
    write_through(entry, options) + (if reports_success {
        seq![Effect::<V>::Emit(CacheEvent::FactorySuccess { key }), put]
    } else {
        seq![put]
    })
}

/// The effects of removing a key.
pub open spec fn remove_effects<V>(key: String, options: EntryOptions) -> Seq<Effect<V>> {
    seq![
        Effect::RemoveMemory,
        Effect::RemoveDistributed,
        Effect::Announce(BackplaneAction::Remove, options),
        Effect::Emit(CacheEvent::Remove { key }),
    ]
}

/// The effects of expiring a key at `now`, given what memory holds for it.
pub open spec fn expire_effects<V>(
    key: String,
    options: EntryOptions,
    held: Option<Entry<V>>,
    now: Timestamp,
) -> Seq<Effect<V>> {
    (match held {
        Some(entry) => seq![
            Effect::InsertMemory(entry.expired_at(now)),
            Effect::WriteDistributed(entry.expired_at(now), options),
        ],
        None => Seq::empty(),
    }) + seq![
        Effect::<V>::Announce(BackplaneAction::Expire, options),
        Effect::<V>::Emit(CacheEvent::Expire { key }),
    ]
}

/// The entry for a product made at `now`.
fn entry_for<V>(product: FactoryProduct<V>, eager_share: Duration, now: Timestamp) -> (entry: Entry<
    V,
>)
    ensures
        entry.is_made_of(
            product.value,
            product.options,
            now,
            product.tags,
            product.etag,
            product.last_modified,
            eager_share,
        ),
{
    let options = product.options;
    Entry::fresh(
        product.value,
        &options,
        now,
        product.tags,
        product.etag,
        product.last_modified,
        eager_share,
    )
}

/// Appends the effects of writing an entry through.
fn push_write<V>(effects: &mut Vec<Effect<V>>, entry: &Entry<V>, options: &EntryOptions)
    ensures
        final(effects)@ == old(effects)@ + write_through(*entry, *options),
{
    let ghost start = effects@;
    if !options.skip_memory_write() {
        effects.push(Effect::InsertMemory(entry.clone()));
    }
    if !options.skip_distributed_write() {
        effects.push(Effect::WriteDistributed(entry.clone(), *options));
    }
    if !options.skip_backplane_notifications() {
        effects.push(Effect::Announce(BackplaneAction::Put, *options));
    }
    assert(effects@ =~= start + write_through(*entry, *options));
}

impl Cache {
    /// Turns a product into the entry to be cached at `now`. `eager_share` is the part of the
    /// freshness window after which a proactive refresh is due.
    pub fn store_product<V>(
        &self,
        full_key: &String,
        product: FactoryProduct<V>,
        eager_share: Duration,
        now: Timestamp,
    ) -> (stored: Stored<V>)
        ensures
            stored.is_stored_from(product, eager_share, now),
            stored.effects@ == store_effects(
                *full_key,
                stored.entry,
                product.options,
                !product.reused_stale,
            ),
    {
        let options = product.options;
        let reused_stale = product.reused_stale;
        let entry = entry_for(product, eager_share, now);
        let mut effects: Vec<Effect<V>> = Vec::new();
        push_write(&mut effects, &entry, &options);
        if !reused_stale {
            effects.push(Effect::Emit(CacheEvent::FactorySuccess { key: full_key.clone() }));
        }
        effects.push(Effect::Emit(CacheEvent::Put { key: full_key.clone() }));
        assert(effects@ =~= store_effects(*full_key, entry, options, !reused_stale));
        Stored { entry, effects }
    }

    /// Turns a product made in the background into the entry to be cached at `now`. It is not
    /// reported as a success of a factory that somebody waited for.
    pub fn store_in_background<V>(
        &self,
        full_key: &String,
        product: FactoryProduct<V>,
        eager_share: Duration,
        now: Timestamp,
    ) -> (stored: Stored<V>)
        ensures
            stored.is_stored_from(product, eager_share, now),
            stored.effects@ == store_effects(*full_key, stored.entry, product.options, false),
    {
        let options = product.options;
        let entry = entry_for(product, eager_share, now);
        let mut effects: Vec<Effect<V>> = Vec::new();
        push_write(&mut effects, &entry, &options);
        effects.push(Effect::Emit(CacheEvent::Put { key: full_key.clone() }));
        assert(effects@ =~= store_effects(*full_key, entry, options, false));
        Stored { entry, effects }
    }

    /// Writes a value at `now` without a factory.
    pub fn set_full<V>(
        &self,
        full_key: &String,
        value: V,
        options: &EntryOptions,
        tags: Vec<Tag>,
        eager_share: Duration,
        now: Timestamp,
    ) -> (stored: Stored<V>)
        ensures
            stored.entry.is_made_of(value, *options, now, tags, None, None, eager_share),
            stored.effects@ == write_through(stored.entry, *options).push(
                Effect::Emit(CacheEvent::Put { key: *full_key }),
            ),
    {
        let entry = Entry::fresh(value, options, now, tags, None, None, eager_share);
        let mut effects: Vec<Effect<V>> = Vec::new();
        push_write(&mut effects, &entry, options);
        effects.push(Effect::Emit(CacheEvent::Put { key: full_key.clone() }));
        assert(effects@ =~= write_through(entry, *options).push(
            Effect::Emit(CacheEvent::Put { key: *full_key }),
        ));
        Stored { entry, effects }
    }

    /// Removes a key everywhere, under the default options.
    pub fn remove<V>(&self, full_key: &String) -> (effects: Vec<Effect<V>>)
        ensures
            effects@ == remove_effects::<V>(*full_key, self.settings.default_options),
    {
        let mut effects: Vec<Effect<V>> = Vec::new();
        effects.push(Effect::RemoveMemory);
        effects.push(Effect::RemoveDistributed);
        effects.push(Effect::Announce(BackplaneAction::Remove, self.settings.default_options));
        effects.push(Effect::Emit(CacheEvent::Remove { key: full_key.clone() }));
        effects
    }

    /// Expires a key at `now`, under the default options: what memory holds for it stays
    /// usable as a fallback only.
    pub fn expire<V>(
        &self,
        full_key: &String,
        held: Option<&Entry<V>>,
        now: Timestamp,
    ) -> (effects: Vec<Effect<V>>)
        ensures
            effects@ == expire_effects(
                *full_key,
                self.settings.default_options,
                match held {
                    Some(entry) => Some(*entry),
                    None => None,
                },
                now,
            ),
    {
        let options = self.settings.default_options;
        let mut effects: Vec<Effect<V>> = Vec::new();
        if let Some(entry) = held {
            let expired = entry.with_logical_expiration(now);
            effects.push(Effect::InsertMemory(expired.clone()));
            effects.push(Effect::WriteDistributed(expired, options));
        }
        effects.push(Effect::Announce(BackplaneAction::Expire, options));
        effects.push(Effect::Emit(CacheEvent::Expire { key: full_key.clone() }));
        assert(effects@ =~= expire_effects(
            *full_key,
            options,
            match held {
                Some(entry) => Some(*entry),
                None => None,
            },
            now,
        ));
        effects
    }

    /// The message that tells the other nodes of a marker.
    pub open spec fn marker_message(self, key: String, at: Timestamp) -> BackplaneMessage {
        BackplaneMessage {
            source_id: self.settings.instance_id,
            timestamp: at,
            action: BackplaneAction::Put,
            key,
        }
    }

    /// Whether `effects` tell the other nodes of the marker `key` recorded at `at`, if there
    /// is a backplane, and then report `event`.
    pub open spec fn spreads_marker<V>(
        self,
        effects: Seq<Effect<V>>,
        key: Seq<char>,
        at: Timestamp,
        event: CacheEvent,
    ) -> bool {
        if self.settings.has_backplane {
            &&& effects.len() == 2
            &&& effects[0] matches Effect::SendMarker(message)
            &&& message == self.marker_message(message.key, at)
            &&& message.key@ == key
            &&& effects[1] == Effect::<V>::Emit(event)
        } else {
            effects == seq![Effect::<V>::Emit(event)]
        }
    }

    fn spread_marker<V>(&self, key: String, at: Timestamp, event: CacheEvent) -> (effects: Vec<
        Effect<V>,
    >)
        ensures
            self.spreads_marker(effects@, key@, at, event),
    {
        let mut effects: Vec<Effect<V>> = Vec::new();
        if self.settings.has_backplane {
            effects.push(Effect::SendMarker(self.message(BackplaneAction::Put, &key, at)));
        }
        effects.push(Effect::Emit(event));
        effects
    }

    /// Invalidates, at `now`, every entry that carries `tag`, here and on the other nodes. A
    /// blank tag does nothing.
    pub fn remove_by_tag<V>(&mut self, tag: &str, now: Timestamp) -> (effects: Vec<Effect<V>>)
        ensures
            if blank(tag@) {
                effects@.len() == 0 && *final(self) == *old(self)
            } else {
                &&& final(self).tags@ == old(self).tags@.with_tag(tag@, now)
                &&& *final(self) == (Cache { tags: final(self).tags, ..*old(self) })
                &&& effects@.last() matches Effect::Emit(CacheEvent::RemoveByTag { tag: reported })
                    && reported@ == tag@ && old(self).spreads_marker(
                    effects@,
                    tag_marker_key(tag@),
                    now,
                    CacheEvent::RemoveByTag { tag: reported },
                )
            },
    {
        match Tag::new(tag) {
            Some(t) => {
                self.tags.mark_tag(t, now);
                let event = CacheEvent::RemoveByTag { tag: String::from_str(tag) };
                self.spread_marker(join("__amalgam:t:", tag), now, event)
            },
            None => Vec::new(),
        }
    }

    /// Clears everything at `now`, here and on the other nodes: with fail-safe allowed every
    /// entry is expired, otherwise it is removed.
    pub fn clear<V>(&mut self, allow_fail_safe: bool, now: Timestamp) -> (effects: Vec<Effect<V>>)
        ensures
            *final(self) == (Cache { tags: final(self).tags, ..*old(self) }),
            if allow_fail_safe {
                &&& final(self).tags@ == old(self).tags@.with_clear_expire(now)
                &&& old(self).spreads_marker(
                    effects@,
                    clear_marker_key(true),
                    now,
                    CacheEvent::Clear,
                )
            } else {
                &&& final(self).tags@ == old(self).tags@.with_clear_remove(now)
                &&& effects@.len() > 0
                &&& effects@[0] is InvalidateMemory
                &&& old(self).spreads_marker(
                    effects@.skip(1),
                    clear_marker_key(false),
                    now,
                    CacheEvent::Clear,
                )
            },
    {
        if allow_fail_safe {
            self.tags.mark_clear_expire(now);
            self.spread_marker(String::from_str("__amalgam:clear:expire"), now, CacheEvent::Clear)
        } else {
            self.tags.mark_clear_remove(now);
            let mut effects: Vec<Effect<V>> = Vec::new();
            effects.push(Effect::InvalidateMemory);
            let mut spread = self.spread_marker(
                String::from_str("__amalgam:clear:remove"),
                now,
                CacheEvent::Clear,
            );
            let ghost told = spread@;
            effects.append(&mut spread);
            assert(effects@.skip(1) =~= told);
            effects
        }
    }
}

/// What is written is read back: as long as it is fresh, and so up to the end of its
/// freshness window at least, memory serves the value, whatever it held before, unless a clear
/// or a marker of one of its own tags has invalidated it.
pub proof fn law_written_value_is_read_back<V>(
    cache: Cache,
    key: String,
    value: V,
    options: EntryOptions,
    created: Timestamp,
    tags: Vec<Tag>,
    eager_share: Duration,
    stored: Stored<V>,
    held: Option<Entry<V>>,
    now: Timestamp,
)
    requires
        stored.entry.is_made_of(value, options, created, tags, None, None, eager_share),
        stored.effects@ == write_through(stored.entry, options).push(
            Effect::Emit(CacheEvent::Put { key }),
        ),
        !options.skip_memory_write,
        cache.verdict_on(stored.entry) is Valid,
    ensures
        slot_after(stored.effects@, held) == Some(stored.entry),
        *stored.entry.value == value,
        stored.entry.fresh_at(now) ==> cache.classified(slot_after(stored.effects@, held), now)
            == L1Read::Fresh(stored.entry),
        now.0 < later_by(created, options.memory_window()).0 ==> stored.entry.fresh_at(now),
{
    let entry = stored.entry;
    let reports = seq![Effect::<V>::Emit(CacheEvent::Put { key })];
    lemma_write_fills_memory(entry, options, reports, held);
    assert(stored.effects@ =~= write_through(entry, options) + reports);
    law_jitter_stays_in_bounds(options, created, entry.meta.logical_expiration);
}

/// What a factory produced, waited for or not, is read back in the same way.
pub proof fn law_product_is_read_back<V>(
    cache: Cache,
    key: String,
    product: FactoryProduct<V>,
    created: Timestamp,
    eager_share: Duration,
    reports_success: bool,
    stored: Stored<V>,
    held: Option<Entry<V>>,
    now: Timestamp,
)
    requires
        stored.is_stored_from(product, eager_share, created),
        stored.effects@ == store_effects(key, stored.entry, product.options, reports_success),
        !product.options.skip_memory_write,
        cache.verdict_on(stored.entry) is Valid,
    ensures
        slot_after(stored.effects@, held) == Some(stored.entry),
        *stored.entry.value == product.value,
        stored.entry.fresh_at(now) ==> cache.classified(slot_after(stored.effects@, held), now)
            == L1Read::Fresh(stored.entry),
        now.0 < later_by(created, product.options.memory_window()).0 ==> stored.entry.fresh_at(now),
{
    let entry = stored.entry;
    let put = Effect::<V>::Emit(CacheEvent::Put { key });
    let reports = if reports_success {
        seq![Effect::<V>::Emit(CacheEvent::FactorySuccess { key }), put]
    } else {
        seq![put]
    };
    lemma_write_fills_memory(entry, product.options, reports, held);
    law_jitter_stays_in_bounds(product.options, created, entry.meta.logical_expiration);
}

/// A value found unchanged, waited for or not, is fresh again for a whole window, with the
/// entity tag, the last-modified instant and the tags it had, and is not reported as a success
/// of the factory.
pub proof fn law_unchanged_value_is_renewed<V: Clone>(
    ctx: FactoryContext<V>,
    stale: Entry<V>,
    product: FactoryProduct<V>,
    key: String,
    created: Timestamp,
    eager_share: Duration,
    reports_success: bool,
    stored: Stored<V>,
    now: Timestamp,
)
    requires
        ctx.stale == Some(stale),
        ctx.is_reused_by(product),
        stored.is_stored_from(product, eager_share, created),
        stored.effects@ == store_effects(key, stored.entry, product.options, reports_success),
        reports_success ==> !product.reused_stale,
        now.0 < later_by(created, ctx.options.memory_window()).0,
    ensures
        cloned(*stale.value, *stored.entry.value),
        stored.entry.fresh_at(now),
        stored.entry.meta.created == created,
        stored.entry.meta.etag == stale.meta.etag,
        stored.entry.meta.last_modified == stale.meta.last_modified,
        stored.entry.texts() == stale.texts(),
        !stored.effects@.contains(Effect::<V>::Emit(CacheEvent::FactorySuccess { key })),
{
    law_jitter_stays_in_bounds(product.options, created, stored.entry.meta.logical_expiration);
    assert(stored.entry.texts() =~= stale.texts());
}

proof fn lemma_write_fills_memory<V>(
    entry: Entry<V>,
    options: EntryOptions,
    reports: Seq<Effect<V>>,
    held: Option<Entry<V>>,
)
    requires
        !options.skip_memory_write,
        forall|i: int| 0 <= i < reports.len() ==> #[trigger] reports[i] is Emit,
    ensures
        slot_after(write_through(entry, options) + reports, held) == Some(entry),
{
    let effects = write_through(entry, options) + reports;
    let rest = effects.skip(1);
    assert(effects =~= seq![Effect::InsertMemory(entry)] + rest);
    lemma_slot_after_both(seq![Effect::InsertMemory(entry)], rest, held);
    assert(seq![Effect::InsertMemory(entry)].drop_last() =~= Seq::<Effect<V>>::empty());
    assert(slot_after(seq![Effect::InsertMemory(entry)], held) == Some(entry)) by {
        reveal_with_fuel(slot_after, 2);
    }
    assert forall|i: int| 0 <= i < rest.len() implies !(#[trigger] rest[i] is InsertMemory) && !(
    rest[i] is RemoveMemory) && !(rest[i] is InvalidateMemory) by {
        let n = write_through(entry, options).len();
        if i + 1 >= n {
            assert(rest[i] == reports[i + 1 - n]);
        }
    }
    lemma_slot_unchanged(rest, Some(entry));
}

/// A removed key is gone from memory, whatever it held, and the distributed cache and the
/// other nodes are told.
pub proof fn law_removed_key_is_gone<V>(
    cache: Cache,
    key: String,
    options: EntryOptions,
    held: Option<Entry<V>>,
    now: Timestamp,
)
    ensures
        slot_after(remove_effects::<V>(key, options), held) is None,
        cache.classified(slot_after(remove_effects::<V>(key, options), held), now) is Miss,
        remove_effects::<V>(key, options).contains(Effect::<V>::RemoveDistributed),
        remove_effects::<V>(key, options).contains(
            Effect::<V>::Announce(BackplaneAction::Remove, options),
        ),
{
    let effects = remove_effects::<V>(key, options);
    let rest = effects.skip(1);
    assert(effects =~= seq![Effect::<V>::RemoveMemory] + rest);
    lemma_slot_after_both(seq![Effect::<V>::RemoveMemory], rest, held);
    assert(seq![Effect::<V>::RemoveMemory].drop_last() =~= Seq::<Effect<V>>::empty());
    reveal_with_fuel(slot_after, 2);
    lemma_slot_unchanged(rest, None);
    assert(effects[1] is RemoveDistributed);
    assert(effects[2] == Effect::<V>::Announce(BackplaneAction::Remove, options));
}

/// An expired key is never served as fresh again, but as long as no marker removes it, what
/// it held stays a fallback until the end it had before.
pub proof fn law_expired_key_is_only_a_fallback<V>(
    cache: Cache,
    key: String,
    options: EntryOptions,
    entry: Entry<V>,
    at: Timestamp,
    now: Timestamp,
)
    requires
        at.0 <= now.0,
    ensures
        ({
            let slot = slot_after(expire_effects(key, options, Some(entry), at), Some(entry));
            &&& slot == Some(entry.expired_at(at))
            &&& !(cache.classified(slot, now) is Fresh)
            &&& !(cache.verdict_on(entry) is Remove) ==> cache.classified(slot, now)
                == L1Read::Stale(entry.expired_at(at))
            &&& entry.expired_at(at).value == entry.value
            &&& entry.expired_at(at).alive_at(now) == entry.alive_at(now)
        }),
{
    let effects = expire_effects(key, options, Some(entry), at);
    let first = seq![Effect::InsertMemory(entry.expired_at(at))];
    let rest = effects.skip(1);
    assert(effects =~= first + rest);
    lemma_slot_after_both(first, rest, Some(entry));
    assert(first.drop_last() =~= Seq::<Effect<V>>::empty());
    reveal_with_fuel(slot_after, 2);
    lemma_slot_unchanged(rest, Some(entry.expired_at(at)));
    assert(entry.expired_at(at).texts() == entry.texts());
}

/// Expiring a key that memory does not hold leaves memory without it.
pub proof fn law_expiring_nothing_stores_nothing<V>(
    key: String,
    options: EntryOptions,
    at: Timestamp,
)
    ensures
        slot_after(expire_effects::<V>(key, options, None, at), None) is None,
{
    lemma_slot_unchanged(expire_effects::<V>(key, options, None, at), None);
}

/// Whether an effect puts or takes something into or out of memory or the distributed cache, or
/// tells the other nodes.
pub open spec fn spreads<V>(effect: Effect<V>) -> bool {
    !(effect is Emit)
}

/// Expiring a key reaches every level. Memory and the distributed cache are given one and the
/// same copy, which holds the value, the creation, the end, the tags and what a conditional
/// refresh needs as before, but is stale from then on; no level is given anything fresh; and the
/// other nodes are told.
pub proof fn law_expiry_reaches_every_level<V>(
    cache: Cache,
    key: String,
    entry: Entry<V>,
    at: Timestamp,
    effects: Vec<Effect<V>>,
    copy: Entry<V>,
)
    requires
        call_ensures(Cache::expire::<V>, (&cache, &key, Some(&entry), at), effects),
        slot_after(effects@, Some(entry)) == Some(copy),
    ensures
        effects@.contains(Effect::InsertMemory(copy)),
        effects@.contains(Effect::WriteDistributed(copy, cache.settings.default_options)),
        effects@.contains(
            Effect::<V>::Announce(BackplaneAction::Expire, cache.settings.default_options),
        ),
        effects@.contains(Effect::<V>::Emit(CacheEvent::Expire { key })),
        copy.value == entry.value,
        copy.meta.created == entry.meta.created,
        copy.meta.physical_expiration == entry.meta.physical_expiration,
        copy.meta.tags == entry.meta.tags,
        copy.meta.etag == entry.meta.etag,
        copy.meta.last_modified == entry.meta.last_modified,
        copy.meta.logical_expiration.0 <= at.0,
        forall|i: int|
            0 <= i < effects@.len() ==> match #[trigger] effects@[i] {
                Effect::InsertMemory(given) => given.meta.logical_expiration.0 <= at.0,
                Effect::WriteDistributed(given, _) => given.meta.logical_expiration.0 <= at.0,
                Effect::Announce(action, _) => action is Expire,
                Effect::Emit(event) => event == (CacheEvent::Expire { key }),
                _ => false,
            },
{
    law_expired_key_is_only_a_fallback(cache, key, cache.settings.default_options, entry, at, at);
    assert(effects@[0] == Effect::InsertMemory(copy));
    assert(effects@[1] == Effect::WriteDistributed(copy, cache.settings.default_options));
    assert(effects@[2] is Announce);
    assert(effects@[3] is Emit);
}

/// The same of the effects themselves: for a key that memory holds, the distributed cache is
/// given a copy with the value that is stale at every later instant; and whatever memory holds,
/// the other nodes are told.
pub proof fn law_expiry_leaves_nothing_fresh<V>(
    key: String,
    options: EntryOptions,
    held: Option<Entry<V>>,
    at: Timestamp,
    later: Timestamp,
)
    requires
        at.0 <= later.0,
    ensures
        ({
            let effects = expire_effects(key, options, held, at);
            &&& held matches Some(entry) ==> exists|i: int|
                0 <= i < effects.len() && (#[trigger] effects[i] matches Effect::WriteDistributed(
                    copy,
                    under,
                ) && copy.value == entry.value && later.0 >= copy.meta.logical_expiration.0 && under
                    == options)
            &&& held is None ==> forall|i: int|
                0 <= i < effects.len() ==> !(#[trigger] effects[i] is WriteDistributed) && !(
                effects[i] is InsertMemory)
            &&& effects.contains(Effect::<V>::Announce(BackplaneAction::Expire, options))
            &&& effects.contains(Effect::<V>::Emit(CacheEvent::Expire { key }))
        }),
{
    let effects = expire_effects(key, options, held, at);
    if held is Some {
        assert(effects[1] is WriteDistributed);
        assert(effects[2] is Announce);
        assert(effects[3] is Emit);
    } else {
        assert(effects[0] is Announce);
        assert(effects[1] is Emit);
    }
}

/// Expiring a key that memory does not hold writes nothing anywhere, but the other nodes, which
/// may hold it, are told.
pub proof fn law_expiry_of_what_is_not_held_is_announced<V>(
    cache: Cache,
    key: String,
    at: Timestamp,
    effects: Vec<Effect<V>>,
)
    requires
        call_ensures(Cache::expire::<V>, (&cache, &key, None, at), effects),
    ensures
        effects@.contains(
            Effect::<V>::Announce(BackplaneAction::Expire, cache.settings.default_options),
        ),
        effects@.contains(Effect::<V>::Emit(CacheEvent::Expire { key })),
        forall|i: int|
            0 <= i < effects@.len() && spreads(#[trigger] effects@[i]) ==> effects@[i] is Announce,
{
    assert(effects@[0] is Announce);
    assert(effects@[1] is Emit);
}

/// Removing a key reaches every level: afterwards memory holds nothing for it, whatever it held;
/// it is removed from the distributed cache; the other nodes are told, and nothing is written.
pub proof fn law_removal_reaches_every_level<V>(
    cache: Cache,
    key: String,
    held: Option<Entry<V>>,
    effects: Vec<Effect<V>>,
)
    requires
        call_ensures(Cache::remove::<V>, (&cache, &key), effects),
    ensures
        slot_after(effects@, held) is None,
        effects@.contains(Effect::<V>::RemoveMemory),
        effects@.contains(Effect::<V>::RemoveDistributed),
        effects@.contains(
            Effect::<V>::Announce(BackplaneAction::Remove, cache.settings.default_options),
        ),
        effects@.contains(Effect::<V>::Emit(CacheEvent::Remove { key })),
        forall|i: int|
            0 <= i < effects@.len() ==> match #[trigger] effects@[i] {
                Effect::RemoveMemory | Effect::RemoveDistributed => true,
                Effect::Announce(action, _) => action is Remove,
                Effect::Emit(event) => event == (CacheEvent::Remove { key }),
                _ => false,
            },
{
    law_removed_key_is_gone(cache, key, cache.settings.default_options, held, Timestamp(0));
    assert(effects@[0] is RemoveMemory);
    assert(effects@[1] is RemoveDistributed);
    assert(effects@[2] is Announce);
    assert(effects@[3] is Emit);
}

/// Whether effects write `entry` to every level that is not to be skipped, and nothing else
/// anywhere: memory first, the distributed cache before the other nodes are told, so that they
/// find the entry there; and then report.
pub open spec fn reaches_every_level<V>(
    effects: Seq<Effect<V>>,
    entry: Entry<V>,
    options: EntryOptions,
) -> bool {
    &&& !options.skip_memory_write <==> effects.contains(Effect::InsertMemory(entry))
    &&& !options.skip_distributed_write <==> effects.contains(
        Effect::WriteDistributed(entry, options),
    )
    &&& !options.skip_backplane_notifications <==> effects.contains(
        Effect::<V>::Announce(BackplaneAction::Put, options),
    )
    &&& forall|i: int|
        0 <= i < effects.len() ==> match #[trigger] effects[i] {
            Effect::InsertMemory(given) => given == entry && i == 0,
            Effect::WriteDistributed(given, under) => given == entry && under == options,
            Effect::Announce(action, under) => action is Put && under == options,
            Effect::Emit(_) => true,
            _ => false,
        }
    &&& forall|i: int, j: int|
        0 <= i < effects.len() && 0 <= j < effects.len() && #[trigger] effects[i]
            is WriteDistributed && #[trigger] effects[j] is Announce ==> i < j
}

proof fn lemma_reaches_every_level<V>(
    entry: Entry<V>,
    options: EntryOptions,
    reports: Seq<Effect<V>>,
)
    requires
        forall|i: int| 0 <= i < reports.len() ==> #[trigger] reports[i] is Emit,
    ensures
        reaches_every_level(write_through(entry, options) + reports, entry, options),
{
    let through = write_through(entry, options);
    let effects = through + reports;
    let m: int = if options.skip_memory_write { 0 } else { 1 };
    let d: int = if options.skip_distributed_write { 0 } else { 1 };
    if !options.skip_memory_write {
        assert(effects[0] == Effect::InsertMemory(entry));
    }
    if !options.skip_distributed_write {
        assert(effects[m] == Effect::WriteDistributed(entry, options));
    }
    if !options.skip_backplane_notifications {
        assert(effects[m + d] == Effect::<V>::Announce(BackplaneAction::Put, options));
    }
    assert forall|i: int| 0 <= i < effects.len() implies match #[trigger] effects[i] {
        Effect::InsertMemory(given) => given == entry && i == 0 && !options.skip_memory_write,
        Effect::WriteDistributed(given, under) => given == entry && under == options && i == m
            && !options.skip_distributed_write,
        Effect::Announce(action, under) => action is Put && under == options && i == m + d
            && !options.skip_backplane_notifications,
        Effect::Emit(_) => true,
        _ => false,
    } by {
        if i >= through.len() {
            assert(effects[i] == reports[i - through.len()]);
        } else {
            assert(effects[i] == through[i]);
        }
    }
}

/// A value that is set is written to every level that is not to be skipped, and reported.
pub proof fn law_set_reaches_every_level<V>(
    cache: Cache,
    key: String,
    value: V,
    options: EntryOptions,
    tags: Vec<Tag>,
    share: Duration,
    now: Timestamp,
    stored: Stored<V>,
)
    requires
        call_ensures(
            Cache::set_full::<V>,
            (&cache, &key, value, &options, tags, share, now),
            stored,
        ),
    ensures
        *stored.entry.value == value,
        stored.entry.meta.created == now,
        stored.entry.meta.tags@ == tags@,
        reaches_every_level(stored.effects@, stored.entry, options),
        stored.effects@.contains(Effect::<V>::Emit(CacheEvent::Put { key })),
{
    let reports = seq![Effect::<V>::Emit(CacheEvent::Put { key })];
    lemma_reaches_every_level(stored.entry, options, reports);
    assert(stored.effects@ =~= write_through(stored.entry, options) + reports);
    assert(stored.effects@.last() == Effect::<V>::Emit(CacheEvent::Put { key }));
}

/// What a factory produced is written, under the product's own options and with its metadata, to
/// every level that is not to be skipped, and reported. A success of the factory is reported
/// exactly if the caller waited for a new value.
pub proof fn law_product_reaches_every_level<V>(
    cache: Cache,
    key: String,
    product: FactoryProduct<V>,
    share: Duration,
    now: Timestamp,
    waited: bool,
    stored: Stored<V>,
)
    requires
        waited ==> call_ensures(
            Cache::store_product::<V>,
            (&cache, &key, product, share, now),
            stored,
        ),
        !waited ==> call_ensures(
            Cache::store_in_background::<V>,
            (&cache, &key, product, share, now),
            stored,
        ),
    ensures
        *stored.entry.value == product.value,
        stored.entry.meta.created == now,
        stored.entry.meta.etag == product.etag,
        stored.entry.meta.last_modified == product.last_modified,
        stored.entry.meta.tags@ == product.tags@,
        !stored.entry.meta.is_from_fail_safe,
        reaches_every_level(stored.effects@, stored.entry, product.options),
        stored.effects@.contains(Effect::<V>::Emit(CacheEvent::Put { key })),
        stored.effects@.contains(Effect::<V>::Emit(CacheEvent::FactorySuccess { key })) <==> waited
            && !product.reused_stale,
{
    let put = Effect::<V>::Emit(CacheEvent::Put { key });
    let success = Effect::<V>::Emit(CacheEvent::FactorySuccess { key });
    let reports = if waited && !product.reused_stale {
        seq![success, put]
    } else {
        seq![put]
    };
    lemma_reaches_every_level(stored.entry, product.options, reports);
    assert(stored.effects@ =~= write_through(stored.entry, product.options) + reports);
    assert(stored.effects@.last() == put);
    if waited && !product.reused_stale {
        assert(stored.effects@[stored.effects@.len() - 2] == success);
    } else {
        assert forall|i: int| 0 <= i < stored.effects@.len() implies #[trigger] stored.effects@[i]
            != success by {
            if i < stored.effects@.len() - 1 {
                assert(stored.effects@[i] == write_through(stored.entry, product.options)[i]);
            }
        }
    }
}

/// Invalidating a tag: from then on nothing that carries the tag and was made by then is valid,
/// while what does not carry it, or is made later, is judged as before. Nothing else about the
/// cache changes, and the other nodes are told of the tag and the instant. A blank tag does
/// nothing.
pub proof fn law_removing_by_tag_invalidates_what_carries_it<V>(
    cache: &mut Cache,
    tag: &str,
    now: Timestamp,
    effects: Vec<Effect<V>>,
    entry: Entry<V>,
)
    requires
        call_ensures(Cache::remove_by_tag::<V>, (cache, tag, now), effects),
    ensures
        ({
            let before = *old(cache);
            let after = *final(cache);
            let carries = exists|i: int|
                0 <= i < entry.meta.tags@.len() && (#[trigger] entry.meta.tags@[i])@ == tag@;
            &&& blank(tag@) ==> effects@.len() == 0 && after == before
            &&& after.settings == before.settings && after.circuit_l2 == before.circuit_l2
                && after.circuit_backplane == before.circuit_backplane && after.recovery
                == before.recovery
            &&& !blank(tag@) ==> {
                &&& carries && entry.meta.created.0 <= now.0 ==> !(after.verdict_on(entry) is Valid)
                &&& carries && entry.meta.created.0 <= now.0
                    && before.settings.remove_by_tag_behavior is Remove ==> after.verdict_on(
                    entry,
                ) is Remove
                &&& !carries || entry.meta.created.0 > now.0 ==> after.verdict_on(entry)
                    == before.verdict_on(entry)
                &&& before.settings.has_backplane <==> exists|i: int|
                    0 <= i < effects@.len() && #[trigger] effects@[i] is SendMarker
                &&& forall|i: int|
                    0 <= i < effects@.len() ==> match #[trigger] effects@[i] {
                        Effect::SendMarker(message) => {
                            &&& message.key@ == "__amalgam:t:"@ + tag@
                            &&& message.action is Put
                            &&& message.timestamp == now
                            &&& message.source_id == before.settings.instance_id
                        },
                        Effect::Emit(event) => event matches CacheEvent::RemoveByTag { tag: told }
                            && told@ == tag@,
                        _ => false,
                    }
                &&& effects@.len() > 0 && effects@.last() is Emit
            }
        }),
{
    let before = *old(cache);
    let after = *final(cache);
    let behavior = before.settings.remove_by_tag_behavior;
    let texts = entry.texts();
    if !blank(tag@) {
        let carries = exists|i: int|
            0 <= i < entry.meta.tags@.len() && (#[trigger] entry.meta.tags@[i])@ == tag@;
        if carries {
            let i = choose|i: int|
                0 <= i < entry.meta.tags@.len() && (#[trigger] entry.meta.tags@[i])@ == tag@;
            assert(texts[i] == tag@);
            assert(after.tags@.tags.contains_key(texts[i]));
            assert(entry.meta.created.0 <= now.0 ==> after.tags@.hits(entry.meta.created, texts));
        } else {
            assert(!texts.contains(tag@)) by {
                if texts.contains(tag@) {
                    let i = choose|i: int| 0 <= i < texts.len() && texts[i] == tag@;
                    assert(entry.meta.tags@[i]@ == tag@);
                }
            }
        }
        if !carries || entry.meta.created.0 > now.0 {
            law_marked_tag_spares_the_rest(
                before.tags@,
                tag@,
                now,
                entry.meta.created,
                texts,
                behavior,
            );
        }
        if before.settings.has_backplane {
            assert(effects@[0] is SendMarker);
        }
    }
}

/// Clearing: from then on nothing that was made by then is valid, and without fail-safe all of it
/// is removed, from memory at once; what is made later is judged as before. Nothing else about
/// the cache changes, and the other nodes are told which clear it was and when.
pub proof fn law_clearing_invalidates_everything<V>(
    cache: &mut Cache,
    allow_fail_safe: bool,
    now: Timestamp,
    effects: Vec<Effect<V>>,
    entry: Entry<V>,
    held: Option<Entry<V>>,
)
    requires
        call_ensures(Cache::clear::<V>, (cache, allow_fail_safe, now), effects),
    ensures
        ({
            let before = *old(cache);
            let after = *final(cache);
            &&& after.settings == before.settings && after.circuit_l2 == before.circuit_l2
                && after.circuit_backplane == before.circuit_backplane && after.recovery
                == before.recovery
            &&& entry.meta.created.0 <= now.0 ==> !(after.verdict_on(entry) is Valid)
            &&& entry.meta.created.0 <= now.0 && !allow_fail_safe ==> after.verdict_on(
                entry,
            ) is Remove
            &&& allow_fail_safe ==> (after.verdict_on(entry) is Remove <==> before.verdict_on(
                entry,
            ) is Remove)
            &&& entry.meta.created.0 > now.0 ==> after.verdict_on(entry) == before.verdict_on(entry)
            &&& slot_after(effects@, held) == (if allow_fail_safe {
                held
            } else {
                None
            })
            &&& before.settings.has_backplane <==> exists|i: int|
                0 <= i < effects@.len() && #[trigger] effects@[i] is SendMarker
            &&& forall|i: int|
                0 <= i < effects@.len() ==> match #[trigger] effects@[i] {
                    Effect::SendMarker(message) => {
                        &&& message.key@ == (if allow_fail_safe {
                            "__amalgam:clear:expire"@
                        } else {
                            "__amalgam:clear:remove"@
                        })
                        &&& message.action is Put
                        &&& message.timestamp == now
                        &&& message.source_id == before.settings.instance_id
                    },
                    Effect::Emit(event) => event is Clear,
                    Effect::InvalidateMemory => !allow_fail_safe,
                    _ => false,
                }
            &&& effects@.len() > 0 && effects@.last() is Emit
        }),
{
    let before = *old(cache);
    let after = *final(cache);
    let all = effects@;
    assert(after.tags@.hits(entry.meta.created, entry.texts()) == before.tags@.hits(
        entry.meta.created,
        entry.texts(),
    ));
    if allow_fail_safe {
        if before.settings.has_backplane {
            assert(all[0] is SendMarker);
        }
        lemma_slot_unchanged(all, held);
    } else {
        let rest = all.skip(1);
        let first = seq![Effect::<V>::InvalidateMemory];
        assert(all =~= first + rest);
        assert forall|i: int| 1 <= i < all.len() implies all[i] == rest[i - 1] by {}
        if before.settings.has_backplane {
            assert(rest[0] is SendMarker);
            assert(all[1] is SendMarker);
        } else {
            assert(rest[0] is Emit);
        }
        lemma_slot_after_both(first, rest, held);
        assert(first.drop_last() =~= Seq::<Effect<V>>::empty());
        reveal_with_fuel(slot_after, 2);
        lemma_slot_unchanged(rest, None);
        assert(all.last() == rest.last());
    }
}

/// What is stored, by hand or by a factory, waited for or not, is fresh for its window at least,
/// kept in memory for as long as it exists, and refreshed ahead of time exactly if its options have
/// a threshold, after the given share.
pub proof fn law_stored_entry_lasts_as_its_options_say<V>(
    cache: Cache,
    key: String,
    value: V,
    tags: Vec<Tag>,
    product: FactoryProduct<V>,
    options: EntryOptions,
    share: Duration,
    now: Timestamp,
    window: Duration,
    kept: Duration,
    refresh: Option<Timestamp>,
    stored: Stored<V>,
)
    requires
        call_ensures(
            Cache::set_full::<V>,
            (&cache, &key, value, &options, tags, share, now),
            stored,
        ) || (product.options == options && (call_ensures(
            Cache::store_product::<V>,
            (&cache, &key, product, share, now),
            stored,
        ) || call_ensures(
            Cache::store_in_background::<V>,
            (&cache, &key, product, share, now),
            stored,
        ))),
        call_ensures(EntryOptions::resolved_memory_duration, (&options,), window),
        call_ensures(EntryOptions::physical_ttl, (&options,), kept),
        call_ensures(EntryOptions::eager_refresh_at, (&options, now, share), refresh),
    ensures
        stored.entry.meta.logical_expiration.0 >= later_by(now, window).0,
        options.jitter_max.nanos == 0 ==> stored.entry.meta.logical_expiration == later_by(
            now,
            window,
        ),
        stored.entry.meta.physical_expiration == later_by(now, kept),
        stored.entry.meta.backend_ttl == kept,
        stored.entry.meta.eager_refresh_at == refresh,
{
    law_jitter_stays_in_bounds(options, now, stored.entry.meta.logical_expiration);
}

} // verus!
