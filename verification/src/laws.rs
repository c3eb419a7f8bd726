//! Laws that relate several operations, on one node or on several.
//!
//! Each is about calls in a row: what an earlier one did shows in what a later one comes to.
use crate::backplane::BackplaneMessage;
use crate::cache::{Cache, L1Read};
use crate::distributed::{texts_of, DistributedEntry};
use crate::effects::{slot_after, Effect};
use crate::entry::Entry;
use crate::error::Error;
use crate::events::CacheEvent;
use crate::flow::{
    asks_for_factory, comes_before_factory, law_distributed_read_is_followed,
    law_other_nodes_serve_the_write, Advance, GetOrSet, Outcome, Request, Step,
};
use crate::guarded::{takes, L2Answer, L2Outcome, L2Read, ReplaySteps};
use crate::incoming::{law_message_is_followed, Incoming};
use crate::options::EntryOptions;
use crate::recovery::{AutoRecoveryService, RecoveryItem};
use crate::tags::{law_clear_covers_everything, law_marked_tag_invalidates, tagged};
use crate::text::blank;
use crate::time::Timestamp;
use crate::writes::{
    law_clearing_invalidates_everything, law_expired_key_is_only_a_fallback,
    law_expiry_reaches_every_level,
};
use vstd::prelude::*;

verus! {

proof fn lemma_tag_is_kept(texts: Seq<Seq<char>>, tag: Seq<char>)
    requires
        texts.contains(tag),
        !blank(tag),
    ensures
        tagged(texts).contains(tag),
    decreases texts.len(),
{
    reveal(Seq::filter);
    let i = choose|i: int| 0 <= i < texts.len() && texts[i] == tag;
    if i == texts.len() - 1 {
        assert(tagged(texts) == tagged(texts.drop_last()).push(tag));
        assert(tagged(texts).last() == tag);
    } else {
        assert(texts.drop_last()[i] == tag);
        lemma_tag_is_kept(texts.drop_last(), tag);
        let j = choose|j: int|
            0 <= j < tagged(texts.drop_last()).len() && tagged(texts.drop_last())[j] == tag;
        assert(tagged(texts)[j] == tag);
    }
}

/// A tag that is invalidated keeps what carries it, and was made by then, from being served from
/// the distributed cache: a later call that finds it there asks for the factory.
pub proof fn law_tag_invalidates_the_distributed_cache<V>(
    marking: &mut Cache,
    tag: &str,
    at: Timestamp,
    effects: Vec<Effect<V>>,
    reading: &mut Cache,
    flow: GetOrSet<V>,
    dist: DistributedEntry<V>,
    read_at: Timestamp,
    now: Timestamp,
    advance: Advance<V>,
)
    requires
        call_ensures(Cache::remove_by_tag::<V>, (marking, tag, at), effects),
        !blank(tag@),
        old(reading).tags == final(marking).tags,
        call_ensures(
            GetOrSet::<V>::distributed_read,
            (flow, reading, L2Outcome::Answered(Ok(Some(dist))), read_at, now),
            advance,
        ),
        exists|i: int| 0 <= i < dist.tags@.len() && (#[trigger] dist.tags@[i])@ == tag@,
        dist.created_ticks <= at.0,
    ensures
        asks_for_factory(advance, flow),
{
    law_distributed_read_is_followed(flow, reading, dist, read_at, now, advance);
    let entry = choose|entry: Entry<V>|
        {
            &&& #[trigger] dist.rebuilds_to(entry, read_at)
            &&& !(old(reading).verdict_on(entry) is Valid && read_at.0
                < entry.meta.logical_expiration.0) ==> asks_for_factory(advance, flow)
        };
    let i = choose|i: int| 0 <= i < dist.tags@.len() && (#[trigger] dist.tags@[i])@ == tag@;
    assert(texts_of(dist.tags@)[i] == tag@);
    lemma_tag_is_kept(texts_of(dist.tags@), tag@);
    law_marked_tag_invalidates(
        old(marking).tags@,
        tag@,
        at,
        entry.meta.created,
        entry.texts(),
        old(reading).settings.remove_by_tag_behavior,
    );
}

/// A clear keeps whatever was made by then from being served from the distributed cache, be it one
/// that expires or one that removes: a later call that finds it there asks for the factory.
pub proof fn law_clear_invalidates_the_distributed_cache<V>(
    clearing: &mut Cache,
    allow_fail_safe: bool,
    at: Timestamp,
    effects: Vec<Effect<V>>,
    reading: &mut Cache,
    flow: GetOrSet<V>,
    dist: DistributedEntry<V>,
    read_at: Timestamp,
    now: Timestamp,
    advance: Advance<V>,
)
    requires
        call_ensures(Cache::clear::<V>, (clearing, allow_fail_safe, at), effects),
        old(reading).tags == final(clearing).tags,
        call_ensures(
            GetOrSet::<V>::distributed_read,
            (flow, reading, L2Outcome::Answered(Ok(Some(dist))), read_at, now),
            advance,
        ),
        dist.created_ticks <= at.0,
    ensures
        asks_for_factory(advance, flow),
        !allow_fail_safe ==> advance.effects@.contains(Effect::<V>::RemoveDistributed),
{
    law_distributed_read_is_followed(flow, reading, dist, read_at, now, advance);
    let entry = choose|entry: Entry<V>|
        {
            &&& #[trigger] dist.rebuilds_to(entry, read_at)
            &&& !(old(reading).verdict_on(entry) is Valid && read_at.0
                < entry.meta.logical_expiration.0) ==> asks_for_factory(advance, flow)
            &&& old(reading).verdict_on(entry) is Remove <==> advance.effects@.contains(
                Effect::<V>::RemoveDistributed,
            )
        };
    law_clear_covers_everything(
        old(clearing).tags@,
        at,
        entry.meta.created,
        entry.texts(),
        old(reading).settings.remove_by_tag_behavior,
    );
}

/// A key that is expired is served as fresh from no level: neither from memory, which holds the
/// expired copy, nor from the distributed cache, which was given that copy too.
pub proof fn law_expired_key_is_fresh_nowhere<V: Clone>(
    cache: Cache,
    key: String,
    entry: Entry<V>,
    at: Timestamp,
    effects: Vec<Effect<V>>,
    copy: Entry<V>,
    dist: DistributedEntry<V>,
    reading: &mut Cache,
    flow: GetOrSet<V>,
    read_at: Timestamp,
    now: Timestamp,
    advance: Advance<V>,
    read: L1Read<V>,
)
    requires
        call_ensures(Cache::expire::<V>, (&cache, &key, Some(&entry), at), effects),
        effects@.contains(Effect::WriteDistributed(copy, cache.settings.default_options)),
        call_ensures(DistributedEntry::<V>::from_entry, (&copy,), dist),
        at.0 <= read_at.0,
        call_ensures(
            GetOrSet::<V>::distributed_read,
            (flow, reading, L2Outcome::Answered(Ok(Some(dist))), read_at, now),
            advance,
        ),
        call_ensures(
            Cache::read_l1::<V>,
            (old(reading), slot_after(effects@, Some(entry)), read_at),
            read,
        ),
    ensures
        asks_for_factory(advance, flow),
        !(read is Fresh),
        cloned(*entry.value, dist.value),
{
    law_distributed_read_is_followed(flow, reading, dist, read_at, now, advance);
    law_expired_key_is_only_a_fallback(
        *old(reading),
        key,
        cache.settings.default_options,
        entry,
        at,
        read_at,
    );
    let slot = slot_after(effects@, Some(entry));
    law_expiry_reaches_every_level(cache, key, entry, at, effects, slot->0);
    let i = choose|i: int|
        0 <= i < effects@.len() && effects@[i] == Effect::WriteDistributed(
            copy,
            cache.settings.default_options,
        );
    assert(effects@[i] is WriteDistributed);
}

/// After an expiry the factory can still make a conditional request: it is shown the expired value
/// with the entity tag and the last-modified instant that it had.
pub proof fn law_expired_entry_can_be_refreshed_conditionally<V>(
    cache: Cache,
    key: String,
    entry: Entry<V>,
    at: Timestamp,
    effects: Vec<Effect<V>>,
    reading: &mut Cache,
    flow: GetOrSet<V>,
    read_at: Timestamp,
    now: Timestamp,
    advance: Advance<V>,
)
    requires
        call_ensures(Cache::expire::<V>, (&cache, &key, Some(&entry), at), effects),
        at.0 <= read_at.0,
        flow.holds_lock,
        !(old(reading).verdict_on(entry) is Remove),
        call_ensures(
            GetOrSet::<V>::memory_read,
            (flow, reading, slot_after(effects@, Some(entry)), read_at, now),
            advance,
        ),
    ensures
        advance.step matches Step::Ask(asking, request) && (asking.stale matches Some(shown) && {
            &&& shown.value == entry.value
            &&& shown.meta.etag == entry.meta.etag
            &&& shown.meta.last_modified == entry.meta.last_modified
            &&& request matches Request::RunFactory(ctx, _) ==> ctx.stale == asking.stale
        }),
{
    law_expired_key_is_only_a_fallback(
        *old(reading),
        key,
        cache.settings.default_options,
        entry,
        at,
        read_at,
    );
    let slot = slot_after(effects@, Some(entry));
    law_expiry_reaches_every_level(cache, key, entry, at, effects, slot->0);
}

/// What another node wrote to the distributed cache is served even where memory holds an older,
/// stale copy: the call reads the distributed cache before it asks for the factory, and ends there.
pub proof fn law_newer_write_is_served_over_a_stale_copy<V>(
    flow: GetOrSet<V>,
    looking: &mut Cache,
    copy: Entry<V>,
    first: Advance<V>,
    asking: GetOrSet<V>,
    read: L2Read,
    written: Entry<V>,
    dist: DistributedEntry<V>,
    reading: &mut Cache,
    read_at: Timestamp,
    now: Timestamp,
    last: Advance<V>,
)
    requires
        flow.holds_lock,
        copy.meta.logical_expiration.0 <= read_at.0,
        call_ensures(
            GetOrSet::<V>::memory_read,
            (flow, looking, Some(copy), read_at, now),
            first,
        ),
        comes_before_factory::<V>(*old(looking), flow.options, true, now),
        dist.describes(written.metadata()),
        forall|i: int|
            0 <= i < written.meta.tags@.len() ==> !blank(#[trigger] written.meta.tags@[i]@),
        read_at.0 < written.meta.logical_expiration.0,
        old(reading).verdict_on(written) is Valid,
        first.step matches Step::Ask(next, Request::ReadDistributed(_)) ==> next == asking,
        call_ensures(
            GetOrSet::<V>::distributed_read,
            (asking, reading, L2Outcome::Answered(Ok(Some(dist))), read_at, now),
            last,
        ),
    ensures
        first.step matches Step::Ask(_, Request::ReadDistributed(_)),
        last.step matches Step::Finish(Outcome::Serve(served)) && *served.value == dist.value
            && served.meta.created == written.meta.created,
{
    law_other_nodes_serve_the_write(
        written,
        dist,
        asking,
        *old(reading),
        *final(reading),
        read_at,
        now,
        last,
    );
}

/// A tag invalidated on one node is invalid on every node that hears of it: what carries it and was
/// made by then is neither served as fresh from memory there nor from the distributed cache.
pub proof fn law_tag_invalidates_on_every_node<V>(
    here: &mut Cache,
    tag: &str,
    at: Timestamp,
    effects: Vec<Effect<V>>,
    message: BackplaneMessage,
    there: &mut Cache,
    incoming: Incoming,
    entry: Entry<V>,
    now: Timestamp,
    held: L1Read<V>,
)
    requires
        call_ensures(Cache::remove_by_tag::<V>, (here, tag, at), effects),
        !blank(tag@),
        effects@.contains(Effect::<V>::SendMarker(message)),
        call_ensures(Cache::apply_backplane, (there, message), incoming),
        !old(there).settings.ignore_incoming_backplane,
        entry.texts().contains(tag@),
        entry.meta.created.0 <= at.0,
        call_ensures(Cache::read_l1::<V>, (final(there), Some(entry), now), held),
    ensures
        !(final(there).verdict_on(entry) is Valid),
        !(held is Fresh),
        old(here).settings.has_backplane,
{
    let i = choose|i: int|
        0 <= i < effects@.len() && effects@[i] == Effect::<V>::SendMarker(message);
    assert(effects@[i] is SendMarker);
    assert(message.key@ == "__amalgam:t:"@ + tag@);
    assert(message.timestamp == at && message.action is Put);
    law_message_is_followed(there, message, incoming);
    assert(final(there).tags@ == old(there).tags@.with_tag(tag@, at));
    law_marked_tag_invalidates(
        old(there).tags@,
        tag@,
        at,
        entry.meta.created,
        entry.texts(),
        final(there).settings.remove_by_tag_behavior,
    );
}

/// A node that cleared and sent word of it is followed by every node that hears it: what was made
/// by then is valid nowhere, and is removed there exactly where it is removed here.
pub proof fn law_clear_counts_on_every_node<V>(
    here: &mut Cache,
    allow_fail_safe: bool,
    at: Timestamp,
    effects: Vec<Effect<V>>,
    message: BackplaneMessage,
    there: &mut Cache,
    incoming: Incoming,
    entry: Entry<V>,
)
    requires
        call_ensures(Cache::clear::<V>, (here, allow_fail_safe, at), effects),
        effects@.contains(Effect::<V>::SendMarker(message)),
        call_ensures(Cache::apply_backplane, (there, message), incoming),
        !old(there).settings.ignore_incoming_backplane,
        entry.meta.created.0 <= at.0,
    ensures
        !(final(there).verdict_on(entry) is Valid),
        !allow_fail_safe ==> final(there).verdict_on(entry) is Remove
            && incoming.change is InvalidateAll,
        allow_fail_safe ==> incoming.change is Nothing,
{
    let i = choose|i: int|
        0 <= i < effects@.len() && effects@[i] == Effect::<V>::SendMarker(message);
    law_clearing_invalidates_everything(here, allow_fail_safe, at, effects, entry, None);
    assert(effects@[i] is SendMarker);
    assert(message.timestamp == at && message.action is Put);
    law_message_is_followed(there, message, incoming);
    law_clear_covers_everything(
        old(there).tags@,
        at,
        entry.meta.created,
        entry.texts(),
        final(there).settings.remove_by_tag_behavior,
    );
}

/// A read of the distributed cache that fails keeps it from being read again until the breaker's
/// span has passed, and not any longer.
pub proof fn law_failing_distributed_cache_is_left_alone<V>(
    failing: &mut Cache,
    key: String,
    options: EntryOptions,
    has_fallback: bool,
    err: Error,
    read_at: Timestamp,
    at: Timestamp,
    answer: L2Answer<V>,
    later: &mut Cache,
    asked: &str,
    now: Timestamp,
    plan: Option<L2Read>,
)
    requires
        call_ensures(
            Cache::finish_l2_read::<V>,
            (
                failing,
                &key,
                &options,
                has_fallback,
                L2Outcome::Answered(Err(err)),
                read_at,
                at,
            ),
            answer,
        ),
        old(failing).settings.has_distributed,
        old(failing).circuit_l2.open_ticks > 0,
        at.0 + old(failing).circuit_l2.open_ticks <= i64::MAX,
        *old(later) == *final(failing),
        call_ensures(Cache::plan_l2_read, (later, asked, &options, has_fallback, now), plan),
    ensures
        plan is Some <==> now.0 >= at.0 + old(failing).circuit_l2.open_ticks,
{
}

/// A write to the distributed cache that failed is made up for: it is queued, handed out for replay
/// as long as it is worth it, and written again from what memory holds then.
pub proof fn law_failed_write_is_made_up_for<V>(
    failing: &mut Cache,
    key: String,
    err: Error,
    at: Timestamp,
    events: Vec<CacheEvent>,
    service: &mut AutoRecoveryService,
    asked: &str,
    now: Timestamp,
    item: Option<RecoveryItem>,
    held: Entry<V>,
    steps: ReplaySteps,
)
    requires
        call_ensures(Cache::finish_l2_write, (failing, &key, Err(err), at), events),
        takes(old(failing).recovery, key@, at),
        old(failing).settings.has_distributed,
        final(failing).recovery == Some(*old(service)),
        asked@ == key@,
        call_ensures(AutoRecoveryService::next_replay, (service, asked, now), item),
        at.0 + 6_000_000_000 <= i64::MAX,
        now.0 < at.0 + 6_000_000_000,
        item matches Some(next) ==> call_ensures(
            Cache::replay_steps::<V>,
            (final(failing), &next, Some(&held)),
            steps,
        ),
    ensures
        item matches Some(next) && next.key@ == key@ && next.action is Put && next.timestamp == at,
        steps.write matches Some((_, ttl)) && ttl == held.meta.backend_ttl,
        steps.remove is None,
{
}

} // verus!
