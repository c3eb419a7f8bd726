//! What an operation asks for, apart from its result.
//!
//! Effects are about one key, the full key of the operation, and are carried out in order.
use crate::backplane::{BackplaneAction, BackplaneMessage};
use crate::entry::Entry;
use crate::events::CacheEvent;
use crate::options::EntryOptions;
use vstd::prelude::*;

verus! {

/// Something to be done.
#[derive(Debug)]
pub enum Effect<V> {
    /// Report an event.
    Emit(CacheEvent),
    /// Put an entry into the memory store.
    InsertMemory(Entry<V>),
    /// Remove the entry from the memory store.
    RemoveMemory,
    /// Drop every entry of the memory store, whatever its key.
    InvalidateMemory,
    /// Write an entry to the distributed cache, under the given options.
    WriteDistributed(Entry<V>, EntryOptions),
    /// Remove the entry from the distributed cache.
    RemoveDistributed,
    /// Tell the other nodes what happened, under the given options.
    Announce(BackplaneAction, EntryOptions),
    /// Send a marker to the other nodes, and report that it was published if it was.
    SendMarker(BackplaneMessage),
    /// Refresh this entry in the background, unless somebody else holds the lock.
    RefreshEagerly(Entry<V>),
    /// Let the factory finish in the background, and hold the lock until it has.
    KeepFactory,
    /// Stop the factory.
    AbortFactory,
}

/// The effects that report `events`.
pub open spec fn emits<V>(events: Seq<CacheEvent>) -> Seq<Effect<V>> {
    Seq::new(events.len(), |i: int| Effect::Emit(events[i]))
}

/// What the memory store holds for the key once one effect was carried out.
pub open spec fn slot_after_one<V>(effect: Effect<V>, slot: Option<Entry<V>>) -> Option<Entry<V>> {
    match effect {
        Effect::InsertMemory(entry) => Some(entry),
        Effect::RemoveMemory => None,
        Effect::InvalidateMemory => None,
        _ => slot,
    }
}

/// What the memory store holds for the key once the effects were carried out in order.
pub open spec fn slot_after<V>(effects: Seq<Effect<V>>, slot: Option<Entry<V>>) -> Option<Entry<V>>
    decreases effects.len(),
{
    if effects.len() == 0 {
        slot
    } else {
        slot_after_one(effects.last(), slot_after(effects.drop_last(), slot))
    }
}

/// Carrying out two lists of effects is carrying out the first and then the second.
pub proof fn lemma_slot_after_both<V>(
    first: Seq<Effect<V>>,
    second: Seq<Effect<V>>,
    slot: Option<Entry<V>>,
)
    ensures
        slot_after(first + second, slot) == slot_after(second, slot_after(first, slot)),
    decreases second.len(),
{
    let both = first + second;
    if second.len() == 0 {
        assert(both =~= first);
    } else {
        lemma_slot_after_both(first, second.drop_last(), slot);
        assert(both.drop_last() =~= first + second.drop_last());
    }
}

/// Effects that leave the memory store alone leave what it holds.
pub proof fn lemma_slot_unchanged<V>(effects: Seq<Effect<V>>, slot: Option<Entry<V>>)
    requires
        forall|i: int|
            0 <= i < effects.len() ==> !(#[trigger] effects[i] is InsertMemory)
                && !(effects[i] is RemoveMemory) && !(effects[i] is InvalidateMemory),
    ensures
        slot_after(effects, slot) == slot,
    decreases effects.len(),
{
    if effects.len() > 0 {
        assert forall|i: int| 0 <= i < effects.len() - 1 implies !(
        #[trigger] effects.drop_last()[i] is InsertMemory) && !(effects.drop_last()[i]
            is RemoveMemory) && !(effects.drop_last()[i] is InvalidateMemory) by {
            assert(effects.drop_last()[i] == effects[i]);
        }
        lemma_slot_unchanged(effects.drop_last(), slot);
        assert(effects[effects.len() - 1] == effects.last());
    }
}

/// Appends the effects that report `events`.
pub(crate) fn push_events<V>(effects: &mut Vec<Effect<V>>, events: Vec<CacheEvent>)
    ensures
        final(effects)@ == old(effects)@ + emits::<V>(events@),
{
    let ghost start = effects@;
    let ghost all = events@;
    for event in it: events
        invariant
            it.seq() == all,
            effects@ == start + emits::<V>(all.take(it.index() as int)),
    {
        let ghost i = it.index();
        effects.push(Effect::Emit(event));
        assert(emits::<V>(all.take(i + 1)) =~= emits::<V>(all.take(i as int)).push(
            Effect::Emit(all[i as int]),
        ));
        assert(effects@ =~= start + emits::<V>(all.take(i + 1)));
    }
    assert(all.take(all.len() as int) =~= all);
}

} // verus!
