//! Messages from other nodes.
use crate::backplane::{BackplaneAction, BackplaneMessage};
use crate::cache::{Cache, L1Read};
use crate::effects::{slot_after, Effect};
use crate::entry::Entry;
use crate::events::{CacheEvent, CircuitComponent};
use crate::guarded::closing_events;
use crate::tags::{law_clear_covers_everything, law_marked_tag_invalidates, Marks, Tag};
use crate::text::{blank, without_prefix};
use crate::time::Timestamp;
use crate::writes::{clear_marker_key, tag_marker_key};
use vstd::prelude::*;

verus! {

/// What a message from another node asks of the memory store.
#[derive(Debug, Clone, Copy, PartialEq, Eq, Structural)]
pub enum LocalChange {
    /// Nothing.
    Nothing,
    /// Drop every entry.
    InvalidateAll,
    /// Drop the entry of the message's key.
    Remove,
    /// Expire the entry of the message's key, if there is one.
    Expire {
        /// Where its freshness ends.
        at: Timestamp,
    },
    /// Replace the entry of the message's key, if there is one, with what the distributed
    /// cache holds.
    Refresh,
}

/// The effects of a change, given what memory holds for the key and what a refresh brings.
pub open spec fn change_effects<V>(
    change: LocalChange,
    held: Option<Entry<V>>,
    brought: Option<Entry<V>>,
) -> Seq<Effect<V>> {
    match (change, held) {
        (LocalChange::InvalidateAll, _) => seq![Effect::InvalidateMemory],
        (LocalChange::Remove, _) => seq![Effect::RemoveMemory],
        (LocalChange::Expire { at }, Some(entry)) => seq![
            Effect::InsertMemory(entry.expired_at(at)),
        ],
        (LocalChange::Refresh, Some(_)) => match brought {
            Some(entry) => seq![Effect::InsertMemory(entry)],
            None => seq![Effect::RemoveMemory],
        },
        _ => Seq::empty(),
    }
}

impl LocalChange {
    /// The effects of the change, given what memory holds for the key and what a refresh
    /// brings. A copy that cannot be refreshed is dropped; without a copy there is nothing to
    /// expire or to refresh.
    pub fn effects<V>(self, held: Option<&Entry<V>>, brought: Option<Entry<V>>) -> (effects: Vec<
        Effect<V>,
    >)
        ensures
            effects@ == change_effects(
                self,
                match held {
                    Some(entry) => Some(*entry),
                    None => None,
                },
                brought,
            ),
    {
        let mut effects: Vec<Effect<V>> = Vec::new();
        match self {
            LocalChange::Nothing => {},
            LocalChange::InvalidateAll => effects.push(Effect::InvalidateMemory),
            LocalChange::Remove => effects.push(Effect::RemoveMemory),
            LocalChange::Expire { at } => {
                if let Some(entry) = held {
                    effects.push(Effect::InsertMemory(entry.with_logical_expiration(at)));
                }
            },
            LocalChange::Refresh => {
                if held.is_some() {
                    match brought {
                        Some(entry) => effects.push(Effect::InsertMemory(entry)),
                        None => effects.push(Effect::RemoveMemory),
                    }
                }
            },
        }
        effects
    }
}

/// Whether a key is reserved for markers.
pub open spec fn is_marker_key(key: Seq<char>) -> bool {
    ||| "__amalgam:t:"@.is_prefix_of(key)
    ||| key == clear_marker_key(true)
    ||| key == clear_marker_key(false)
}

/// What a message from another node comes to.
#[derive(Debug)]
pub struct Incoming {
    /// What to report.
    pub events: Vec<CacheEvent>,
    /// The full key that the message is about.
    pub key: String,
    /// What to do to the memory store.
    pub change: LocalChange,
}

impl Cache {
    /// `true` for a message that this instance sent itself, and so need not act on.
    pub fn is_own_message(&self, message: &BackplaneMessage) -> (own: bool)
        ensures
            own == (message.source_id@ == self.settings.instance_id@),
    {
        message.source_id == self.settings.instance_id
    }

    /// What the markers are after a message from another node.
    pub open spec fn marks_after(marks: Marks, message: BackplaneMessage) -> Marks {
        let prefix = "__amalgam:t:"@;
        if !(message.action is Put) {
            marks
        } else if prefix.is_prefix_of(message.key@) {
            let tag = message.key@.skip(prefix.len() as int);
            if blank(tag) {
                marks
            } else {
                marks.with_tag(tag, message.timestamp)
            }
        } else if message.key@ == clear_marker_key(true) {
            marks.with_clear_expire(message.timestamp)
        } else if message.key@ == clear_marker_key(false) {
            marks.with_clear_remove(message.timestamp)
        } else {
            marks
        }
    }

    /// What a message from another node asks of the memory store.
    pub open spec fn change_for(message: BackplaneMessage) -> LocalChange {
        match message.action {
            BackplaneAction::Remove => LocalChange::Remove,
            BackplaneAction::Expire => LocalChange::Expire { at: message.timestamp },
            BackplaneAction::Put => if "__amalgam:t:"@.is_prefix_of(message.key@) {
                LocalChange::Nothing
            } else if message.key@ == clear_marker_key(true) {
                LocalChange::Nothing
            } else if message.key@ == clear_marker_key(false) {
                LocalChange::InvalidateAll
            } else {
                LocalChange::Refresh
            },
        }
    }

    /// Takes in a message from another node. It shows that the backplane works, so the
    /// breaker closes. Markers travel as writes of reserved keys.
    pub fn apply_backplane(&mut self, message: BackplaneMessage) -> (incoming: Incoming)
        ensures
            incoming.key == message.key,
            if old(self).settings.ignore_incoming_backplane {
                &&& *final(self) == *old(self)
                &&& incoming.events@.len() == 0
                &&& incoming.change is Nothing
            } else {
                &&& *final(self) == (Cache {
                    circuit_backplane: old(self).circuit_backplane.forced_closed(),
                    tags: final(self).tags,
                    ..*old(self)
                })
                &&& final(self).tags@ == Cache::marks_after(old(self).tags@, message)
                &&& incoming.events@ == seq![
                    CacheEvent::MessageReceived { key: message.key },
                ] + closing_events(old(self).circuit_backplane, CircuitComponent::Backplane)
                &&& incoming.change == Cache::change_for(message)
            },
    {
        let mut events: Vec<CacheEvent> = Vec::new();
        if self.settings.ignore_incoming_backplane {
            return Incoming { events, key: message.key, change: LocalChange::Nothing };
        }
        events.push(CacheEvent::MessageReceived { key: message.key.clone() });
        self.close_circuit_backplane(&mut events);
        assert(events@ =~= seq![CacheEvent::MessageReceived { key: message.key }] + closing_events(
            old(self).circuit_backplane,
            CircuitComponent::Backplane,
        ));
        let change = match message.action {
            BackplaneAction::Remove => LocalChange::Remove,
            BackplaneAction::Expire => LocalChange::Expire { at: message.timestamp },
            BackplaneAction::Put => if let Some(text) = without_prefix(
                message.key.as_str(),
                "__amalgam:t:",
            ) {
                if let Some(tag) = Tag::new(text.as_str()) {
                    self.tags.mark_tag(tag, message.timestamp);
                }
                LocalChange::Nothing
            } else if message.key == String::from_str("__amalgam:clear:expire") {
                self.tags.mark_clear_expire(message.timestamp);
                LocalChange::Nothing
            } else if message.key == String::from_str("__amalgam:clear:remove") {
                self.tags.mark_clear_remove(message.timestamp);
                LocalChange::InvalidateAll
            } else {
                LocalChange::Refresh
            },
        };
        Incoming { events, key: message.key, change }
    }

    /// What is left of what the distributed cache holds, for a local copy: only an entry that
    /// may be served.
    pub open spec fn kept<V>(self, found: Option<Entry<V>>, now: Timestamp) -> Option<Entry<V>> {
        match found {
            Some(entry) => if self.servable(entry, now) {
                Some(entry)
            } else {
                None
            },
            None => None,
        }
    }

    /// The entry that replaces the local copy of a key that another node has written, given
    /// what the distributed cache holds of it. Without one the local copy is dropped.
    pub fn refreshed<V>(&self, found: Option<Entry<V>>, now: Timestamp) -> (entry: Option<Entry<V>>)
        ensures
            entry == self.kept(found, now),
    {
        match self.read_l1(found, now) {
            L1Read::Fresh(entry) => Some(entry),
            _ => None,
        }
    }
}

/// A tag invalidated on one node is invalidated at the same instant on every node that
/// takes in the message, and a clear is carried out there as it was here.
pub proof fn law_markers_travel(marks: Marks, message: BackplaneMessage, tag: Seq<char>)
    requires
        message.action is Put,
        !blank(tag),
    ensures
        message.key@ == tag_marker_key(tag) ==> Cache::marks_after(marks, message)
            == marks.with_tag(tag, message.timestamp) && Cache::change_for(message) is Nothing,
        message.key@ == clear_marker_key(true) ==> Cache::marks_after(marks, message)
            == marks.with_clear_expire(message.timestamp) && Cache::change_for(message) is Nothing,
        message.key@ == clear_marker_key(false) ==> Cache::marks_after(marks, message)
            == marks.with_clear_remove(message.timestamp) && Cache::change_for(
            message,
        ) is InvalidateAll,
{
    reveal_strlit("__amalgam:t:");
    reveal_strlit("__amalgam:clear:expire");
    reveal_strlit("__amalgam:clear:remove");
    let prefix = "__amalgam:t:"@;
    assert(prefix[10] == 't');
    assert(clear_marker_key(true)[10] == 'c' && clear_marker_key(false)[10] == 'c');
    assert(clear_marker_key(true)[16] == 'e' && clear_marker_key(false)[16] == 'r');
    assert(tag_marker_key(tag)[10] == 't');
    if message.key@ == tag_marker_key(tag) {
        assert(message.key@.subrange(0, prefix.len() as int) =~= prefix);
        assert(message.key@.skip(prefix.len() as int) =~= tag);
    } else if prefix.is_prefix_of(message.key@) {
        assert(message.key@[10] == message.key@.subrange(0, prefix.len() as int)[10]);
    }
}

/// Nodes follow each other: once another node has removed a key, no copy is left here; once
/// it has expired it, the copy here is a fallback at most from that instant on, with the value
/// and the end it had; once it has written it, the copy here is gone or is what the
/// distributed cache holds and may be served.
pub proof fn law_peers_follow<V>(
    cache: Cache,
    message: BackplaneMessage,
    held: Option<Entry<V>>,
    found: Option<Entry<V>>,
    read_at: Timestamp,
    now: Timestamp,
)
    requires
        !is_marker_key(message.key@),
        message.timestamp.0 <= now.0,
    ensures
        ({
            let brought = cache.kept(found, read_at);
            let effects = change_effects(Cache::change_for(message), held, brought);
            let slot = slot_after(effects, held);
            &&& message.action is Remove ==> slot is None
            &&& message.action is Expire ==> {
                &&& !(cache.classified(slot, now) is Fresh)
                &&& slot is Some <==> held is Some
                &&& held matches Some(entry) ==> slot->0.value == entry.value
                    && slot->0.alive_at(now) == entry.alive_at(now)
            }
            &&& message.action is Put ==> {
                ||| slot is None
                ||| slot == found && cache.servable(slot->0, read_at)
            }
        }),
{
    let brought = cache.kept(found, read_at);
    let effects = change_effects(Cache::change_for(message), held, brought);
    reveal_with_fuel(slot_after, 2);
    assert(effects.len() > 0 ==> effects.drop_last() =~= Seq::<Effect<V>>::empty());
}

/// An invalidation on one node counts on every node that takes in its marker: nothing that
/// carries the tag, or nothing at all, and was made by then is served as fresh there.
pub proof fn law_invalidated_anywhere_is_served_nowhere<V>(
    before: Cache,
    after: Cache,
    message: BackplaneMessage,
    tag: Seq<char>,
    entry: Entry<V>,
    now: Timestamp,
)
    requires
        message.action is Put,
        !blank(tag),
        after.tags@ == Cache::marks_after(before.tags@, message),
        entry.meta.created.0 <= message.timestamp.0,
    ensures
        message.key@ == tag_marker_key(tag) && entry.texts().contains(tag) ==> !(after.classified(
            Some(entry),
            now,
        ) is Fresh),
        message.key@ == clear_marker_key(true) ==> !(after.classified(Some(entry), now) is Fresh),
        message.key@ == clear_marker_key(false) ==> after.classified(Some(entry), now) is Evicted,
{
    law_markers_travel(before.tags@, message, tag);
    let behavior = after.settings.remove_by_tag_behavior;
    let at = message.timestamp;
    law_clear_covers_everything(before.tags@, at, entry.meta.created, entry.texts(), behavior);
    if entry.texts().contains(tag) {
        law_marked_tag_invalidates(
            before.tags@,
            tag,
            at,
            entry.meta.created,
            entry.texts(),
            behavior,
        );
    }
}

/// A message from another node, and what it does here. A cache that ignores messages is left
/// alone. Otherwise the breaker of the backplane closes, the message is reported, and: a removal
/// drops the copy held here; an expiry expires it at the instant at which it was expired there; a
/// write has it refreshed; a tag marker marks the tag, and a clear marker the clear, at the
/// instant at which it happened there, and nothing else is marked.
pub proof fn law_message_is_followed(
    cache: &mut Cache,
    message: BackplaneMessage,
    incoming: Incoming,
)
    requires
        call_ensures(Cache::apply_backplane, (cache, message), incoming),
    ensures
        ({
            let before = *old(cache);
            let after = *final(cache);
            let key = message.key@;
            let at = message.timestamp;
            let heard = !before.settings.ignore_incoming_backplane;
            &&& incoming.key == message.key
            &&& !heard ==> after == before && incoming.change is Nothing && incoming.events@.len()
                == 0
            &&& after.settings == before.settings && after.circuit_l2 == before.circuit_l2
                && after.recovery == before.recovery
            &&& heard ==> {
                &&& after.circuit_backplane.closes_at is None
                &&& incoming.events@.len() > 0 && incoming.events@[0] == (
                CacheEvent::MessageReceived { key: message.key })
                &&& message.action is Remove ==> incoming.change is Remove && after.tags@
                    == before.tags@
                &&& message.action is Expire ==> incoming.change == (LocalChange::Expire { at })
                    && after.tags@ == before.tags@
                &&& message.action is Put ==> {
                    &&& "__amalgam:t:"@.is_prefix_of(key) && blank(key.skip(12)) ==> {
                        &&& after.tags@ == before.tags@
                        &&& incoming.change is Nothing
                    }
                    &&& forall|tag: Seq<char>|
                        !blank(tag) && key == #[trigger] ("__amalgam:t:"@ + tag) ==> {
                            &&& after.tags@ == before.tags@.with_tag(tag, at)
                            &&& incoming.change is Nothing
                        }
                    &&& key == "__amalgam:clear:expire"@ ==> {
                        &&& after.tags@ == before.tags@.with_clear_expire(at)
                        &&& incoming.change is Nothing
                    }
                    &&& key == "__amalgam:clear:remove"@ ==> {
                        &&& after.tags@ == before.tags@.with_clear_remove(at)
                        &&& incoming.change is InvalidateAll
                    }
                    &&& !is_marker_key(key) ==> incoming.change is Refresh && after.tags@
                        == before.tags@
                }
            }
        }),
{
    if !old(cache).settings.ignore_incoming_backplane && message.action is Put {
        let after = *final(cache);
        assert forall|tag: Seq<char>|
            !blank(tag) && message.key@ == #[trigger] ("__amalgam:t:"@ + tag) implies after.tags@
            == old(cache).tags@.with_tag(tag, message.timestamp) && incoming.change is Nothing by {
            law_markers_travel(old(cache).tags@, message, tag);
        }
        reveal_strlit("__amalgam:t:");
        reveal_strlit("a");
        assert(!blank("a"@)) by {
            assert(!crate::text::white_space("a"@[0]));
        }
        law_markers_travel(old(cache).tags@, message, "a"@);
    }
}

/// What a change does to the copy held here: dropping everything or the key leaves none; expiring
/// leaves the copy as a fallback from the given instant on, with its value, its end and what a
/// conditional refresh needs; refreshing leaves what was brought, or none; and where there is no
/// copy, none appears.
pub proof fn law_change_acts_on_the_copy<V>(
    change: LocalChange,
    held: Option<&Entry<V>>,
    brought: Option<Entry<V>>,
    effects: Vec<Effect<V>>,
    before: Option<Entry<V>>,
)
    requires
        call_ensures(LocalChange::effects::<V>, (change, held, brought), effects),
        held is None ==> before is None,
        held matches Some(entry) ==> before == Some(*entry),
    ensures
        ({
            let slot = slot_after(effects@, before);
            &&& before is None ==> slot is None
            &&& change is InvalidateAll || change is Remove ==> slot is None
            &&& change is Nothing ==> slot == before
            &&& change is Refresh && before is Some ==> slot == brought
            &&& change is InvalidateAll ==> effects@.contains(Effect::<V>::InvalidateMemory)
            &&& change matches LocalChange::Expire { at } ==> (before matches Some(entry) ==> {
                &&& slot matches Some(copy)
                &&& copy.value == entry.value
                &&& copy.meta.created == entry.meta.created
                &&& copy.meta.physical_expiration == entry.meta.physical_expiration
                &&& copy.meta.tags == entry.meta.tags
                &&& copy.meta.etag == entry.meta.etag
                &&& copy.meta.last_modified == entry.meta.last_modified
                &&& copy.meta.logical_expiration == at
            })
            &&& forall|i: int|
                0 <= i < effects@.len() ==> (#[trigger] effects@[i] is InsertMemory
                    || effects@[i] is RemoveMemory || effects@[i] is InvalidateMemory)
        }),
{
    reveal_with_fuel(slot_after, 2);
    assert(effects@.len() > 0 ==> effects@.drop_last() =~= Seq::<Effect<V>>::empty());
    if change is InvalidateAll {
        assert(effects@[0] is InvalidateMemory);
    }
}

/// A copy is refreshed with what the distributed cache holds exactly if that is fresh and no
/// marker known here invalidates it.
pub proof fn law_refresh_brings_only_what_may_be_served<V>(
    cache: Cache,
    found: Option<Entry<V>>,
    now: Timestamp,
    brought: Option<Entry<V>>,
)
    requires
        call_ensures(Cache::refreshed::<V>, (&cache, found, now), brought),
    ensures
        brought is Some ==> brought == found,
        found matches Some(entry) ==> (brought is Some <==> cache.verdict_on(entry) is Valid
            && now.0 < entry.meta.logical_expiration.0),
{
}

/// A node takes a message for its own exactly if it carries its id.
pub proof fn law_own_messages_are_known_by_their_id(
    cache: Cache,
    message: BackplaneMessage,
    own: bool,
)
    requires
        call_ensures(Cache::is_own_message, (&cache, &message), own),
    ensures
        own <==> message.source_id@ == cache.settings.instance_id@,
{
}

/// Hearing from another node closes the breaker of the backplane, which is reported if it was open.
pub proof fn law_hearing_closes_the_breaker(
    cache: &mut Cache,
    message: BackplaneMessage,
    incoming: Incoming,
)
    requires
        call_ensures(Cache::apply_backplane, (cache, message), incoming),
        !old(cache).settings.ignore_incoming_backplane,
    ensures
        final(cache).circuit_backplane.closes_at is None,
        final(cache).circuit_backplane.open_ticks == old(cache).circuit_backplane.open_ticks,
        incoming.events@.contains(
            CacheEvent::CircuitBreakerChange {
                component: CircuitComponent::Backplane,
                closed: true,
            },
        ) <==> old(cache).circuit_backplane.closes_at is Some,
{
    if old(cache).circuit_backplane.closes_at is Some {
        assert(incoming.events@[1] is CircuitBreakerChange);
    }
}

} // verus!
