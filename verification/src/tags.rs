//! Tags, and the registry of markers that invalidates by tag.
//!
//! Removing by tag touches no entry. It records when the tag was invalidated; an
//! entry that carries the tag and was created at or before that instant is found
//! invalid when it is next read. Clearing the whole cache works the same way.
use crate::maps::{get_marker, markers_in, new_markers, put_marker};
use crate::options::RemoveByTagBehavior;
use crate::text::{blank, is_blank};
use crate::time::Timestamp;
use dashmap::DashMap;
use vstd::prelude::*;

verus! {

/// A tag, never blank.
#[derive(Debug, PartialEq, Eq, Hash)]
pub struct Tag {
    text: String,
}

impl View for Tag {
    type V = Seq<char>;

    closed spec fn view(&self) -> Seq<char> {
        self.text@
    }
}

impl Clone for Tag {
    fn clone(&self) -> (tag: Self)
        ensures
            tag == *self,
    {
        proof {
            use_type_invariant(self);
        }
        Tag { text: self.text.clone() }
    }
}

impl Tag {
    #[verifier::type_invariant]
    spec fn is_not_blank(self) -> bool {
        !blank(self.text@)
    }

    /// The tag with the given text, or `None` if the text is empty or only white space.
    pub fn new(tag: &str) -> (made: Option<Self>)
        ensures
            match made {
                Some(t) => !blank(tag@) && t@ == tag@,
                None => blank(tag@),
            },
    {
        if is_blank(tag) {
            None
        } else {
            Some(Tag { text: String::from_str(tag) })
        }
    }

    /// The tag's text.
    pub fn as_str(&self) -> (text: &str)
        ensures
            text@ == self@,
            !blank(text@),
    {
        proof {
            use_type_invariant(self);
        }
        self.text.as_str()
    }

    /// The tag's text, owned.
    pub fn to_text(&self) -> (text: String)
        ensures
            text@ == self@,
    {
        self.text.clone()
    }
}

/// The texts of a list of tags.
pub open spec fn tag_texts(tags: Seq<Tag>) -> Seq<Seq<char>> {
    Seq::new(tags.len(), |i: int| tags[i]@)
}

/// The texts that make tags: those that are not blank, in order.
pub open spec fn tagged(texts: Seq<Seq<char>>) -> Seq<Seq<char>> {
    texts.filter(|text: Seq<char>| !blank(text))
}

/// Makes tags of the given texts, dropping the blank ones.
pub fn collect_tags(texts: &Vec<String>) -> (tags: Vec<Tag>)
    ensures
        tag_texts(tags@) == tagged(Seq::new(texts@.len(), |i: int| texts@[i]@)),
{
    let mut tags: Vec<Tag> = Vec::new();
    let ghost all = Seq::new(texts@.len(), |i: int| texts@[i]@);
    let ghost keep = |text: Seq<char>| !blank(text);
    let mut i: usize = 0;
    while i < texts.len()
        invariant
            i <= texts.len(),
            all == Seq::new(texts@.len(), |j: int| texts@[j]@),
            keep == (|text: Seq<char>| !blank(text)),
            tag_texts(tags@) == all.take(i as int).filter(keep),
        decreases texts.len() - i,
    {
        let ghost before = tags@;
        proof {
            reveal(Seq::filter);
            assert(all.take(i + 1).drop_last() =~= all.take(i as int));
            assert(all.take(i + 1).last() == texts@[i as int]@);
        }
        match Tag::new(texts[i].as_str()) {
            Some(tag) => {
                tags.push(tag);
                assert(tag_texts(tags@) =~= tag_texts(before).push(tag@));
            },
            None => {},
        }
        i += 1;
    }
    assert(all.take(texts@.len() as int) =~= all);
    tags
}

/// What the markers say of one entry.
#[derive(Debug, Clone, Copy, PartialEq, Eq, Structural)]
pub enum TagVerdict {
    /// No marker invalidates the entry.
    Valid,
    /// The entry is logically expired; fail-safe may still serve it.
    Expire,
    /// The entry is to be removed for good.
    Remove,
}

/// The later of the last clear, if there was one, and another.
pub open spec fn latest_clear(known: Option<i64>, at: Timestamp) -> Option<i64> {
    match known {
        Some(tick) => if tick > at.0 {
            known
        } else {
            Some(at.0)
        },
        None => Some(at.0),
    }
}

/// Whether a clear covers what was created at `created`.
pub open spec fn cleared(clear: Option<i64>, created: Timestamp) -> bool {
    clear matches Some(at) && created.0 <= at
}

/// The markers of a registry.
pub struct Marks {
    /// When each tag was last invalidated.
    pub tags: Map<Seq<char>, i64>,
    /// When everything was last expired, if ever.
    pub clear_expire: Option<i64>,
    /// When everything was last removed, if ever.
    pub clear_remove: Option<i64>,
}

impl Marks {
    /// No markers at all.
    pub open spec fn none() -> Marks {
        Marks { tags: Map::empty(), clear_expire: None, clear_remove: None }
    }

    /// `self` after invalidating `tag` at `at`: a marker never moves back.
    pub open spec fn with_tag(self, tag: Seq<char>, at: Timestamp) -> Marks {
        let latest = if self.tags.contains_key(tag) && self.tags[tag] > at.0 {
            self.tags[tag]
        } else {
            at.0
        };
        Marks { tags: self.tags.insert(tag, latest), ..self }
    }

    /// `self` after expiring everything at `at`.
    pub open spec fn with_clear_expire(self, at: Timestamp) -> Marks {
        Marks { clear_expire: latest_clear(self.clear_expire, at), ..self }
    }

    /// `self` after removing everything at `at`.
    pub open spec fn with_clear_remove(self, at: Timestamp) -> Marks {
        Marks { clear_remove: latest_clear(self.clear_remove, at), ..self }
    }

    /// Whether every marker was recorded for an instant before `at`.
    pub open spec fn is_quiet_since(self, at: Timestamp) -> bool {
        &&& self.clear_expire matches Some(tick) ==> tick < at.0
        &&& self.clear_remove matches Some(tick) ==> tick < at.0
        &&& forall|tag: Seq<char>| #[trigger]
            self.tags.contains_key(tag) ==> self.tags[tag] < at.0
    }

    /// Whether a marker of one of `tags` is at or after `created`.
    pub open spec fn hits(self, created: Timestamp, tags: Seq<Seq<char>>) -> bool {
        exists|i: int|
            0 <= i < tags.len() && self.tags.contains_key(#[trigger] tags[i]) && created.0
                <= self.tags[tags[i]]
    }

    /// What the markers say of an entry created at `created` that carries `tags`: a
    /// removing clear comes first, then its tags, then an expiring clear.
    pub open spec fn verdict(
        self,
        created: Timestamp,
        tags: Seq<Seq<char>>,
        behavior: RemoveByTagBehavior,
    ) -> TagVerdict {
        if cleared(self.clear_remove, created) {
            TagVerdict::Remove
        } else if self.hits(created, tags) {
            match behavior {
                RemoveByTagBehavior::Expire => TagVerdict::Expire,
                RemoveByTagBehavior::Remove => TagVerdict::Remove,
            }
        } else if cleared(self.clear_expire, created) {
            TagVerdict::Expire
        } else {
            TagVerdict::Valid
        }
    }
}

/// The later of the last clear, if there was one, and another.
fn later_clear(known: Option<i64>, at: Timestamp) -> (latest: Option<i64>)
    ensures
        latest == latest_clear(known, at),
{
    match known {
        Some(tick) => if tick > at.0 {
            known
        } else {
            Some(at.0)
        },
        None => Some(at.0),
    }
}

/// `true` if a clear covers what was created at `created`.
fn is_cleared(clear: Option<i64>, created: Timestamp) -> (yes: bool)
    ensures
        yes == cleared(clear, created),
{
    match clear {
        Some(at) => created.0 <= at,
        None => false,
    }
}

/// A registry of tag and clear markers.
#[derive(Debug)]
pub struct TagRegistry {
    markers: DashMap<String, i64>,
    clear_expire: Option<i64>,
    clear_remove: Option<i64>,
}

impl View for TagRegistry {
    type V = Marks;

    closed spec fn view(&self) -> Marks {
        Marks {
            tags: markers_in(self.markers),
            clear_expire: self.clear_expire,
            clear_remove: self.clear_remove,
        }
    }
}

impl Default for TagRegistry {
    fn default() -> (registry: TagRegistry)
        ensures
            registry@ == Marks::none(),
    {
        TagRegistry { markers: new_markers(), clear_expire: None, clear_remove: None }
    }
}

impl TagRegistry {
    /// A registry without markers.
    pub fn new() -> (registry: Self)
        ensures
            registry@ == Marks::none(),
    {
        TagRegistry::default()
    }

    /// Records that `tag` was invalidated at `at`, keeping a later marker.
    pub fn mark_tag(&mut self, tag: Tag, at: Timestamp)
        ensures
            final(self)@ == old(self)@.with_tag(tag@, at),
    {
        let latest: i64 = match get_marker(&self.markers, tag.as_str()) {
            Some(existing) => if existing > at.0 {
                existing
            } else {
                at.0
            },
            None => at.0,
        };
        put_marker(&mut self.markers, tag.to_text(), latest);
    }

    /// When `tag` was last invalidated, if it was.
    pub fn tag_marker(&self, tag: &Tag) -> (at: Option<Timestamp>)
        ensures
            match at {
                Some(t) => self@.tags.contains_key(tag@) && t.0 == self@.tags[tag@],
                None => !self@.tags.contains_key(tag@),
            },
    {
        match get_marker(&self.markers, tag.as_str()) {
            Some(ticks) => Some(Timestamp(ticks)),
            None => None,
        }
    }

    /// Records a clear that expires every entry created at or before `at`.
    pub fn mark_clear_expire(&mut self, at: Timestamp)
        ensures
            final(self)@ == old(self)@.with_clear_expire(at),
    {
        self.clear_expire = later_clear(self.clear_expire, at);
    }

    /// Records a clear that removes every entry created at or before `at`.
    pub fn mark_clear_remove(&mut self, at: Timestamp)
        ensures
            final(self)@ == old(self)@.with_clear_remove(at),
    {
        self.clear_remove = later_clear(self.clear_remove, at);
    }

    /// Holds an entry, given by its creation and its tags, against all markers.
    pub fn evaluate(
        &self,
        entry_created: Timestamp,
        tags: &Vec<Tag>,
        behavior: RemoveByTagBehavior,
    ) -> (verdict: TagVerdict)
        ensures
            verdict == self@.verdict(entry_created, tag_texts(tags@), behavior),
    {
        if is_cleared(self.clear_remove, entry_created) {
            return TagVerdict::Remove;
        }
        let ghost texts = tag_texts(tags@);
        let mut i: usize = 0;
        while i < tags.len()
            invariant
                i <= tags.len(),
                texts == tag_texts(tags@),
                !cleared(self@.clear_remove, entry_created),
                forall|j: int|
                    0 <= j < i ==> !(self@.tags.contains_key(#[trigger] texts[j])
                        && entry_created.0 <= self@.tags[texts[j]]),
            decreases tags.len() - i,
        {
            assert(texts[i as int] == tags@[i as int]@);
            match get_marker(&self.markers, tags[i].as_str()) {
                Some(marker) => {
                    if entry_created.0 <= marker {
                        assert(self@.hits(entry_created, texts));
                        return match behavior {
                            RemoveByTagBehavior::Expire => TagVerdict::Expire,
                            RemoveByTagBehavior::Remove => TagVerdict::Remove,
                        };
                    }
                },
                None => {},
            }
            i += 1;
        }
        assert(!self@.hits(entry_created, texts));
        if is_cleared(self.clear_expire, entry_created) {
            TagVerdict::Expire
        } else {
            TagVerdict::Valid
        }
    }
}

/// After a tag is invalidated at `at`, no entry that carries it and was created at or
/// before `at` is valid.
pub proof fn law_marked_tag_invalidates(
    marks: Marks,
    tag: Seq<char>,
    at: Timestamp,
    created: Timestamp,
    tags: Seq<Seq<char>>,
    behavior: RemoveByTagBehavior,
)
    requires
        tags.contains(tag),
        created.0 <= at.0,
    ensures
        !(marks.with_tag(tag, at).verdict(created, tags, behavior) is Valid),
{
    let i = choose|i: int| 0 <= i < tags.len() && tags[i] == tag;
    assert(marks.with_tag(tag, at).tags.contains_key(tags[i]));
}

/// Invalidating a tag leaves alone every entry that was created later or that does not
/// carry the tag.
pub proof fn law_marked_tag_spares_the_rest(
    marks: Marks,
    tag: Seq<char>,
    at: Timestamp,
    created: Timestamp,
    tags: Seq<Seq<char>>,
    behavior: RemoveByTagBehavior,
)
    requires
        created.0 > at.0 || !tags.contains(tag),
    ensures
        marks.with_tag(tag, at).verdict(created, tags, behavior) == marks.verdict(
            created,
            tags,
            behavior,
        ),
{
    let after = marks.with_tag(tag, at);
    assert forall|i: int| 0 <= i < tags.len() implies (after.tags.contains_key(#[trigger] tags[i])
        && created.0 <= after.tags[tags[i]]) == (marks.tags.contains_key(tags[i]) && created.0
        <= marks.tags[tags[i]]) by {
        if tags[i] == tag {
            assert(tags.contains(tag));
        }
    }
    if marks.hits(created, tags) {
        let i = choose|i: int|
            0 <= i < tags.len() && marks.tags.contains_key(#[trigger] tags[i]) && created.0
                <= marks.tags[tags[i]];
        assert(after.tags.contains_key(tags[i]));
    }
    if after.hits(created, tags) {
        let i = choose|i: int|
            0 <= i < tags.len() && after.tags.contains_key(#[trigger] tags[i]) && created.0
                <= after.tags[tags[i]];
        assert(marks.tags.contains_key(tags[i]));
    }
}

/// Without a marker every entry is valid, whenever it was created and whatever it carries.
pub proof fn law_unmarked_is_valid(
    created: Timestamp,
    tags: Seq<Seq<char>>,
    behavior: RemoveByTagBehavior,
)
    ensures
        Marks::none().verdict(created, tags, behavior) is Valid,
{
}

/// An entry falls to a clear or to a marker of one of its own tags, and to nothing else: two
/// sets of markers that agree on these say the same of it.
pub proof fn law_only_own_markers_count(
    a: Marks,
    b: Marks,
    created: Timestamp,
    tags: Seq<Seq<char>>,
    behavior: RemoveByTagBehavior,
)
    requires
        a.clear_expire == b.clear_expire,
        a.clear_remove == b.clear_remove,
        forall|i: int|
            0 <= i < tags.len() ==> {
                &&& a.tags.contains_key(#[trigger] tags[i]) == b.tags.contains_key(tags[i])
                &&& a.tags.contains_key(tags[i]) ==> a.tags[tags[i]] == b.tags[tags[i]]
            },
    ensures
        a.verdict(created, tags, behavior) == b.verdict(created, tags, behavior),
{
    if a.hits(created, tags) {
        let i = choose|i: int|
            0 <= i < tags.len() && a.tags.contains_key(#[trigger] tags[i]) && created.0
                <= a.tags[tags[i]];
        assert(b.tags.contains_key(tags[i]));
    }
    if b.hits(created, tags) {
        let i = choose|i: int|
            0 <= i < tags.len() && b.tags.contains_key(#[trigger] tags[i]) && created.0
                <= b.tags[tags[i]];
        assert(a.tags.contains_key(tags[i]));
    }
}

/// An entry created after every marker is valid, whatever it carries.
pub proof fn law_quiet_marks_spare_everything(
    marks: Marks,
    created: Timestamp,
    tags: Seq<Seq<char>>,
    behavior: RemoveByTagBehavior,
)
    requires
        marks.is_quiet_since(created),
    ensures
        marks.verdict(created, tags, behavior) is Valid,
{
}

/// How hard a verdict is on an entry.
pub open spec fn severity(verdict: TagVerdict) -> int {
    match verdict {
        TagVerdict::Valid => 0,
        TagVerdict::Expire => 1,
        TagVerdict::Remove => 2,
    }
}

/// Recording a marker, of whatever sort, never makes an entry more valid than it was.
pub proof fn law_markers_only_invalidate(
    marks: Marks,
    tag: Seq<char>,
    at: Timestamp,
    created: Timestamp,
    tags: Seq<Seq<char>>,
    behavior: RemoveByTagBehavior,
)
    ensures
        severity(marks.with_tag(tag, at).verdict(created, tags, behavior)) >= severity(
            marks.verdict(created, tags, behavior),
        ),
        severity(marks.with_clear_expire(at).verdict(created, tags, behavior)) >= severity(
            marks.verdict(created, tags, behavior),
        ),
        severity(marks.with_clear_remove(at).verdict(created, tags, behavior)) >= severity(
            marks.verdict(created, tags, behavior),
        ),
{
    let after = marks.with_tag(tag, at);
    if marks.hits(created, tags) {
        let i = choose|i: int|
            0 <= i < tags.len() && marks.tags.contains_key(#[trigger] tags[i]) && created.0
                <= marks.tags[tags[i]];
        assert(after.tags.contains_key(tags[i]) && created.0 <= after.tags[tags[i]]);
        assert(after.hits(created, tags));
        assert(marks.with_clear_expire(at).tags.contains_key(tags[i]));
        assert(marks.with_clear_expire(at).hits(created, tags));
    }
}

/// A removing clear removes everything created by then, whatever else was marked; an
/// expiring clear leaves none of it valid.
pub proof fn law_clear_covers_everything(
    marks: Marks,
    at: Timestamp,
    created: Timestamp,
    tags: Seq<Seq<char>>,
    behavior: RemoveByTagBehavior,
)
    requires
        created.0 <= at.0,
    ensures
        marks.with_clear_remove(at).verdict(created, tags, behavior) is Remove,
        marks.with_clear_remove(at).with_clear_expire(at).verdict(
            created,
            tags,
            behavior,
        ) is Remove,
        marks.with_clear_expire(at).with_clear_remove(at).verdict(
            created,
            tags,
            behavior,
        ) is Remove,
        !(marks.with_clear_expire(at).verdict(created, tags, behavior) is Valid),
{
}

/// What the markers say of an entry, and when: a clear that removes covers everything created
/// by then; a marker of one of its tags covers it if it was created by then, and removes it or
/// expires it as the behaviour says; a clear that expires covers everything created by then. An
/// entry that none of them covers is valid, and nothing is removed without a reason to.
pub proof fn law_verdict_goes_by_clears_and_own_tags(
    registry: TagRegistry,
    created: Timestamp,
    tags: Vec<Tag>,
    behavior: RemoveByTagBehavior,
    verdict: TagVerdict,
)
    requires
        call_ensures(TagRegistry::evaluate, (&registry, created, &tags, behavior), verdict),
    ensures
        ({
            let marks = registry@;
            let removed = marks.clear_remove matches Some(at) && created.0 <= at;
            let expired = marks.clear_expire matches Some(at) && created.0 <= at;
            let hit = exists|i: int|
                0 <= i < tags@.len() && marks.tags.contains_key((#[trigger] tags@[i])@)
                    && created.0 <= marks.tags[tags@[i]@];
            &&& verdict is Remove <==> removed || (hit && behavior is Remove)
            &&& verdict is Valid <==> !removed && !expired && !hit
        }),
{
    let texts = tag_texts(tags@);
    let marks = registry@;
    if marks.hits(created, texts) {
        let i = choose|i: int|
            0 <= i < texts.len() && marks.tags.contains_key(#[trigger] texts[i]) && created.0
                <= marks.tags[texts[i]];
        assert(marks.tags.contains_key(tags@[i]@));
    }
    if exists|i: int|
        0 <= i < tags@.len() && marks.tags.contains_key((#[trigger] tags@[i])@) && created.0
            <= marks.tags[tags@[i]@] {
        let i = choose|i: int|
            0 <= i < tags@.len() && marks.tags.contains_key((#[trigger] tags@[i])@) && created.0
                <= marks.tags[tags@[i]@];
        assert(marks.tags.contains_key(texts[i]));
    }
}

/// Marking a tag sets its marker to the given instant, or leaves a later one; every other marker
/// stays as it is.
pub proof fn law_marker_never_moves_back(registry: &mut TagRegistry, tag: Tag, at: Timestamp)
    requires
        call_ensures(TagRegistry::mark_tag, (registry, tag, at), ()),
    ensures
        ({
            let before = old(registry)@;
            let after = final(registry)@;
            let known = before.tags.contains_key(tag@);
            &&& after.tags.contains_key(tag@)
            &&& after.tags[tag@] >= at.0
            &&& known ==> after.tags[tag@] >= before.tags[tag@]
            &&& after.tags[tag@] == at.0 || (known && after.tags[tag@] == before.tags[tag@])
            &&& forall|other: Seq<char>|
                other != tag@ ==> {
                    &&& #[trigger] after.tags.contains_key(other) == before.tags.contains_key(other)
                    &&& before.tags.contains_key(other) ==> after.tags[other] == before.tags[other]
                }
            &&& after.clear_expire == before.clear_expire
            &&& after.clear_remove == before.clear_remove
        }),
{
}

/// A clear sets its own marker to the given instant, or leaves a later one, and touches no other.
pub proof fn law_clear_never_moves_back(
    expiring: &mut TagRegistry,
    removing: &mut TagRegistry,
    at: Timestamp,
)
    requires
        call_ensures(TagRegistry::mark_clear_expire, (expiring, at), ()),
        call_ensures(TagRegistry::mark_clear_remove, (removing, at), ()),
    ensures
        ({
            let before = old(expiring)@;
            let after = final(expiring)@;
            &&& after.clear_expire matches Some(t)
            &&& t >= at.0
            &&& t == at.0 || before.clear_expire == Some(t)
            &&& before.clear_expire matches Some(known) ==> t >= known
            &&& after.clear_remove == before.clear_remove
            &&& after.tags == before.tags
        }),
        ({
            let before = old(removing)@;
            let after = final(removing)@;
            &&& after.clear_remove matches Some(t)
            &&& t >= at.0
            &&& t == at.0 || before.clear_remove == Some(t)
            &&& before.clear_remove matches Some(known) ==> t >= known
            &&& after.clear_expire == before.clear_expire
            &&& after.tags == before.tags
        }),
{
}

/// A text makes a tag exactly if some character of it is not white space, and the tag has that
/// text.
pub proof fn law_only_blank_texts_make_no_tag(text: &str, made: Option<Tag>)
    requires
        call_ensures(Tag::new, (text,), made),
    ensures
        made is Some <==> exists|i: int|
            0 <= i < text@.len() && !crate::text::white_space(#[trigger] text@[i]),
        made matches Some(tag) ==> tag@ == text@,
{
}

/// A registry tells when a tag was last invalidated, exactly if it was.
pub proof fn law_registry_tells_the_marker(
    registry: TagRegistry,
    tag: Tag,
    at: Option<Timestamp>,
    fresh: TagRegistry,
)
    requires
        call_ensures(TagRegistry::tag_marker, (&registry, &tag), at),
        call_ensures(TagRegistry::new, (), fresh),
    ensures
        at is Some <==> registry@.tags.contains_key(tag@),
        at matches Some(t) ==> t.0 == registry@.tags[tag@],
        fresh@.tags.dom() =~= Set::<Seq<char>>::empty(),
        fresh@.clear_expire is None && fresh@.clear_remove is None,
{
}

/// A list of texts makes tags of those that are not blank, in order.
pub proof fn law_tags_are_the_texts_that_say_something(texts: Vec<String>, tags: Vec<Tag>)
    requires
        call_ensures(collect_tags, (&texts,), tags),
    ensures
        tag_texts(tags@) == Seq::new(texts@.len(), |i: int| texts@[i]@).filter(
            |text: Seq<char>| !blank(text),
        ),
{
}

} // verus!
