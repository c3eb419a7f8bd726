//! What a factory is given, and what it hands back.
//!
//! A factory sees the stale value it is to replace, may adapt the options of the value
//! it is about to produce, and ends in one of three ways: a new value, the stale value
//! found unchanged, or a failure.
use crate::entry::{clone_text, Entry};
use crate::error::{failure_message, FactoryError};
use crate::options::EntryOptions;
use crate::tags::{collect_tags, tag_texts, tagged, Tag};
use crate::time::Timestamp;
use vstd::prelude::*;

verus! {

/// What a factory produced, ready to be cached.
#[derive(Debug)]
pub struct FactoryProduct<V> {
    /// The produced value.
    pub value: V,
    /// The options to cache it with.
    pub options: EntryOptions,
    /// Its entity tag.
    pub etag: Option<String>,
    /// Its last-modified instant.
    pub last_modified: Option<Timestamp>,
    /// Its tags.
    pub tags: Vec<Tag>,
    /// Whether it is the stale value, found unchanged.
    pub reused_stale: bool,
}

impl<V> FactoryProduct<V> {
    /// Borrows the produced value.
    pub fn value(&self) -> (value: &V)
        ensures
            *value == self.value,
    {
        &self.value
    }
}

/// What a factory works with.
#[derive(Debug)]
pub struct FactoryContext<V> {
    /// The full cache key.
    pub key: String,
    /// The options for the value being produced.
    pub options: EntryOptions,
    /// The tags that the caller asked for.
    pub call_tags: Vec<Tag>,
    /// The tags that the factory asked for instead, if it did.
    pub adaptive_tags: Option<Vec<Tag>>,
    /// The stale entry that the value is to replace, if there is one.
    pub stale: Option<Entry<V>>,
}

/// Clones a list of tags.
pub(crate) fn clone_tags(tags: &Vec<Tag>) -> (copy: Vec<Tag>)
    ensures
        copy@ == tags@,
{
    let mut copy: Vec<Tag> = Vec::new();
    let mut i: usize = 0;
    while i < tags.len()
        invariant
            i <= tags.len(),
            copy@ == tags@.take(i as int),
        decreases tags.len() - i,
    {
        copy.push(tags[i].clone());
        i += 1;
        assert(tags@.take(i as int) =~= tags@.take(i - 1).push(tags@[i - 1]));
    }
    assert(tags@.take(i as int) =~= tags@);
    copy
}

impl<V> FactoryContext<V> {
    /// A context for producing the value of `key`.
    pub fn new(
        key: String,
        options: EntryOptions,
        call_tags: Vec<Tag>,
        stale: Option<Entry<V>>,
    ) -> (ctx: Self)
        ensures
            ctx == (FactoryContext { key, options, call_tags, adaptive_tags: None, stale }),
    {
        FactoryContext { key, options, call_tags, adaptive_tags: None, stale }
    }

    /// The full cache key.
    pub fn key(&self) -> (key: &str)
        ensures
            key@ == self.key@,
    {
        self.key.as_str()
    }

    /// The options for the value being produced, to be adapted in place.
    pub fn options_mut(&mut self) -> (options: &mut EntryOptions)
        ensures
            *options == old(self).options,
            *final(self) == (FactoryContext { options: *final(options), ..*old(self) }),
    {
        &mut self.options
    }

    /// The options for the value being produced.
    pub fn options(&self) -> (options: &EntryOptions)
        ensures
            *options == self.options,
    {
        &self.options
    }

    /// Adapts the options for the value being produced.
    pub fn adapt<F>(&mut self, f: F) where F: FnOnce(EntryOptions) -> EntryOptions
        requires
            f.requires((old(self).options,)),
        ensures
            f.ensures((old(self).options,), final(self).options),
            *final(self) == (FactoryContext { options: final(self).options, ..*old(self) }),
    {
        self.options = f(self.options);
    }

    /// `true` if there is a stale value.
    pub fn has_stale_value(&self) -> (yes: bool)
        ensures
            yes == (self.stale is Some),
    {
        self.stale.is_some()
    }

    /// The stale value, if there is one.
    pub fn stale_value(&self) -> (value: Option<&V>)
        ensures
            match self.stale {
                Some(entry) => value == Some(&*entry.value),
                None => value is None,
            },
    {
        match &self.stale {
            Some(entry) => Some(entry.value()),
            None => None,
        }
    }

    /// The entity tag of the stale value.
    pub fn stale_etag(&self) -> (etag: Option<&str>)
        ensures
            match self.stale {
                Some(entry) => match entry.meta.etag {
                    Some(text) => etag matches Some(t) && t@ == text@,
                    None => etag is None,
                },
                None => etag is None,
            },
    {
        match &self.stale {
            Some(entry) => entry.meta.etag(),
            None => None,
        }
    }

    /// The last-modified instant of the stale value.
    pub fn stale_last_modified(&self) -> (at: Option<Timestamp>)
        ensures
            at == (match self.stale {
                Some(entry) => entry.meta.last_modified,
                None => None,
            }),
    {
        match &self.stale {
            Some(entry) => entry.meta.last_modified,
            None => None,
        }
    }

    /// Sets the tags for the value being produced, in place of the caller's; blank texts
    /// are dropped.
    pub fn set_tags(&mut self, texts: Vec<String>)
        ensures
            final(self).adaptive_tags matches Some(tags) && tag_texts(tags@) == tagged(
                Seq::new(texts@.len(), |i: int| texts@[i]@),
            ),
            *final(self) == (FactoryContext {
                adaptive_tags: final(self).adaptive_tags,
                ..*old(self)
            }),
    {
        self.adaptive_tags = Some(collect_tags(&texts));
    }

    /// The tags for the value being produced: the factory's, or else the caller's.
    pub open spec fn chosen_tags(self) -> Vec<Tag> {
        match self.adaptive_tags {
            Some(tags) => tags,
            None => self.call_tags,
        }
    }

    /// Whether a product is the stale value, found unchanged, under the current options.
    pub open spec fn is_reused_by(self, product: FactoryProduct<V>) -> bool where V: Clone {
        &&& self.stale matches Some(entry)
        &&& cloned(*entry.value, product.value)
        &&& product.options == self.options
        &&& product.etag == entry.meta.etag
        &&& product.last_modified == entry.meta.last_modified
        &&& product.tags@ == entry.meta.tags@
        &&& product.reused_stale
    }

    /// Produces a new value.
    pub fn value(self, value: V) -> (product: FactoryProduct<V>)
        ensures
            product == (FactoryProduct {
                value,
                options: self.options,
                etag: None,
                last_modified: None,
                tags: self.chosen_tags(),
                reused_stale: false,
            }),
    {
        let tags = match self.adaptive_tags {
            Some(tags) => tags,
            None => self.call_tags,
        };
        FactoryProduct {
            value,
            options: self.options,
            etag: None,
            last_modified: None,
            tags,
            reused_stale: false,
        }
    }

    /// Begins producing a new value with metadata for later conditional refreshes.
    pub fn modified(self, value: V) -> (builder: ModifiedBuilder<V>)
        ensures
            builder == (ModifiedBuilder {
                ctx: self,
                value,
                etag: None,
                last_modified: None,
                tags: None,
            }),
    {
        ModifiedBuilder { ctx: self, value, etag: None, last_modified: None, tags: None }
    }

    /// A failure to return.
    pub fn fail(&self, message: String) -> (err: FactoryError)
        ensures
            err.message@ == failure_message(message@),
            err.source is None,
    {
        FactoryError::new(message)
    }
}

impl<V: Clone> FactoryContext<V> {
    /// Reports that nothing has changed: the stale value, with its metadata and its tags,
    /// becomes fresh again under the current options. Fails if there is no stale value.
    pub fn not_modified(self) -> (result: Result<FactoryProduct<V>, FactoryError>)
        ensures
            match self.stale {
                Some(_) => result matches Ok(product) && self.is_reused_by(product),
                None => result matches Err(err) && err.message@
                    == "not_modified() was called but no stale value is available to reuse"@
                    && err.source is None,
            },
    {
        match &self.stale {
            Some(entry) => Ok(
                FactoryProduct {
                    value: entry.value_cloned(),
                    options: self.options,
                    etag: clone_text(&entry.meta.etag),
                    last_modified: entry.meta.last_modified,
                    tags: clone_tags(&entry.meta.tags),
                    reused_stale: true,
                },
            ),
            None => {
                proof {
                    reveal_strlit(
                        "not_modified() was called but no stale value is available to reuse",
                    );
                    assert(!crate::text::white_space(
                        "not_modified() was called but no stale value is available to reuse"@[0],
                    ));
                }
                Err(
                    FactoryError::new(
                        String::from_str(
                            "not_modified() was called but no stale value is available to reuse",
                        ),
                    ),
                )
            },
        }
    }
}

/// A new value in the making, with metadata for later conditional refreshes.
#[derive(Debug)]
#[must_use]
pub struct ModifiedBuilder<V> {
    /// The context the value is produced in.
    pub ctx: FactoryContext<V>,
    /// The value.
    pub value: V,
    /// Its entity tag.
    pub etag: Option<String>,
    /// Its last-modified instant.
    pub last_modified: Option<Timestamp>,
    /// Its tags, if they were set here.
    pub tags: Option<Vec<Tag>>,
}

impl<V> ModifiedBuilder<V> {
    /// Attaches an entity tag.
    pub fn etag(self, etag: String) -> (builder: Self)
        ensures
            builder == (ModifiedBuilder { etag: Some(etag), ..self }),
    {
        ModifiedBuilder { etag: Some(etag), ..self }
    }

    /// Attaches a last-modified instant.
    pub fn last_modified(self, last_modified: Timestamp) -> (builder: Self)
        ensures
            builder == (ModifiedBuilder { last_modified: Some(last_modified), ..self }),
    {
        ModifiedBuilder { last_modified: Some(last_modified), ..self }
    }

    /// Sets the tags, in place of the context's; blank texts are dropped.
    pub fn tags(self, texts: Vec<String>) -> (builder: Self)
        ensures
            builder.tags matches Some(tags) && tag_texts(tags@) == tagged(
                Seq::new(texts@.len(), |i: int| texts@[i]@),
            ),
            builder == (ModifiedBuilder { tags: builder.tags, ..self }),
    {
        ModifiedBuilder { tags: Some(collect_tags(&texts)), ..self }
    }

    /// Finishes the product.
    pub fn done(self) -> (product: FactoryProduct<V>)
        ensures
            product == (FactoryProduct {
                value: self.value,
                options: self.ctx.options,
                etag: self.etag,
                last_modified: self.last_modified,
                tags: match self.tags {
                    Some(tags) => tags,
                    None => self.ctx.chosen_tags(),
                },
                reused_stale: false,
            }),
    {
        let tags = match self.tags {
            Some(tags) => tags,
            None => match self.ctx.adaptive_tags {
                Some(tags) => tags,
                None => self.ctx.call_tags,
            },
        };
        FactoryProduct {
            value: self.value,
            options: self.ctx.options,
            etag: self.etag,
            last_modified: self.last_modified,
            tags,
            reused_stale: false,
        }
    }
}

/// What a factory makes of its context. A new value takes the context's options, as adapted, and
/// its tags: those that the factory set, or else the caller's. Metadata and tags that are attached
/// on the way are the product's.
pub proof fn law_new_value_is_cached_as_the_factory_says<V>(
    ctx: FactoryContext<V>,
    value: V,
    plain: FactoryProduct<V>,
    begun: ModifiedBuilder<V>,
    etag: String,
    etagged: ModifiedBuilder<V>,
    at: Timestamp,
    dated: ModifiedBuilder<V>,
    done: FactoryProduct<V>,
)
    requires
        call_ensures(FactoryContext::<V>::value, (ctx, value), plain),
        call_ensures(FactoryContext::<V>::modified, (ctx, value), begun),
        call_ensures(ModifiedBuilder::<V>::etag, (begun, etag), etagged),
        call_ensures(ModifiedBuilder::<V>::last_modified, (etagged, at), dated),
        call_ensures(ModifiedBuilder::<V>::done, (dated,), done),
    ensures
        plain.value == value && done.value == value,
        plain.options == ctx.options && done.options == ctx.options,
        !plain.reused_stale && !done.reused_stale,
        plain.etag is None && plain.last_modified is None,
        done.etag == Some(etag) && done.last_modified == Some(at),
        ctx.adaptive_tags is None ==> plain.tags == ctx.call_tags && done.tags == ctx.call_tags,
        ctx.adaptive_tags matches Some(own) ==> plain.tags == own && done.tags == own,
{
}

/// Tags that the factory sets, in its context or on its product, take the place of the caller's:
/// they are the given texts in order, but for the blank ones.
pub proof fn law_factory_tags_replace_the_callers<V>(
    ctx: &mut FactoryContext<V>,
    texts: Vec<String>,
    value: V,
    product: FactoryProduct<V>,
    builder: ModifiedBuilder<V>,
    retagged: ModifiedBuilder<V>,
    done: FactoryProduct<V>,
)
    requires
        call_ensures(FactoryContext::<V>::set_tags, (ctx, texts), ()),
        call_ensures(FactoryContext::<V>::value, (*final(ctx), value), product),
        call_ensures(ModifiedBuilder::<V>::tags, (builder, texts), retagged),
        call_ensures(ModifiedBuilder::<V>::done, (retagged,), done),
    ensures
        ({
            let kept = Seq::new(texts@.len(), |i: int| texts@[i]@).filter(
                |text: Seq<char>| !crate::text::blank(text),
            );
            &&& tag_texts(product.tags@) == kept
            &&& tag_texts(done.tags@) == kept
        }),
        product.options == old(ctx).options,
        final(ctx).stale == old(ctx).stale,
        done.value == builder.value && done.etag == builder.etag,
        done.last_modified == builder.last_modified && done.options == builder.ctx.options,
{
}

/// Finding nothing changed makes the stale value fresh again: with its entity tag, its
/// last-modified instant and its tags, under the options as adapted. It fails exactly if there is
/// no stale value.
pub proof fn law_unchanged_value_keeps_its_metadata<V: Clone>(
    ctx: FactoryContext<V>,
    result: Result<FactoryProduct<V>, FactoryError>,
)
    requires
        call_ensures(FactoryContext::<V>::not_modified, (ctx,), result),
    ensures
        result is Ok <==> ctx.stale is Some,
        result matches Ok(product) ==> {
            &&& cloned(*ctx.stale->0.value, product.value)
            &&& product.etag == ctx.stale->0.meta.etag
            &&& product.last_modified == ctx.stale->0.meta.last_modified
            &&& product.tags@ == ctx.stale->0.meta.tags@
            &&& product.options == ctx.options
            &&& product.reused_stale
        },
{
}

/// The factory is shown the stale value with its entity tag and its last-modified instant, exactly
/// if there is one.
pub proof fn law_factory_sees_what_a_conditional_refresh_needs<V>(
    ctx: FactoryContext<V>,
    stale: bool,
    value: Option<&V>,
    etag: Option<&str>,
    at: Option<Timestamp>,
)
    requires
        call_ensures(FactoryContext::<V>::has_stale_value, (&ctx,), stale),
        call_ensures(FactoryContext::<V>::stale_value, (&ctx,), value),
        call_ensures(FactoryContext::<V>::stale_etag, (&ctx,), etag),
        call_ensures(FactoryContext::<V>::stale_last_modified, (&ctx,), at),
    ensures
        stale <==> ctx.stale is Some,
        ctx.stale is None ==> value is None && etag is None && at is None,
        ctx.stale matches Some(entry) ==> {
            &&& value matches Some(v) && *v == *entry.value
            &&& etag is Some <==> entry.meta.etag is Some
            &&& etag matches Some(shown) ==> shown@ == entry.meta.etag->0@
            &&& at == entry.meta.last_modified
        },
{
}

/// Adapting the options changes them as asked, and nothing else that the factory works with.
pub proof fn law_adapting_changes_only_the_options<V, F: FnOnce(EntryOptions) -> EntryOptions>(
    ctx: &mut FactoryContext<V>,
    f: F,
)
    requires
        f.requires((old(ctx).options,)),
        call_ensures(FactoryContext::<V>::adapt::<F>, (ctx, f), ()),
    ensures
        f.ensures((old(ctx).options,), final(ctx).options),
        final(ctx).key == old(ctx).key,
        final(ctx).call_tags == old(ctx).call_tags,
        final(ctx).adaptive_tags == old(ctx).adaptive_tags,
        final(ctx).stale == old(ctx).stale,
{
}

} // verus!
