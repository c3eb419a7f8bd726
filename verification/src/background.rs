//! Factories that end out of the caller's sight: after a timeout, or in an eager refresh.
use crate::entry::Entry;
use crate::error::FactoryError;
use crate::events::CacheEvent;
use crate::factory::{clone_tags, FactoryContext, FactoryProduct};
use crate::options::EntryOptions;
use vstd::prelude::*;

verus! {

/// How the task that ran a factory ended.
#[derive(Debug)]
pub enum FactoryEnd<V> {
    /// The factory returned.
    Returned(Result<FactoryProduct<V>, FactoryError>),
    /// The factory never returned.
    Panicked,
}

/// What to do about a factory that ended in the background.
#[derive(Debug)]
pub enum BackgroundStep<V> {
    /// Store the product as one made in the background, then report the event.
    Store(FactoryProduct<V>, CacheEvent),
    /// Only report the event. Nothing is served in its place: whoever waited was served when
    /// the wait was over.
    Report(CacheEvent),
}

impl<V> FactoryEnd<V> {
    /// What the factory came to, a factory that never returned having failed.
    pub fn into_result(self) -> (result: Result<FactoryProduct<V>, FactoryError>)
        ensures
            match self {
                FactoryEnd::Returned(returned) => result == returned,
                FactoryEnd::Panicked => result matches Err(err) && err.message@
                    == "factory task panicked"@ && err.source is None,
            },
    {
        match self {
            FactoryEnd::Returned(returned) => returned,
            FactoryEnd::Panicked => {
                proof {
                    reveal_strlit("factory task panicked");
                    assert(!crate::text::white_space("factory task panicked"@[0]));
                }
                Err(FactoryError::new(String::from_str("factory task panicked")))
            },
        }
    }
}

/// Takes in a factory that ended in the background.
pub fn background_ended<V>(full_key: &String, end: FactoryEnd<V>) -> (step: BackgroundStep<V>)
    ensures
        match end {
            FactoryEnd::Returned(Ok(product)) => step == BackgroundStep::Store(
                product,
                CacheEvent::BackgroundFactorySuccess { key: *full_key },
            ),
            FactoryEnd::Returned(Err(err)) => step == BackgroundStep::<V>::Report(
                CacheEvent::BackgroundFactoryError { key: *full_key, message: err.message },
            ),
            FactoryEnd::Panicked => step matches BackgroundStep::Report(
                CacheEvent::BackgroundFactoryError { key, message },
            ) && key == *full_key && message@ == "factory task panicked"@,
        },
{
    match end.into_result() {
        Ok(product) => BackgroundStep::Store(
            product,
            CacheEvent::BackgroundFactorySuccess { key: full_key.clone() },
        ),
        Err(err) => BackgroundStep::Report(
            CacheEvent::BackgroundFactoryError { key: full_key.clone(), message: err.message },
        ),
    }
}

/// Begins to refresh a fresh entry ahead of time, given whether its lock was free and is now
/// held: what to report, and what to give the factory. A refresh gives way to whoever holds
/// the lock.
pub fn refresh_begun<V>(
    full_key: &String,
    options: &EntryOptions,
    current: &Entry<V>,
    locked: bool,
) -> (begun: Option<(CacheEvent, FactoryContext<V>)>)
    ensures
        !locked ==> begun is None,
        locked ==> begun is Some,
        begun matches Some((event, ctx)) ==> {
            &&& event == (CacheEvent::EagerRefresh { key: *full_key })
            &&& ctx.key == *full_key
            &&& ctx.options == *options
            &&& ctx.call_tags@ == current.meta.tags@
            &&& ctx.adaptive_tags is None
            &&& ctx.stale == Some(*current)
        },
{
    if !locked {
        return None;
    }
    let event = CacheEvent::EagerRefresh { key: full_key.clone() };
    Some((event, refresh_context(full_key, options, current)))
}

/// The context in which a fresh entry is refreshed ahead of time: it keeps its tags, and
/// stands as the stale value.
pub fn refresh_context<V>(
    full_key: &String,
    options: &EntryOptions,
    current: &Entry<V>,
) -> (ctx: FactoryContext<V>)
    ensures
        ctx.key == *full_key,
        ctx.options == *options,
        ctx.call_tags@ == current.meta.tags@,
        ctx.adaptive_tags is None,
        ctx.stale == Some(*current),
{
    FactoryContext::new(
        full_key.clone(),
        *options,
        clone_tags(&current.meta.tags),
        Some(current.clone()),
    )
}

/// A factory that ends in the background: what it produced is stored as it is and reported as a
/// background success; a failure is only reported, with its message, and nothing is stored.
pub proof fn law_background_result_is_followed<V>(
    key: String,
    end: FactoryEnd<V>,
    step: BackgroundStep<V>,
)
    requires
        call_ensures(background_ended::<V>, (&key, end), step),
    ensures
        end matches FactoryEnd::Returned(Ok(product)) ==> step == BackgroundStep::Store(
            product,
            CacheEvent::BackgroundFactorySuccess { key },
        ),
        end matches FactoryEnd::Returned(Err(err)) ==> step == BackgroundStep::<V>::Report(
            CacheEvent::BackgroundFactoryError { key, message: err.message },
        ),
        end is Panicked ==> (step matches BackgroundStep::Report(
            CacheEvent::BackgroundFactoryError { key: told, message: _ },
        ) && told == key),
{
}

/// An eager refresh begins exactly if the lock was free: it is reported, and the factory is shown
/// the current entry as the stale one, with its tags as the caller's.
pub proof fn law_refresh_keeps_tags_and_shows_the_entry<V>(
    key: String,
    options: EntryOptions,
    current: Entry<V>,
    locked: bool,
    begun: Option<(CacheEvent, FactoryContext<V>)>,
)
    requires
        call_ensures(refresh_begun::<V>, (&key, &options, &current, locked), begun),
    ensures
        begun is Some <==> locked,
        begun matches Some((event, ctx)) ==> {
            &&& event == (CacheEvent::EagerRefresh { key })
            &&& ctx.key == key && ctx.options == options
            &&& ctx.stale == Some(current)
            &&& ctx.call_tags@ == current.meta.tags@
            &&& ctx.adaptive_tags is None
        },
{
}

} // verus!
