//! Named caches, and options that depend on the key.
use crate::options::EntryOptions;
use vstd::hash_map::StringHashMap;
use vstd::prelude::*;

verus! {

/// Supplies default options by key.
pub trait DefaultEntryOptionsProvider: Send + Sync {
    /// The options to use for `key`, or `None` for the cache's own defaults.
    fn options_for(&self, key: &str) -> Option<EntryOptions>;
}

/// A registry of named caches.
#[verifier::reject_recursive_types(C)]
pub struct CacheRegistry<C> {
    caches: StringHashMap<C>,
}

impl<C> View for CacheRegistry<C> {
    type V = Map<Seq<char>, C>;

    closed spec fn view(&self) -> Map<Seq<char>, C> {
        self.caches@
    }
}

impl<C> Default for CacheRegistry<C> {
    fn default() -> (registry: Self)
        ensures
            registry@ == Map::<Seq<char>, C>::empty(),
    {
        CacheRegistry { caches: StringHashMap::new() }
    }
}

impl<C> CacheRegistry<C> {
    /// A registry without caches.
    pub fn new() -> (registry: Self)
        ensures
            registry@ == Map::<Seq<char>, C>::empty(),
    {
        CacheRegistry::default()
    }

    /// Registers a cache under a name, in place of any other.
    pub fn register(&mut self, name: String, cache: C)
        ensures
            final(self)@ == old(self)@.insert(name@, cache),
    {
        self.caches.insert(name, cache);
    }

    /// The number of registered caches.
    pub fn len(&self) -> (count: usize)
        ensures
            count == self@.len(),
    {
        self.caches.len()
    }

    /// `true` if no caches are registered.
    pub fn is_empty(&self) -> (empty: bool)
        ensures
            empty == (self@.len() == 0),
    {
        self.len() == 0
    }
}

impl<C: Clone> CacheRegistry<C> {
    /// The cache registered under a name, if there is one.
    pub fn get(&self, name: &str) -> (cache: Option<C>)
        ensures
            match cache {
                Some(c) => self@.contains_key(name@) && cloned(self@[name@], c),
                None => !self@.contains_key(name@),
            },
    {
        match self.caches.get(name) {
            Some(cache) => Some(cache.clone()),
            None => None,
        }
    }

    /// The cache registered under a name; if there is none, one is built and registered.
    pub fn get_or_create<F: FnOnce() -> C>(&mut self, name: &str, build: F) -> (cache: C)
        requires
            build.requires(()),
        ensures
            if old(self)@.contains_key(name@) {
                cloned(old(self)@[name@], cache) && final(self)@ == old(self)@
            } else {
                exists|kept: C|
                    build.ensures((), cache) && #[trigger] cloned(cache, kept) && final(self)@
                        == old(self)@.insert(name@, kept)
            },
    {
        if let Some(existing) = self.get(name) {
            return existing;
        }
        let cache = build();
        let kept = cache.clone();
        assert(cloned(cache, kept));
        self.register(String::from_str(name), kept);
        cache
    }
}

/// A cache that is registered under a name is what that name gives, in place of any other, and the
/// names of others give what they gave.
pub proof fn law_name_gives_what_was_registered<C: Clone>(
    registry: &mut CacheRegistry<C>,
    name: String,
    cache: C,
    later: CacheRegistry<C>,
    asked: &str,
    given: Option<C>,
)
    requires
        call_ensures(CacheRegistry::<C>::register, (registry, name, cache), ()),
        call_ensures(CacheRegistry::<C>::get, (&later, asked), given),
        later@ == final(registry)@,
    ensures
        asked@ == name@ ==> (given matches Some(same) && cloned(cache, same)),
        asked@ != name@ ==> (given is Some <==> old(registry)@.contains_key(asked@)),
        asked@ != name@ ==> (given matches Some(same) ==> cloned(old(registry)@[asked@], same)),
{
}

/// A cache is built under a name only if there is none yet; then it is what is given and what the
/// name gives from then on. Otherwise the one that is there is given, and nothing changes.
pub proof fn law_cache_is_built_once<C: Clone, F: FnOnce() -> C>(
    registry: &mut CacheRegistry<C>,
    name: &str,
    build: F,
    cache: C,
)
    requires
        build.requires(()),
        call_ensures(CacheRegistry::<C>::get_or_create::<F>, (registry, name, build), cache),
    ensures
        final(registry)@.contains_key(name@),
        old(registry)@.contains_key(name@) ==> {
            &&& cloned(old(registry)@[name@], cache)
            &&& final(registry)@ == old(registry)@
        },
        !old(registry)@.contains_key(name@) ==> {
            &&& build.ensures((), cache)
            &&& cloned(cache, final(registry)@[name@])
            &&& final(registry)@.remove(name@) =~= old(registry)@
        },
{
}

} // verus!
