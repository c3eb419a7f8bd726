//! Plugins: observers that are told of every event.
use crate::events::CacheEvent;
use std::sync::Arc;
use vstd::prelude::*;

verus! {

/// An observer of a cache. It must not block.
pub trait Plugin: Send + Sync {
    /// A short name used in diagnostics.
    fn name(&self) -> &str;

    /// Called once when the cache is built.
    fn on_start(&self) {
    }

    /// Called for every event the cache emits.
    fn on_event(&self, event: &CacheEvent);
}

impl<T: Plugin + ?Sized> Plugin for Arc<T> {
    /// The name of the shared plugin.
    fn name(&self) -> (name: &str)
        ensures
            call_ensures(T::name, (&**self,), name),
    {
        (**self).name()
    }

    /// Starts the shared plugin.
    fn on_start(&self)
        ensures
            call_ensures(T::on_start, (&**self,), ()),
    {
        (**self).on_start()
    }

    /// Tells the shared plugin of an event.
    fn on_event(&self, event: &CacheEvent)
        ensures
            call_ensures(T::on_event, (&**self, event), ()),
    {
        (**self).on_event(event)
    }
}

/// The registered plugins.
pub struct PluginHost<P> {
    plugins: Vec<P>,
}

impl<P> View for PluginHost<P> {
    type V = Seq<P>;

    closed spec fn view(&self) -> Seq<P> {
        self.plugins@
    }
}

impl<P: Plugin> PluginHost<P> {
    /// A host of the given plugins, each of which is started.
    pub fn new(plugins: Vec<P>) -> (host: Self)
        ensures
            host@ == plugins@,
            forall|i: int|
                0 <= i < plugins@.len() ==> call_ensures(
                    P::on_start,
                    (&#[trigger] plugins@[i],),
                    (),
                ),
    {
        let mut i: usize = 0;
        while i < plugins.len()
            invariant
                i <= plugins.len(),
                forall|j: int|
                    0 <= j < i ==> call_ensures(P::on_start, (&#[trigger] plugins@[j],), ()),
            decreases plugins.len() - i,
        {
            plugins[i].on_start();
            i += 1;
        }
        PluginHost { plugins }
    }

    /// `true` if no plugins are registered.
    pub fn is_empty(&self) -> (empty: bool)
        ensures
            empty == (self@.len() == 0),
    {
        self.plugins.len() == 0
    }

    /// Tells every plugin of an event.
    pub fn notify(&self, event: &CacheEvent)
        ensures
            forall|i: int|
                0 <= i < self@.len() ==> call_ensures(
                    P::on_event,
                    (&#[trigger] self@[i], event),
                    (),
                ),
    {
        let mut i: usize = 0;
        while i < self.plugins.len()
            invariant
                i <= self.plugins.len(),
                forall|j: int|
                    0 <= j < i ==> call_ensures(
                        P::on_event,
                        (&#[trigger] self.plugins@[j], event),
                        (),
                    ),
            decreases self.plugins.len() - i,
        {
            self.plugins[i].on_event(event);
            i += 1;
        }
    }
}

impl<P> Default for PluginHost<P> {
    fn default() -> (host: Self)
        ensures
            host@.len() == 0,
    {
        PluginHost { plugins: Vec::new() }
    }
}

/// Every registered plugin is started, and none is lost.
pub proof fn law_every_plugin_is_started<P: Plugin>(plugins: Vec<P>, host: PluginHost<P>, i: int)
    requires
        call_ensures(PluginHost::<P>::new, (plugins,), host),
        0 <= i < plugins@.len(),
    ensures
        host@ == plugins@,
        call_ensures(P::on_start, (&plugins@[i],), ()),
{
}

} // verus!
