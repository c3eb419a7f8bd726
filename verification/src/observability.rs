//! Metrics: which counter an event adds to.
use crate::events::CacheEvent;
use vstd::prelude::*;

verus! {

/// The counter that an event adds one to, if any.
pub open spec fn counter_of(event: CacheEvent) -> Option<Seq<char>> {
    match event {
        CacheEvent::Hit { stale: true, .. } => Some("amalgam_hits_stale_total"@),
        CacheEvent::Hit { stale: false, .. } => Some("amalgam_hits_total"@),
        CacheEvent::Miss { .. } => Some("amalgam_misses_total"@),
        CacheEvent::Put { .. } => Some("amalgam_sets_total"@),
        CacheEvent::FactoryError { .. } => Some("amalgam_factory_errors_total"@),
        CacheEvent::FailSafeActivate { .. } => Some("amalgam_failsafe_activations_total"@),
        CacheEvent::FactorySyntheticTimeout { .. } => Some("amalgam_factory_timeouts_total"@),
        CacheEvent::EagerRefresh { .. } => Some("amalgam_eager_refreshes_total"@),
        _ => None,
    }
}

/// An observer that counts events.
#[derive(Debug)]
pub struct MetricsPlugin {
    /// The name it goes by in diagnostics.
    pub name: String,
}

impl MetricsPlugin {
    /// The observer.
    pub fn new() -> (plugin: Self)
        ensures
            plugin.name@ == "amalgam-metrics"@,
    {
        MetricsPlugin { name: String::from_str("amalgam-metrics") }
    }

    /// The name it goes by in diagnostics.
    pub fn name(&self) -> (name: &str)
        ensures
            name@ == self.name@,
    {
        self.name.as_str()
    }

    /// The counter that an event adds one to, if any.
    pub fn on_event(&self, event: &CacheEvent) -> (counter: Option<&'static str>)
        ensures
            match counter_of(*event) {
                Some(name) => counter matches Some(c) && c@ == name,
                None => counter is None,
            },
    {
        match event {
            CacheEvent::Hit { stale, .. } => if *stale {
                Some("amalgam_hits_stale_total")
            } else {
                Some("amalgam_hits_total")
            },
            CacheEvent::Miss { .. } => Some("amalgam_misses_total"),
            CacheEvent::Put { .. } => Some("amalgam_sets_total"),
            CacheEvent::FactoryError { .. } => Some("amalgam_factory_errors_total"),
            CacheEvent::FailSafeActivate { .. } => Some("amalgam_failsafe_activations_total"),
            CacheEvent::FactorySyntheticTimeout { .. } => Some("amalgam_factory_timeouts_total"),
            CacheEvent::EagerRefresh { .. } => Some("amalgam_eager_refreshes_total"),
            _ => None,
        }
    }
}

impl Default for MetricsPlugin {
    fn default() -> (plugin: Self)
        ensures
            plugin.name@ == "amalgam-metrics"@,
    {
        MetricsPlugin::new()
    }
}

/// A fresh hit, a stale hit, a miss and a write are counted apart from each other, and each always
/// under the same counter, whatever the key.
pub proof fn law_hits_and_misses_are_counted_apart(
    plugin: MetricsPlugin,
    a: CacheEvent,
    b: CacheEvent,
    counter_a: Option<&'static str>,
    counter_b: Option<&'static str>,
)
    requires
        call_ensures(MetricsPlugin::on_event, (&plugin, &a), counter_a),
        call_ensures(MetricsPlugin::on_event, (&plugin, &b), counter_b),
    ensures
        a is Hit || a is Miss || a is Put || a is FactoryError || a is FailSafeActivate
            || a is FactorySyntheticTimeout || a is EagerRefresh <==> counter_a is Some,
        counter_a matches Some(x) ==> (counter_b matches Some(y) ==> (x@ == y@ <==> {
            ||| a is Miss && b is Miss
            ||| a is Put && b is Put
            ||| a is FactoryError && b is FactoryError
            ||| a is FailSafeActivate && b is FailSafeActivate
            ||| a is FactorySyntheticTimeout && b is FactorySyntheticTimeout
            ||| a is EagerRefresh && b is EagerRefresh
            ||| a matches CacheEvent::Hit { key: _, stale: s } && (b matches CacheEvent::Hit {
                key: _,
                stale: t,
            } && s == t)
        })),
{
    reveal_strlit("amalgam_hits_stale_total");
    reveal_strlit("amalgam_hits_total");
    reveal_strlit("amalgam_misses_total");
    reveal_strlit("amalgam_sets_total");
    reveal_strlit("amalgam_factory_errors_total");
    reveal_strlit("amalgam_failsafe_activations_total");
    reveal_strlit("amalgam_factory_timeouts_total");
    reveal_strlit("amalgam_eager_refreshes_total");
    assert("amalgam_hits_stale_total"@.len() == 24 && "amalgam_hits_total"@.len() == 18);
    assert("amalgam_misses_total"@.len() == 20 && "amalgam_sets_total"@.len() == 18);
    assert("amalgam_factory_errors_total"@.len() == 28);
    assert("amalgam_failsafe_activations_total"@.len() == 34);
    assert("amalgam_factory_timeouts_total"@.len() == 30);
    assert("amalgam_eager_refreshes_total"@.len() == 29);
    assert("amalgam_hits_total"@[8] == 'h' && "amalgam_sets_total"@[8] == 's');
}

} // verus!
