//! [`MaybeValue`]: a value, or explicitly no value.
use vstd::prelude::*;

verus! {

/// A value that may or may not be present.
///
/// It is what a read-only lookup returns (a miss is [`MaybeValue::none`]) and how a
/// caller names a last-resort value for a failing factory.
#[derive(Debug, Clone, PartialEq, Eq)]
pub struct MaybeValue<V>(pub Option<V>);

impl<V> MaybeValue<V> {
    /// A present value.
    pub fn from_value(value: V) -> (maybe: Self)
        ensures
            maybe.0 == Some(value),
    {
        MaybeValue(Some(value))
    }

    /// The absence of a value.
    pub fn none() -> (maybe: Self)
        ensures
            maybe.0 is None,
    {
        MaybeValue(None)
    }

    /// `true` if a value is present.
    pub fn has_value(&self) -> (present: bool)
        ensures
            present == (self.0 is Some),
    {
        self.0.is_some()
    }

    /// Borrows the contained value, if any.
    pub fn value(&self) -> (value: Option<&V>)
        ensures
            match self.0 {
                Some(v) => value == Some(&v),
                None => value is None,
            },
    {
        self.0.as_ref()
    }

    /// Takes the contained value out, if any.
    pub fn into_value(self) -> (value: Option<V>)
        ensures
            value == self.0,
    {
        self.0
    }

    /// The contained value, or `default` when absent.
    pub fn value_or(self, default: V) -> (value: V)
        ensures
            value == (match self.0 {
                Some(v) => v,
                None => default,
            }),
    {
        self.0.unwrap_or(default)
    }

    /// Maps the contained value, preserving absence.
    pub fn map<U, F: FnOnce(V) -> U>(self, f: F) -> (mapped: MaybeValue<U>)
        requires
            self.0 matches Some(v) ==> f.requires((v,)),
        ensures
            match self.0 {
                Some(v) => mapped.0 matches Some(u) && f.ensures((v,), u),
                None => mapped.0 is None,
            },
    {
        match self.0 {
            Some(v) => MaybeValue(Some(f(v))),
            None => MaybeValue(None),
        }
    }
}

impl<V: Clone> MaybeValue<V> {
    /// A clone of the contained value, or `default` when absent.
    pub fn value_or_clone(&self, default: V) -> (value: V)
        ensures
            match self.0 {
                Some(v) => cloned(v, value),
                None => value == default,
            },
    {
        match &self.0 {
            Some(v) => v.clone(),
            None => default,
        }
    }
}

impl<V: Default> MaybeValue<V> {
    /// The contained value, or the type's own default when absent.
    pub fn value_or_default(self) -> (value: V)
        ensures
            match self.0 {
                Some(v) => value == v,
                None => V::default.ensures((), value),
            },
    {
        match self.0 {
            Some(v) => v,
            None => V::default(),
        }
    }
}

impl<V> Default for MaybeValue<V> {
    fn default() -> (maybe: Self)
        ensures
            maybe.0 is None,
    {
        MaybeValue(None)
    }
}

impl<V> From<V> for MaybeValue<V> {
    fn from(value: V) -> (maybe: Self) {
        MaybeValue(Some(value))
    }
}

impl<V> vstd::std_specs::convert::FromSpecImpl<V> for MaybeValue<V> {
    open spec fn obeys_from_spec() -> bool {
        true
    }

    open spec fn from_spec(value: V) -> Self {
        MaybeValue(Some(value))
    }
}

impl<V> From<Option<V>> for MaybeValue<V> {
    fn from(option: Option<V>) -> (maybe: Self) {
        MaybeValue(option)
    }
}

impl<V> vstd::std_specs::convert::FromSpecImpl<Option<V>> for MaybeValue<V> {
    open spec fn obeys_from_spec() -> bool {
        true
    }

    open spec fn from_spec(option: Option<V>) -> Self {
        MaybeValue(option)
    }
}

impl<V> From<MaybeValue<V>> for Option<V> {
    fn from(maybe: MaybeValue<V>) -> (option: Self) {
        maybe.0
    }
}

impl<V> vstd::std_specs::convert::FromSpecImpl<MaybeValue<V>> for Option<V> {
    open spec fn obeys_from_spec() -> bool {
        true
    }

    open spec fn from_spec(maybe: MaybeValue<V>) -> Self {
        maybe.0
    }
}

/// A value that is put in is what comes out, whichever way it is asked for, and where there is none
/// the given default does.
pub proof fn law_value_comes_out_as_it_went_in<V>(
    value: V,
    present: MaybeValue<V>,
    absent: MaybeValue<V>,
    maybe: MaybeValue<V>,
    there: bool,
    seen: Option<&V>,
    taken: Option<V>,
    default: V,
    or: V,
)
    requires
        call_ensures(MaybeValue::<V>::from_value, (value,), present),
        call_ensures(MaybeValue::<V>::none, (), absent),
        call_ensures(MaybeValue::<V>::has_value, (&maybe,), there),
        call_ensures(MaybeValue::<V>::value, (&maybe,), seen),
        call_ensures(MaybeValue::<V>::into_value, (maybe,), taken),
        call_ensures(MaybeValue::<V>::value_or, (maybe, default), or),
    ensures
        maybe == present ==> there && taken == Some(value) && or == value && (seen matches Some(v)
            && *v == value),
        maybe == absent ==> !there && taken is None && seen is None && or == default,
{
}

} // verus!
