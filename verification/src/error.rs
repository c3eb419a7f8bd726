//! Errors.
//!
//! A cache miss is no error, and neither is a factory failure that fail-safe made
//! up for: both show in what an operation returns.
use crate::text::{blank, is_blank};
use crate::time::Duration;
use vstd::prelude::*;

verus! {

/// An error surfaced from a cache operation.
#[derive(Debug, Clone, PartialEq, Eq)]
#[non_exhaustive]
pub enum Error {
    /// The factory failed and nothing was there to fall back to.
    Factory {
        /// The failure message reported by the factory.
        message: String,
    },
    /// The factory ran out of time and nothing was there to fall back to.
    FactoryTimeout {
        /// How long the factory was allowed to run.
        elapsed: Duration,
    },
    /// The single-flight lock was not acquired in time.
    LockTimeout {
        /// How long the caller waited for the lock.
        elapsed: Duration,
    },
    /// A value could not be serialized for the distributed cache.
    Serialization(String),
    /// A value could not be deserialized from the distributed cache.
    Deserialization(String),
    /// The distributed cache backend returned an error.
    Distributed(String),
    /// The backplane returned an error.
    Backplane(String),
}

/// The message of a factory failure that gave none.
pub open spec fn default_failure() -> Seq<char> {
    "an error occurred while running the factory"@
}

/// The message a failure is reported with: its own, unless that is blank.
pub open spec fn failure_message(message: Seq<char>) -> Seq<char> {
    if blank(message) {
        default_failure()
    } else {
        message
    }
}

/// What a factory returns to signal failure.
///
/// It sets the fail-safe path off: a stale value or the fail-safe default is served
/// if there is one, otherwise the failure comes out as [`Error::Factory`].
#[derive(Debug, Clone, PartialEq, Eq)]
pub struct FactoryError {
    /// The failure message.
    pub message: String,
    /// The text of the error that caused the failure, if one did.
    pub source: Option<String>,
}

impl FactoryError {
    /// A failure with a human-readable message; a blank one is replaced.
    pub fn new(message: String) -> (err: Self)
        ensures
            err.message@ == failure_message(message@),
            err.source is None,
    {
        FactoryError { message: into_nonblank(message), source: None }
    }

    /// A failure caused by another error, given by its text, which is kept as it is.
    pub fn from_source(source: String) -> (err: Self)
        ensures
            err.message == source,
            err.source == Some(source),
    {
        FactoryError { message: source.clone(), source: Some(source) }
    }

    /// The failure message.
    pub fn message(&self) -> (message: &str)
        ensures
            message@ == self.message@,
    {
        self.message.as_str()
    }
}

fn into_nonblank(message: String) -> (text: String)
    ensures
        text@ == failure_message(message@),
{
    if is_blank(message.as_str()) {
        String::from_str("an error occurred while running the factory")
    } else {
        message
    }
}

impl From<FactoryError> for Error {
    fn from(err: FactoryError) -> (error: Self) {
        Error::Factory { message: err.message }
    }
}

impl vstd::std_specs::convert::FromSpecImpl<FactoryError> for Error {
    open spec fn obeys_from_spec() -> bool {
        true
    }

    open spec fn from_spec(err: FactoryError) -> Self {
        Error::Factory { message: err.message }
    }
}

/// A factory failure never goes by without a message.
pub proof fn law_failure_message_is_never_blank(message: Seq<char>)
    ensures
        !blank(failure_message(message)),
{
    reveal_strlit("an error occurred while running the factory");
    assert(!crate::text::white_space(default_failure()[0]));
}

/// A failure keeps its message, unless that is blank, and then it has one nevertheless; and it
/// reaches the caller with that message.
pub proof fn law_failure_keeps_its_message(message: String, err: FactoryError)
    requires
        call_ensures(FactoryError::new, (message,), err),
    ensures
        !blank(message@) ==> err.message@ == message@,
        !blank(err.message@),
        err.source is None,
{
    law_failure_message_is_never_blank(message@);
}

} // verus!
