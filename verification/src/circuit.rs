//! A circuit breaker for a dependency that may fail.
//!
//! After a failure the breaker opens for a fixed span. While it is open, the guarded
//! operations are not attempted. A breaker without a span is never open.
use crate::time::{clamp_ticks, duration_to_ticks, ticks_of, Duration, Timestamp};
use vstd::prelude::*;

verus! {

/// A time-based circuit breaker.
#[derive(Debug, Clone, Copy, PartialEq, Eq, Structural)]
pub struct CircuitBreaker {
    /// How long the breaker stays open after a failure; nought disables it.
    pub open_ticks: i64,
    /// The tick at which an open breaker closes again; `None` while it is closed.
    pub closes_at: Option<i64>,
}

impl CircuitBreaker {
    /// Whether operations may proceed at `now`.
    pub open spec fn lets_through(self, now: Timestamp) -> bool {
        ||| self.open_ticks == 0
        ||| self.closes_at is None
        ||| self.closes_at matches Some(at) && now.0 >= at
    }

    /// The breaker after it was consulted at `now`: closed for good once its span has
    /// passed.
    pub open spec fn consulted(self, now: Timestamp) -> CircuitBreaker {
        if self.open_ticks != 0 && self.lets_through(now) {
            CircuitBreaker { closes_at: None, ..self }
        } else {
            self
        }
    }

    /// The breaker after a failure at `now`.
    pub open spec fn tripped(self, now: Timestamp) -> CircuitBreaker {
        if self.open_ticks == 0 {
            self
        } else {
            CircuitBreaker { closes_at: Some(clamp_ticks(now.0 + self.open_ticks)), ..self }
        }
    }

    /// The breaker after it was closed by hand.
    pub open spec fn forced_closed(self) -> CircuitBreaker {
        CircuitBreaker { closes_at: None, ..self }
    }

    /// A breaker that opens for `open_duration` after a failure.
    pub fn new(open_duration: Duration) -> (breaker: Self)
        ensures
            breaker.open_ticks == ticks_of(open_duration),
            breaker.closes_at is None,
    {
        CircuitBreaker { open_ticks: duration_to_ticks(open_duration), closes_at: None }
    }

    /// `true` if this breaker never opens.
    pub fn is_disabled(&self) -> (disabled: bool)
        ensures
            disabled == (self.open_ticks == 0),
    {
        self.open_ticks == 0
    }

    /// `true` if operations may proceed at `now`. A breaker whose span has passed
    /// closes on the way.
    pub fn is_closed(&mut self, now: Timestamp) -> (closed: bool)
        ensures
            closed == old(self).lets_through(now),
            *final(self) == old(self).consulted(now),
    {
        if self.is_disabled() {
            return true;
        }
        match self.closes_at {
            None => true,
            Some(at) => if now.0 >= at {
                self.closes_at = None;
                true
            } else {
                false
            },
        }
    }

    /// Opens the breaker until its span after `now` has passed. Returns `true` if it was
    /// closed before, so that the change is reported once.
    pub fn trip(&mut self, now: Timestamp) -> (opened: bool)
        ensures
            *final(self) == old(self).tripped(now),
            opened == (old(self).open_ticks != 0 && old(self).closes_at is None),
    {
        if self.is_disabled() {
            return false;
        }
        let closes_at: i128 = now.0 as i128 + self.open_ticks as i128;
        let previous = self.closes_at;
        self.closes_at = Some(
            if closes_at > 0x7fff_ffff_ffff_ffff {
                i64::MAX
            } else if closes_at < -0x8000_0000_0000_0000 {
                i64::MIN
            } else {
                closes_at as i64
            },
        );
        previous.is_none()
    }

    /// Closes the breaker. Returns `true` if it was open before.
    pub fn close(&mut self) -> (closed: bool)
        ensures
            *final(self) == old(self).forced_closed(),
            closed == (old(self).closes_at is Some),
    {
        let previous = self.closes_at;
        self.closes_at = None;
        previous.is_some()
    }
}

/// A breaker without a span lets everything through, whatever happened to it.
pub proof fn law_disabled_breaker_never_blocks(
    breaker: CircuitBreaker,
    failed_at: Timestamp,
    now: Timestamp,
)
    requires
        breaker.open_ticks == 0,
    ensures
        breaker.lets_through(now),
        breaker.tripped(failed_at).lets_through(now),
        breaker.tripped(failed_at) == breaker,
{
}

/// A failure blocks operations for exactly the breaker's span: from the failure on up
/// to the end of the span, and not from its end on.
pub proof fn law_tripped_breaker_blocks_for_its_span(
    breaker: CircuitBreaker,
    failed_at: Timestamp,
    now: Timestamp,
)
    requires
        breaker.open_ticks > 0,
        failed_at.0 + breaker.open_ticks <= i64::MAX,
    ensures
        breaker.tripped(failed_at).lets_through(now) == (now.0 >= failed_at.0 + breaker.open_ticks),
{
}

/// Consulting a breaker changes nothing that a later consultation would notice.
pub proof fn law_consulting_is_harmless(
    breaker: CircuitBreaker,
    first: Timestamp,
    second: Timestamp,
)
    requires
        first.0 <= second.0,
    ensures
        breaker.consulted(first).lets_through(second) == breaker.lets_through(second),
        breaker.consulted(first).consulted(second) == breaker.consulted(second),
{
}

/// A success closes the breaker at once.
pub proof fn law_closed_breaker_lets_through(breaker: CircuitBreaker, now: Timestamp)
    ensures
        breaker.forced_closed().lets_through(now),
        breaker.forced_closed().forced_closed() == breaker.forced_closed(),
{
}

/// A breaker that was tripped keeps everything out from then on until its span has passed, and
/// lets everything through from then on; closing it lets everything through at once. The change
/// is reported exactly if it is one.
pub proof fn law_breaker_blocks_between_failure_and_recovery(
    tripped: &mut CircuitBreaker,
    failed_at: Timestamp,
    opened: bool,
    asked: &mut CircuitBreaker,
    now: Timestamp,
    through: bool,
    closed: &mut CircuitBreaker,
    was_open: bool,
)
    requires
        call_ensures(CircuitBreaker::trip, (tripped, failed_at), opened),
        call_ensures(CircuitBreaker::is_closed, (asked, now), through),
        call_ensures(CircuitBreaker::close, (closed,), was_open),
        old(tripped).open_ticks >= 0,
        failed_at.0 + old(tripped).open_ticks <= i64::MAX,
    ensures
        opened <==> old(tripped).open_ticks > 0 && old(tripped).closes_at is None,
        final(tripped).open_ticks == old(tripped).open_ticks,
        old(tripped).open_ticks > 0 ==> final(tripped).closes_at == Some(
            (failed_at.0 + old(tripped).open_ticks) as i64,
        ),
        old(tripped).open_ticks == 0 ==> *final(tripped) == *old(tripped),
        *old(asked) == *final(tripped) && old(tripped).open_ticks > 0 ==> (through <==> now.0
            >= failed_at.0 + old(tripped).open_ticks),
        old(asked).open_ticks == 0 || old(asked).closes_at is None ==> through,
        !through ==> *final(asked) == *old(asked),
        through && old(asked).open_ticks != 0 ==> final(asked).closes_at is None,
        final(asked).open_ticks == old(asked).open_ticks,
        was_open <==> old(closed).closes_at is Some,
        final(closed).closes_at is None,
        final(closed).open_ticks == old(closed).open_ticks,
{
}

/// A new breaker is closed, and its span is the one it was given, in whole ticks.
pub proof fn law_new_breaker_is_closed(span: Duration, breaker: CircuitBreaker)
    requires
        call_ensures(CircuitBreaker::new, (span,), breaker),
        span.nanos as int / 100 <= i64::MAX,
    ensures
        breaker.closes_at is None,
        breaker.open_ticks == span.nanos as int / 100,
{
}

} // verus!
