//! Time: durations, timestamps, clocks and timeouts.
//!
//! Cache rules never read a clock on their own. Every instant reaches them as a
//! [`Timestamp`], taken from a [`Clock`] by whoever calls them, so each rule is a
//! function of its arguments.
use std::sync::Arc;
use std::time::SystemTime;
use vstd::prelude::*;

verus! {

/// Number of 100-nanosecond ticks in one second.
pub const TICKS_PER_SECOND: i64 = 10_000_000;

/// Number of nanoseconds in one tick.
pub const NANOS_PER_TICK: u128 = 100;

/// The start of a [`ManualClock`] made by `default`: ten to the ninth seconds.
pub const MANUAL_CLOCK_START: i64 = 10_000_000_000_000_000;

/// A span of time, in whole nanoseconds.
#[derive(Debug, Clone, Copy, PartialEq, Eq, PartialOrd, Ord, Hash, Structural)]
pub struct Duration {
    /// The length of the span in nanoseconds.
    pub nanos: u128,
}

/// The longer of two spans.
pub open spec fn longer(a: Duration, b: Duration) -> Duration {
    if a.nanos >= b.nanos {
        a
    } else {
        b
    }
}

/// The shorter of two spans.
pub open spec fn shorter(a: Duration, b: Duration) -> Duration {
    if a.nanos <= b.nanos {
        a
    } else {
        b
    }
}

impl Duration {
    /// The empty span.
    pub fn zero() -> (d: Duration)
        ensures
            d.nanos == 0,
    {
        Duration { nanos: 0 }
    }

    /// A span of `secs` seconds.
    pub fn from_secs(secs: u64) -> (d: Duration)
        ensures
            d.nanos == secs * 1_000_000_000,
    {
        Duration { nanos: secs as u128 * 1_000_000_000 }
    }

    /// A span of `millis` milliseconds.
    pub fn from_millis(millis: u64) -> (d: Duration)
        ensures
            d.nanos == millis * 1_000_000,
    {
        Duration { nanos: millis as u128 * 1_000_000 }
    }

    /// A span of `micros` microseconds.
    pub fn from_micros(micros: u64) -> (d: Duration)
        ensures
            d.nanos == micros * 1_000,
    {
        Duration { nanos: micros as u128 * 1_000 }
    }

    /// A span of `nanos` nanoseconds.
    pub fn from_nanos(nanos: u128) -> (d: Duration)
        ensures
            d.nanos == nanos,
    {
        Duration { nanos }
    }

    /// The span in nanoseconds.
    pub fn as_nanos(self) -> (nanos: u128)
        ensures
            nanos == self.nanos,
    {
        self.nanos
    }

    /// The span in whole milliseconds, rounded down.
    pub fn as_millis(self) -> (millis: u128)
        ensures
            millis == self.nanos as int / 1_000_000,
    {
        self.nanos / 1_000_000
    }

    /// `true` if the span is empty.
    pub fn is_zero(self) -> (zero: bool)
        ensures
            zero == (self.nanos == 0),
    {
        self.nanos == 0
    }

    /// The longer of two spans.
    pub fn max(self, other: Duration) -> (d: Duration)
        ensures
            d == longer(self, other),
    {
        if self.nanos >= other.nanos {
            self
        } else {
            other
        }
    }

    /// The shorter of two spans.
    pub fn min(self, other: Duration) -> (d: Duration)
        ensures
            d == shorter(self, other),
    {
        if self.nanos <= other.nanos {
            self
        } else {
            other
        }
    }
}

/// `value`, held between the smallest and the largest tick count.
pub open spec fn clamp_ticks(value: int) -> i64 {
    if value > i64::MAX {
        i64::MAX
    } else if value < i64::MIN {
        i64::MIN
    } else {
        value as i64
    }
}

/// The whole ticks in a span, capped at the largest tick count.
pub open spec fn ticks_of(duration: Duration) -> i64 {
    clamp_ticks(duration.nanos as int / 100)
}

/// The span that a tick count stands for: nothing for a negative count, and never
/// more nanoseconds than a `u64` holds.
pub open spec fn span_of(ticks: i64) -> Duration {
    Duration {
        nanos: if ticks <= 0 {
            0
        } else if ticks * 100 > u64::MAX {
            u64::MAX as u128
        } else {
            (ticks * 100) as u128
        },
    }
}

/// Converts a [`Duration`] to ticks, saturating on overflow.
pub fn duration_to_ticks(duration: Duration) -> (ticks: i64)
    ensures
        ticks == ticks_of(duration),
        ticks >= 0,
{
    let whole: u128 = duration.nanos / NANOS_PER_TICK;
    if whole > 0x7fff_ffff_ffff_ffff {
        i64::MAX
    } else {
        whole as i64
    }
}

/// Converts a non-negative tick count to a [`Duration`].
pub fn ticks_to_duration(ticks: i64) -> (duration: Duration)
    ensures
        duration == span_of(ticks),
{
    if ticks <= 0 {
        Duration { nanos: 0 }
    } else {
        let nanos: u128 = ticks as u128 * 100;
        if nanos > 0xffff_ffff_ffff_ffff {
            Duration { nanos: 0xffff_ffff_ffff_ffff }
        } else {
            Duration { nanos }
        }
    }
}

/// A point in time: ticks since the Unix epoch.
#[derive(Debug, Clone, Copy, PartialEq, Eq, PartialOrd, Ord, Hash, Structural)]
pub struct Timestamp(pub i64);

/// The instant `duration` after `at`, capped at the last instant there is.
pub open spec fn later_by(at: Timestamp, duration: Duration) -> Timestamp {
    Timestamp(clamp_ticks(at.0 + ticks_of(duration)))
}

/// The span from `earlier` to `at`; nothing if `at` is not after `earlier`.
pub open spec fn elapsed_between(earlier: Timestamp, at: Timestamp) -> Duration {
    span_of(clamp_ticks(at.0 - earlier.0))
}

impl Timestamp {
    /// The instant at the given tick count.
    pub fn from_ticks(ticks: i64) -> (at: Timestamp)
        ensures
            at == Timestamp(ticks),
    {
        Timestamp(ticks)
    }

    /// The tick count of this instant.
    pub fn ticks(self) -> (ticks: i64)
        ensures
            ticks == self.0,
    {
        self.0
    }

    /// Adds a [`Duration`], saturating at the last instant instead of overflowing.
    pub fn saturating_add(self, duration: Duration) -> (at: Timestamp)
        ensures
            at == later_by(self, duration),
    {
        let ticks: i64 = duration_to_ticks(duration);
        if self.0 > i64::MAX - ticks {
            Timestamp(i64::MAX)
        } else {
            Timestamp(self.0 + ticks)
        }
    }

    /// The span elapsed from `earlier` to `self`, or the empty span if `self` is not
    /// after `earlier`.
    pub fn saturating_duration_since(self, earlier: Timestamp) -> (duration: Duration)
        ensures
            duration == elapsed_between(earlier, self),
    {
        let delta: i128 = self.0 as i128 - earlier.0 as i128;
        if delta > 0x7fff_ffff_ffff_ffff {
            ticks_to_duration(i64::MAX)
        } else if delta <= 0 {
            Duration { nanos: 0 }
        } else {
            ticks_to_duration(delta as i64)
        }
    }

    /// `true` if `self` is strictly before `other`.
    pub fn is_before(self, other: Timestamp) -> (before: bool)
        ensures
            before == (self.0 < other.0),
    {
        self.0 < other.0
    }
}

/// Source of the current time.
pub trait Clock: Send + Sync {
    /// The current instant.
    fn now(&self) -> Timestamp;
}

impl<T: Clock + ?Sized> Clock for Arc<T> {
    /// What the shared clock shows.
    fn now(&self) -> (at: Timestamp)
        ensures
            call_ensures(T::now, (&**self,), at),
    {
        (**self).now()
    }
}

/// `std::time::SystemTime`, carried from the call that reads it to the call that
/// measures it.
#[verifier::external_type_specification]
#[verifier::external_body]
pub struct ExSystemTime(SystemTime);

/// `std::time::SystemTime::now`: the machine's time, of which nothing is claimed.
#[verifier::external_body]
fn read_system_time() -> SystemTime {
    SystemTime::now()
}

/// `std::time::SystemTime::duration_since` the Unix epoch, in nanoseconds: `None`
/// for a time before the epoch. Nothing is claimed of the number itself, which
/// comes from the machine.
#[verifier::external_body]
fn nanos_since_epoch(at: SystemTime) -> Option<u128> {
    at.duration_since(std::time::UNIX_EPOCH).ok().map(|d| d.as_nanos())
}

/// The real system clock.
#[derive(Debug, Clone, Copy, Default)]
pub struct SystemClock;

/// The instant that lies `since_epoch` after the Unix epoch; the epoch itself where
/// the machine's time lies before it.
pub fn instant_since_epoch(since_epoch: Option<Duration>) -> (at: Timestamp)
    ensures
        at.0 == (match since_epoch {
            Some(d) => ticks_of(d),
            None => 0i64,
        }),
{
    match since_epoch {
        Some(d) => Timestamp(duration_to_ticks(d)),
        None => Timestamp(0),
    }
}

/// Whether `at` is what a reading of the machine's time comes to: the whole ticks from the
/// Unix epoch to the time that was read, and none for a time before the epoch.
pub closed spec fn is_reading(at: Timestamp) -> bool {
    exists|read: SystemTime, nanos: Option<u128>|
        {
            &&& call_ensures(read_system_time, (), read)
            &&& #[trigger] call_ensures(nanos_since_epoch, (read,), nanos)
            &&& at.0 == (match nanos {
                Some(n) => ticks_of(Duration { nanos: n }),
                None => 0i64,
            })
        }
}

impl Clock for SystemClock {
    /// The machine's time, never before the Unix epoch.
    fn now(&self) -> (at: Timestamp)
        ensures
            is_reading(at),
            at.0 >= 0,
    {
        let read = read_system_time();
        let nanos = nanos_since_epoch(read);
        assert(call_ensures(nanos_since_epoch, (read,), nanos));
        let since_epoch = match nanos {
            Some(n) => Some(Duration { nanos: n }),
            None => None,
        };
        instant_since_epoch(since_epoch)
    }
}

/// A clock that only moves when told to.
#[derive(Debug)]
pub struct ManualClock {
    /// The instant the clock shows.
    pub at: Timestamp,
}

impl ManualClock {
    /// A clock that shows `start`.
    pub fn new(start: Timestamp) -> (clock: ManualClock)
        ensures
            clock.at == start,
    {
        ManualClock { at: start }
    }

    /// Moves the clock forward by `duration`, wrapping past the last instant.
    pub fn advance(&mut self, duration: Duration)
        ensures
            final(self).at.0 == old(self).at.0.wrapping_add(ticks_of(duration)),
    {
        self.at = Timestamp(self.at.0.wrapping_add(duration_to_ticks(duration)));
    }

    /// Sets the clock to an absolute instant.
    pub fn set(&mut self, at: Timestamp)
        ensures
            final(self).at == at,
    {
        self.at = at;
    }
}

impl Default for ManualClock {
    fn default() -> (clock: ManualClock)
        ensures
            clock.at.0 == 1_000_000_000 * TICKS_PER_SECOND,
    {
        ManualClock::new(Timestamp(MANUAL_CLOCK_START))
    }
}

impl Clock for ManualClock {
    fn now(&self) -> (at: Timestamp)
        ensures
            at == self.at,
    {
        self.at
    }
}

/// A wait that is either unbounded or of a finite length.
#[derive(Debug, Clone, Copy, PartialEq, Eq, Structural)]
pub enum Timeout {
    /// Wait forever.
    Infinite,
    /// Give up after the given span.
    After(Duration),
}

impl Default for Timeout {
    fn default() -> (timeout: Timeout)
        ensures
            timeout is Infinite,
    {
        Timeout::Infinite
    }
}

/// The shorter of two timeouts; an unbounded wait is longer than every other.
pub open spec fn sooner(a: Timeout, b: Timeout) -> Timeout {
    match (a, b) {
        (Timeout::Infinite, _) => b,
        (_, Timeout::Infinite) => a,
        (Timeout::After(x), Timeout::After(y)) => Timeout::After(shorter(x, y)),
    }
}

impl Timeout {
    /// A timeout from an optional span: `None` waits forever.
    pub fn from_option(duration: Option<Duration>) -> (timeout: Timeout)
        ensures
            timeout == (match duration {
                Some(d) => Timeout::After(d),
                None => Timeout::Infinite,
            }),
    {
        match duration {
            Some(d) => Timeout::After(d),
            None => Timeout::Infinite,
        }
    }

    /// `true` if this timeout never fires.
    pub fn is_infinite(self) -> (infinite: bool)
        ensures
            infinite == (self is Infinite),
    {
        matches!(self, Timeout::Infinite)
    }

    /// `true` if this is a finite timeout of no length.
    pub fn is_immediate(self) -> (immediate: bool)
        ensures
            immediate == (self == Timeout::After(Duration { nanos: 0 })),
    {
        match self {
            Timeout::After(d) => d.nanos == 0,
            Timeout::Infinite => false,
        }
    }

    /// The finite span, or `None` when unbounded.
    pub fn as_duration(self) -> (duration: Option<Duration>)
        ensures
            duration == (match self {
                Timeout::Infinite => None,
                Timeout::After(d) => Some(d),
            }),
    {
        match self {
            Timeout::Infinite => None,
            Timeout::After(d) => Some(d),
        }
    }

    /// The shorter of two timeouts (an unbounded one is the longest).
    pub fn min(self, other: Timeout) -> (timeout: Timeout)
        ensures
            timeout == sooner(self, other),
    {
        match (self, other) {
            (Timeout::Infinite, o) => o,
            (s, Timeout::Infinite) => s,
            (Timeout::After(a), Timeout::After(b)) => Timeout::After(a.min(b)),
        }
    }
}

/// A span of whole ticks that fits a `u64` of nanoseconds comes back unchanged from
/// its tick count.
pub proof fn law_ticks_round_trip(duration: Duration)
    requires
        duration.nanos % 100 == 0,
        duration.nanos <= u64::MAX,
    ensures
        span_of(ticks_of(duration)) == duration,
{
}

/// Going `duration` forward and measuring the way back recovers `duration`, and
/// measuring in the other direction gives nothing. This holds for spans of whole
/// ticks that fit a `u64` of nanoseconds, as long as the end is an instant there is.
pub proof fn law_later_then_elapsed(at: Timestamp, duration: Duration)
    requires
        duration.nanos % 100 == 0,
        duration.nanos <= u64::MAX,
        at.0 + duration.nanos / 100 <= i64::MAX,
    ensures
        elapsed_between(at, later_by(at, duration)) == duration,
        elapsed_between(later_by(at, duration), at).nanos == 0,
{
}

/// Adding a span never moves an instant backwards, and a longer span never ends
/// sooner.
pub proof fn law_later_is_monotone(at: Timestamp, a: Duration, b: Duration)
    requires
        a.nanos <= b.nanos,
    ensures
        at.0 <= later_by(at, a).0 <= later_by(at, b).0,
{
    assert(a.nanos as int / 100 <= b.nanos as int / 100);
}

/// Taking the shorter of two timeouts does not depend on their order, and an
/// unbounded timeout changes nothing.
pub proof fn law_sooner_treats_infinite_as_longest(a: Timeout, b: Timeout)
    ensures
        sooner(a, b) == sooner(b, a),
        sooner(a, Timeout::Infinite) == a,
        sooner(Timeout::Infinite, a) == a,
{
}

/// Going a span forward from an instant lands as many whole ticks of a hundred nanoseconds
/// later, or on the last instant there is; measuring the way from one instant to a later one
/// gives it back in nanoseconds, as far as a `u64` of them reaches, and nothing from a later
/// one to an earlier one. The span is one whose ticks can be counted.
pub proof fn law_instants_are_counted_in_ticks(
    at: Timestamp,
    other: Timestamp,
    span: Duration,
    end: Timestamp,
    measured: Duration,
    before: bool,
)
    ensures
        call_ensures(Timestamp::saturating_add, (at, span), end) && span.nanos as int / 100
            <= i64::MAX ==> {
            &&& at.0 + span.nanos as int / 100 <= i64::MAX ==> end.0 == at.0 + span.nanos as int
                / 100
            &&& at.0 + span.nanos as int / 100 > i64::MAX ==> end.0 == i64::MAX
        },
        call_ensures(Timestamp::saturating_duration_since, (other, at), measured) ==> {
            &&& other.0 <= at.0 ==> measured.nanos == 0
            &&& 0 <= other.0 - at.0 <= u64::MAX / 100 ==> measured.nanos == (other.0 - at.0) * 100
        },
        call_ensures(Timestamp::is_before, (at, other), before) ==> before == (at.0 < other.0),
{
}

/// The shorter of two waits is one of them, and ends no later than either; only if both are
/// unbounded is it unbounded. The longer and the shorter of two spans are one of them each, and
/// hold the other between them.
pub proof fn law_the_shorter_wait_wins(
    a: Timeout,
    b: Timeout,
    wait: Timeout,
    x: Duration,
    y: Duration,
    least: Duration,
    most: Duration,
)
    ensures
        call_ensures(Timeout::min, (a, b), wait) ==> {
            &&& wait == a || wait == b
            &&& a matches Timeout::After(d) ==> (wait matches Timeout::After(w) && w.nanos
                <= d.nanos)
            &&& b matches Timeout::After(d) ==> (wait matches Timeout::After(w) && w.nanos
                <= d.nanos)
        },
        call_ensures(Duration::min, (x, y), least) && call_ensures(Duration::max, (x, y), most)
            ==> {
            &&& least == x && most == y || least == y && most == x
            &&& least.nanos <= most.nanos
        },
{
}

/// A timeout made of an optional span gives it back; no span is an unbounded wait, and only an
/// empty one is none at all.
pub proof fn law_timeout_is_its_span(
    span: Option<Duration>,
    timeout: Timeout,
    back: Option<Duration>,
    infinite: bool,
    immediate: bool,
)
    requires
        call_ensures(Timeout::from_option, (span,), timeout),
        call_ensures(Timeout::as_duration, (timeout,), back),
        call_ensures(Timeout::is_infinite, (timeout,), infinite),
        call_ensures(Timeout::is_immediate, (timeout,), immediate),
    ensures
        back == span,
        infinite <==> span is None,
        immediate <==> (span matches Some(d) && d.nanos == 0),
{
}

/// A clock that is set shows what it was set to, and one that is moved forward by a span that its
/// ticks can count shows an instant that much later.
pub proof fn law_manual_clock_moves_as_told(
    moved: &mut ManualClock,
    span: Duration,
    placed: &mut ManualClock,
    at: Timestamp,
)
    requires
        call_ensures(ManualClock::advance, (moved, span), ()),
        call_ensures(ManualClock::set, (placed, at), ()),
        old(moved).at.0 + span.nanos as int / 100 <= i64::MAX,
        span.nanos as int / 100 <= i64::MAX,
    ensures
        final(moved).at.0 == old(moved).at.0 + span.nanos as int / 100,
        final(placed).at == at,
{
}

/// Seconds, milliseconds and microseconds are a thousand of the next smaller each, down to the
/// nanoseconds that a span is counted in.
pub proof fn law_units_are_thousands(
    n: u64,
    secs: Duration,
    millis: Duration,
    micros: Duration,
    nanos: Duration,
    whole: u128,
)
    requires
        call_ensures(Duration::from_secs, (n,), secs),
        call_ensures(Duration::from_millis, (n,), millis),
        call_ensures(Duration::from_micros, (n,), micros),
        call_ensures(Duration::from_nanos, (n as u128,), nanos),
        call_ensures(Duration::as_millis, (millis,), whole),
    ensures
        nanos.nanos == n,
        micros.nanos == 1000 * nanos.nanos,
        millis.nanos == 1000 * micros.nanos,
        secs.nanos == 1000 * millis.nanos,
        whole == n,
{
}

} // verus!
