//! Cross-node single flight: a lock per key, held by whoever knows its token.
use crate::maps::{get_holder, holders_in, new_holders, put_holder, remove_holder};
use crate::text::{
    hex, law_hex_tells_numbers_apart, lemma_hex_holds_a_word, lemma_hex_len, push_hex,
};
use crate::time::{later_by, Duration, Timeout, Timestamp};
use dashmap::DashMap;
use vstd::prelude::*;

verus! {

/// Who holds a lock, and until when.
#[derive(Debug)]
pub struct Held {
    /// The holder's token.
    pub token: String,
    /// When the lock falls free by itself.
    pub expires_at: Timestamp,
}

impl Clone for Held {
    fn clone(&self) -> (copy: Self)
        ensures
            copy == *self,
    {
        Held { token: self.token.clone(), expires_at: self.expires_at }
    }
}

/// An in-process lock table.
#[derive(Debug)]
pub struct InMemoryDistributedLocker {
    locks: DashMap<String, Held>,
}

impl View for InMemoryDistributedLocker {
    type V = Map<Seq<char>, (Seq<char>, Timestamp)>;

    closed spec fn view(&self) -> Map<Seq<char>, (Seq<char>, Timestamp)> {
        holders_in(self.locks)
    }
}

/// Whether the lock for `key` is held at `now`.
pub open spec fn is_held(
    locks: Map<Seq<char>, (Seq<char>, Timestamp)>,
    key: Seq<char>,
    now: Timestamp,
) -> bool {
    locks.contains_key(key) && now.0 < locks[key].1.0
}

/// A lock table after `token` was let go for `key`: only the lock it holds falls free.
pub open spec fn released(
    locks: Map<Seq<char>, (Seq<char>, Timestamp)>,
    key: Seq<char>,
    token: Seq<char>,
) -> Map<Seq<char>, (Seq<char>, Timestamp)> {
    if locks.contains_key(key) && locks[key].0 == token {
        locks.remove(key)
    } else {
        locks
    }
}

/// The token made of two random numbers.
pub open spec fn token_of(high: u64, low: u64) -> Seq<char> {
    hex(high as nat, 16) + hex(low as nat, 16)
}

/// `fastrand::u64` on the full range: a random number, of which nothing is claimed.
#[verifier::external_body]
fn random_u64() -> u64 {
    fastrand::u64(..)
}

/// The token made of two random numbers: thirty-two hexadecimal digits.
pub fn token_from(high: u64, low: u64) -> (token: String)
    ensures
        token@ == token_of(high, low),
{
    let mut token = String::new();
    push_hex(&mut token, high);
    push_hex(&mut token, low);
    assert(token@ =~= token_of(high, low));
    token
}

/// Whether `number` is what a random draw gave.
pub closed spec fn is_drawn(number: u64) -> bool {
    call_ensures(random_u64, (), number)
}

/// Draws a random number.
pub(crate) fn draw() -> (number: u64)
    ensures
        is_drawn(number),
{
    random_u64()
}

/// Whether `token` is made of two numbers that were drawn.
pub open spec fn is_drawn_token(token: Seq<char>) -> bool {
    exists|high: u64, low: u64|
        is_drawn(high) && is_drawn(low) && token == #[trigger] token_of(high, low)
}

/// A random token.
pub fn new_token() -> (token: String)
    ensures
        is_drawn_token(token@),
{
    let high: u64 = draw();
    let low: u64 = draw();
    token_from(high, low)
}

impl InMemoryDistributedLocker {
    /// A table in which no lock is held.
    pub fn new() -> (locker: Self)
        ensures
            locker@ == Map::<Seq<char>, (Seq<char>, Timestamp)>::empty(),
    {
        InMemoryDistributedLocker { locks: new_holders() }
    }

    /// `true` if nobody holds the lock for `key` at `now`.
    pub fn is_free(&self, key: &str, now: Timestamp) -> (free: bool)
        ensures
            free == !is_held(self@, key@, now),
    {
        match get_holder(&self.locks, key) {
            Some(held) => !now.is_before(held.expires_at),
            None => true,
        }
    }

    /// Takes the lock for `key` with the given token if nobody holds it at `now`. Returns
    /// whether it was taken.
    pub fn try_with(
        &mut self,
        key: &str,
        token: &String,
        ttl: Duration,
        now: Timestamp,
    ) -> (taken: bool)
        ensures
            taken == !is_held(old(self)@, key@, now),
            final(self)@ == (if taken {
                old(self)@.insert(key@, (token@, later_by(now, ttl)))
            } else {
                old(self)@
            }),
    {
        if !self.is_free(key, now) {
            return false;
        }
        put_holder(
            &mut self.locks,
            String::from_str(key),
            Held { token: token.clone(), expires_at: now.saturating_add(ttl) },
        );
        true
    }

    /// Makes one attempt to take the lock for `key`, with a random token.
    pub fn try_once(&mut self, key: &str, ttl: Duration, now: Timestamp) -> (token: Option<String>)
        ensures
            token is None <==> is_held(old(self)@, key@, now),
            match token {
                Some(t) => final(self)@ == old(self)@.insert(key@, (t@, later_by(now, ttl)))
                    && is_drawn_token(t@),
                None => final(self)@ == old(self)@,
            },
    {
        if !self.is_free(key, now) {
            return None;
        }
        let token = new_token();
        self.try_with(key, &token, ttl, now);
        Some(token)
    }

    /// Lets the lock for `key` go if `token` holds it; does nothing otherwise.
    pub fn release(&mut self, key: &str, token: &str)
        ensures
            final(self)@ == released(old(self)@, key@, token@),
    {
        match get_holder(&self.locks, key) {
            Some(held) => if held.token == String::from_str(token) {
                remove_holder(&mut self.locks, key);
            },
            None => {},
        }
    }
}

/// What to do after one attempt at a lock.
#[derive(Debug, Clone, PartialEq, Eq)]
pub enum LockAttempt {
    /// The lock is held with this token.
    Acquired(String),
    /// The wait is over; go on without the lock.
    GaveUp,
    /// Try again a little later.
    Retry,
}

/// What follows one attempt that has (`token`) or has not succeeded, when `waited` of
/// the allowed wait is over: a finite wait ends once its span has passed.
pub fn after_attempt(
    token: Option<String>,
    waited: Duration,
    timeout: Timeout,
) -> (next: LockAttempt)
    ensures
        next == (match token {
            Some(t) => LockAttempt::Acquired(t),
            None => match timeout {
                Timeout::After(d) => if waited.nanos >= d.nanos {
                    LockAttempt::GaveUp
                } else {
                    LockAttempt::Retry
                },
                Timeout::Infinite => LockAttempt::Retry,
            },
        }),
{
    match token {
        Some(t) => LockAttempt::Acquired(t),
        None => match timeout {
            Timeout::After(d) => if waited.as_nanos() >= d.as_nanos() {
                LockAttempt::GaveUp
            } else {
                LockAttempt::Retry
            },
            Timeout::Infinite => LockAttempt::Retry,
        },
    }
}

/// Once taken, a lock stays with its holder until it is let go or its time is up: until
/// then no other attempt can succeed, and letting go with another token changes nothing.
pub proof fn law_lock_is_exclusive(
    locks: Map<Seq<char>, (Seq<char>, Timestamp)>,
    key: Seq<char>,
    token: Seq<char>,
    ttl: Duration,
    at: Timestamp,
    now: Timestamp,
    other_token: Seq<char>,
    other_key: Seq<char>,
)
    requires
        other_token != token,
    ensures
        ({
            let taken = locks.insert(key, (token, later_by(at, ttl)));
            &&& is_held(taken, key, now) == (now.0 < later_by(at, ttl).0)
            &&& released(taken, key, other_token) == taken
            &&& !is_held(released(taken, key, token), key, now)
            &&& other_key != key ==> is_held(released(taken, key, token), other_key, now)
                == is_held(locks, other_key, now)
        }),
{
}

/// A lock is taken exactly if nobody holds it, with the taker's token and until its time is up. It
/// stays taken until then, unless it is let go with that very token; letting go with another token,
/// or of another key, changes nothing.
pub proof fn law_lock_belongs_to_its_taker(
    taking: &mut InMemoryDistributedLocker,
    key: &str,
    ttl: Duration,
    at: Timestamp,
    token: Option<String>,
    later: &mut InMemoryDistributedLocker,
    other_ttl: Duration,
    now: Timestamp,
    other: Option<String>,
    letting: &mut InMemoryDistributedLocker,
    shown: &str,
)
    requires
        call_ensures(InMemoryDistributedLocker::try_once, (taking, key, ttl, at), token),
        call_ensures(InMemoryDistributedLocker::try_once, (later, key, other_ttl, now), other),
        call_ensures(InMemoryDistributedLocker::release, (letting, key, shown), ()),
    ensures
        token is Some <==> !(old(taking)@.contains_key(key@) && at.0 < old(taking)@[key@].1.0),
        token matches Some(mine) ==> final(taking)@.contains_key(key@) && final(taking)@[key@] == (
            mine@,
            later_by(at, ttl),
        ),
        token is None ==> final(taking)@ == old(taking)@,
        token is Some && old(later)@ == final(taking)@ ==> (other is Some <==> now.0 >= later_by(
            at,
            ttl,
        ).0),
        old(letting)@.contains_key(key@) && old(letting)@[key@].0 == shown@ ==> !final(
            letting
        )@.contains_key(key@),
        !(old(letting)@.contains_key(key@) && old(letting)@[key@].0 == shown@) ==> final(letting)@
            == old(letting)@,
        forall|k: Seq<char>|
            k != key@ ==> {
                &&& #[trigger] final(taking)@.contains_key(k) == old(taking)@.contains_key(k)
                &&& old(taking)@.contains_key(k) ==> final(taking)@[k] == old(taking)@[k]
                &&& final(letting)@.contains_key(k) == old(letting)@.contains_key(k)
                &&& old(letting)@.contains_key(k) ==> final(letting)@[k] == old(letting)@[k]
            },
{
}

/// A lock that is free is taken with the very token that was given, and one that is held is not.
pub proof fn law_free_lock_is_taken_with_the_given_token(
    locker: &mut InMemoryDistributedLocker,
    key: &str,
    token: String,
    ttl: Duration,
    now: Timestamp,
    free: bool,
    taken: bool,
)
    requires
        call_ensures(InMemoryDistributedLocker::is_free, (old(locker), key, now), free),
        call_ensures(InMemoryDistributedLocker::try_with, (locker, key, &token, ttl, now), taken),
    ensures
        taken <==> free,
        free <==> !(old(locker)@.contains_key(key@) && now.0 < old(locker)@[key@].1.0),
        taken ==> final(locker)@ == old(locker)@.insert(key@, (token@, later_by(now, ttl))),
        !taken ==> final(locker)@ == old(locker)@,
{
}

/// An attempt that succeeded ends the wait with its token. One that did not is repeated, without
/// end if the wait is unbounded, and otherwise until its span has passed.
pub proof fn law_attempts_go_on_until_the_wait_is_over(
    token: Option<String>,
    waited: Duration,
    timeout: Timeout,
    next: LockAttempt,
)
    requires
        call_ensures(after_attempt, (token, waited, timeout), next),
    ensures
        token matches Some(mine) ==> next == LockAttempt::Acquired(mine),
        token is None && timeout is Infinite ==> next is Retry,
        token is None ==> (timeout matches Timeout::After(span) ==> (next is GaveUp
            <==> waited.nanos >= span.nanos)),
        token is None ==> next is GaveUp || next is Retry,
{
}

/// Two tokens are the same only if they are made of the same numbers, and each has thirty-two
/// digits.
pub proof fn law_tokens_are_told_apart(
    high: u64,
    low: u64,
    token: String,
    other_high: u64,
    other_low: u64,
    other: String,
)
    requires
        call_ensures(token_from, (high, low), token),
        call_ensures(token_from, (other_high, other_low), other),
    ensures
        token@ == other@ <==> high == other_high && low == other_low,
        token@.len() == 32,
{
    lemma_hex_len(high as nat, 16);
    lemma_hex_len(low as nat, 16);
    lemma_hex_len(other_high as nat, 16);
    lemma_hex_len(other_low as nat, 16);
    if token@ == other@ {
        assert(token@.take(16) =~= hex(high as nat, 16));
        assert(other@.take(16) =~= hex(other_high as nat, 16));
        assert(token@.skip(16) =~= hex(low as nat, 16));
        assert(other@.skip(16) =~= hex(other_low as nat, 16));
        lemma_hex_holds_a_word();
        law_hex_tells_numbers_apart(high as nat, other_high as nat, 16);
        law_hex_tells_numbers_apart(low as nat, other_low as nat, 16);
    }
}

} // verus!
