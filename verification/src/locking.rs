//! Single flight within a process: which lock of a bank guards a key.
//!
//! A bank holds a fixed number of locks. A key always belongs to the same one, so calls
//! for one key wait for each other. Keys that share a lock wait for each other too,
//! which costs time but changes no result.
use std::collections::hash_map::DefaultHasher;
use std::hash::Hasher;
use vstd::arithmetic::power2::pow2;
use vstd::prelude::*;
use vstd::std_specs::hash::DefaultHasherAdditionalSpecFns;
use vstd::utf8::encode_utf8;

verus! {

/// The layout of a bank of locks. The number of locks is a power of two.
#[derive(Debug, Clone, Copy)]
pub struct KeyedLock {
    mask: usize,
}

/// The hash of a key: its bytes, closed by a byte that no text holds.
pub open spec fn key_hash(key: Seq<char>) -> u64 {
    DefaultHasher::spec_finish(seq![encode_utf8(key), seq![0xffu8]])
}

impl KeyedLock {
    /// The number of locks in the bank.
    pub closed spec fn shards(self) -> nat {
        (self.mask + 1) as nat
    }

    #[verifier::type_invariant]
    spec fn is_power_of_two(self) -> bool {
        exists|n: nat| n < usize::BITS && self.mask + 1 == #[trigger] pow2(n)
    }

    /// The lock that guards a key.
    pub open spec fn guard_of(self, key: Seq<char>) -> int {
        (key_hash(key) as usize) as int % self.shards() as int
    }

    /// A bank of at least `shards` locks, and at least one, rounded up to a power of two.
    pub fn new(shards: usize) -> (bank: Self)
        requires
            shards <= usize::MAX / 2 + 1,
        ensures
            exists|n: nat| bank.shards() == #[trigger] pow2(n),
            bank.shards() >= shards,
            bank.shards() == 1 || bank.shards() < 2 * shards,
    {
        let mut count: usize = 1;
        let ghost mut n: nat = 0;
        proof {
            vstd::arithmetic::power2::lemma2_to64();
        }
        while count < shards
            invariant
                shards <= usize::MAX / 2 + 1,
                count == pow2(n),
                n < usize::BITS,
                1 <= count,
                count == 1 || count < 2 * shards,
            decreases 2 * shards - count,
        {
            proof {
                lemma_room_to_double(n);
                vstd::arithmetic::power2::lemma_pow2_unfold(n + 1);
                n = n + 1;
            }
            count = count * 2;
        }
        KeyedLock { mask: count - 1 }
    }

    /// The number of locks in the bank.
    pub fn len(&self) -> (count: usize)
        ensures
            count == self.shards(),
            count >= 1,
    {
        proof {
            use_type_invariant(self);
            let n = choose|n: nat| n < usize::BITS && self.mask + 1 == #[trigger] pow2(n);
            vstd::bits::lemma_usize_pow2_no_overflow(n);
        }
        self.mask + 1
    }

    /// The index of the lock that guards `key`: always the same for one key.
    pub fn shard_for(&self, key: &str) -> (index: usize)
        ensures
            index == self.guard_of(key@),
            index < self.shards(),
    {
        let mut hasher = DefaultHasher::new();
        hasher.write(key.as_bytes());
        let end: [u8; 1] = [0xff];
        hasher.write(&end);
        assert(end@ =~= seq![0xffu8]);
        assert(hasher@ =~= seq![encode_utf8(key@), seq![0xffu8]]);
        let hash: u64 = hasher.finish();
        let wide: usize = hash as usize;
        proof {
            use_type_invariant(self);
            let n = choose|n: nat| n < usize::BITS && self.mask + 1 == #[trigger] pow2(n);
            vstd::bits::lemma_usize_pow2_no_overflow(n);
            vstd::bits::lemma_usize_low_bits_mask_is_mod(wide, n);
        }
        wide & self.mask
    }
}

proof fn lemma_room_to_double(n: nat)
    requires
        n < usize::BITS,
        pow2(n) < usize::MAX / 2 + 1,
    ensures
        n + 1 < usize::BITS,
{
    vstd::arithmetic::power2::lemma2_to64();
    vstd::arithmetic::power2::lemma2_to64_rest();
    assert(usize::BITS == 32 || usize::BITS == 64);
}

impl Default for KeyedLock {
    fn default() -> (bank: Self)
        ensures
            bank.shards() == 1024,
    {
        proof {
            vstd::arithmetic::power2::lemma2_to64();
            assert(pow2(10) == 1024);
        }
        KeyedLock { mask: 1023 }
    }
}

/// A key always belongs to one and the same lock of a bank, and that is one the bank has.
pub proof fn law_key_has_one_lock(bank: KeyedLock, key: &str, first: usize, second: usize)
    requires
        call_ensures(KeyedLock::shard_for, (&bank, key), first),
        call_ensures(KeyedLock::shard_for, (&bank, key), second),
    ensures
        first == second,
        first < bank.shards(),
{
}

/// A bank has a power of two of locks: at least as many as were asked for, and fewer than twice as
/// many, but one in any case.
pub proof fn law_bank_has_enough_locks(shards: usize, bank: KeyedLock)
    requires
        shards <= usize::MAX / 2 + 1,
        call_ensures(KeyedLock::new, (shards,), bank),
    ensures
        exists|n: nat| bank.shards() == #[trigger] pow2(n),
        bank.shards() >= shards,
        bank.shards() == 1 || bank.shards() < 2 * shards,
{
}

} // verus!
