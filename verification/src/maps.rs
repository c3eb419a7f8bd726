//! The concurrent maps the cache keeps its state in, each with a name for what it
//! holds.
//!
//! A `dashmap::DashMap` locks one shard at a time and hands out guards; here every
//! call has the map to itself (`&mut` where it changes) and takes or returns owned
//! values, so no guard outlives a call.
use crate::distributed::StoredBytes;
use crate::distributed_lock::Held;
use crate::recovery::Pending;
use crate::time::Timestamp;
use dashmap::DashMap;
use vstd::prelude::*;

verus! {

/// `dashmap::DashMap`, opaque but for the names below.
#[verifier::external_type_specification]
#[verifier::external_body]
#[verifier::reject_recursive_types(K)]
#[verifier::reject_recursive_types(V)]
#[verifier::reject_recursive_types(S)]
pub struct ExDashMap<K, V, S>(DashMap<K, V, S>);

// ---- tag markers: the tick at which each tag was last invalidated ----

/// What a map of tag markers holds.
pub uninterp spec fn markers_in(map: DashMap<String, i64>) -> Map<Seq<char>, i64>;

/// `DashMap::new`: a map that holds nothing.
#[verifier::external_body]
pub(crate) fn new_markers() -> (map: DashMap<String, i64>)
    ensures
        (markers_in(map) == Map::<Seq<char>, i64>::empty()),
{
    DashMap::new()
}

/// `DashMap::get`, copying the value out: the value under `key`, if there is one.
#[verifier::external_body]
pub(crate) fn get_marker(map: &DashMap<String, i64>, key: &str) -> (value: Option<i64>)
    ensures
        match value {
            Some(v) => markers_in(*map).contains_key(key@) && v == markers_in(*map)[key@],
            None => !markers_in(*map).contains_key(key@),
        },
{
    map.get(key).map(|found| *found.value())
}

/// `DashMap::insert`: `key` leads to `value` from now on, every other key to what it
/// led to before.
#[verifier::external_body]
pub(crate) fn put_marker(map: &mut DashMap<String, i64>, key: String, value: i64)
    ensures
        markers_in(*final(map)) == markers_in(*old(map)).insert(key@, value),
{
    map.insert(key, value);
}

// ---- the recovery queue: the pending operation of each key ----

/// What a recovery queue holds.
pub uninterp spec fn pending_in(map: DashMap<String, Pending>) -> Map<Seq<char>, Pending>;

/// `DashMap::new`: a map that holds nothing.
#[verifier::external_body]
pub(crate) fn new_pending() -> (map: DashMap<String, Pending>)
    ensures
        (pending_in(map) == Map::<Seq<char>, Pending>::empty()),
{
    DashMap::new()
}

/// `DashMap::get`, copying the value out: the value under `key`, if there is one.
#[verifier::external_body]
pub(crate) fn get_pending(map: &DashMap<String, Pending>, key: &str) -> (value: Option<Pending>)
    ensures
        match value {
            Some(v) => pending_in(*map).contains_key(key@) && v == pending_in(*map)[key@],
            None => !pending_in(*map).contains_key(key@),
        },
{
    map.get(key).map(|found| *found.value())
}

/// `DashMap::insert`: `key` leads to `value` from now on, every other key to what it
/// led to before.
#[verifier::external_body]
pub(crate) fn put_pending(map: &mut DashMap<String, Pending>, key: String, value: Pending)
    ensures
        pending_in(*final(map)) == pending_in(*old(map)).insert(key@, value),
{
    map.insert(key, value);
}

/// `DashMap::remove`: nothing is left under `key`, every other key is untouched.
#[verifier::external_body]
pub(crate) fn remove_pending(map: &mut DashMap<String, Pending>, key: &str)
    ensures
        pending_in(*final(map)) == pending_in(*old(map)).remove(key@),
{
    map.remove(key);
}

/// Whether a map has finitely many keys, `count` of them.
pub open spec fn has_keys(map: Map<Seq<char>, Pending>, count: usize) -> bool {
    map.dom().finite() && map.dom().len() == count
}

/// `DashMap::len`: the number of keys, of which there are finitely many.
#[verifier::external_body]
pub(crate) fn count_pending(map: &DashMap<String, Pending>) -> (count: usize)
    ensures
        has_keys(pending_in(*map), count),
{
    map.len()
}

/// `DashMap::iter`, cloning each key: every key once, in no particular order.
#[verifier::external_body]
pub(crate) fn pending_keys(map: &DashMap<String, Pending>) -> (keys: Vec<String>)
    ensures
        forall|i: int|
            0 <= i < keys@.len() ==> pending_in(*map).contains_key(#[trigger] keys@[i]@),
        forall|key: Seq<char>| #[trigger]
            pending_in(*map).contains_key(key) ==> exists|i: int|
                0 <= i < keys@.len() && #[trigger] keys@[i]@ == key,
        forall|i: int, j: int|
            0 <= i < j < keys@.len() ==> #[trigger] keys@[i]@ != #[trigger] keys@[j]@,
{
    map.iter().map(|item| item.key().clone()).collect()
}

// ---- the in-memory distributed cache: stored bytes with their expiry ----

/// What an in-memory distributed cache holds.
pub uninterp spec fn bytes_in(map: DashMap<String, StoredBytes>) -> Map<
    Seq<char>,
    (Seq<u8>, Option<Timestamp>),
>;

/// `DashMap::new`: a map that holds nothing.
#[verifier::external_body]
pub(crate) fn new_bytes() -> (map: DashMap<String, StoredBytes>)
    ensures
        (bytes_in(map) == Map::<Seq<char>, (Seq<u8>, Option<Timestamp>)>::empty()),
{
    DashMap::new()
}

/// `DashMap::get`, cloning the value out: the value under `key`, if there is one.
#[verifier::external_body]
pub(crate) fn get_bytes(map: &DashMap<String, StoredBytes>, key: &str) -> (value: Option<
    StoredBytes,
>)
    ensures
        match value {
            Some(v) => bytes_in(*map).contains_key(key@) && (v.bytes@, v.expires_at)
                == bytes_in(*map)[key@],
            None => !bytes_in(*map).contains_key(key@),
        },
{
    map.get(key).map(|found| found.value().clone())
}

/// `DashMap::insert`: `key` leads to `value` from now on, every other key to what it
/// led to before.
#[verifier::external_body]
pub(crate) fn put_bytes(map: &mut DashMap<String, StoredBytes>, key: String, value: StoredBytes)
    ensures
        bytes_in(*final(map)) == bytes_in(*old(map)).insert(
            key@,
            (value.bytes@, value.expires_at),
        ),
{
    map.insert(key, value);
}

/// `DashMap::remove`: nothing is left under `key`, every other key is untouched.
#[verifier::external_body]
pub(crate) fn remove_bytes(map: &mut DashMap<String, StoredBytes>, key: &str)
    ensures
        bytes_in(*final(map)) == bytes_in(*old(map)).remove(key@),
{
    map.remove(key);
}

// ---- the in-process locker: who holds each lock, and until when ----

/// What a table of held locks holds.
pub uninterp spec fn holders_in(map: DashMap<String, Held>) -> Map<
    Seq<char>,
    (Seq<char>, Timestamp),
>;

/// `DashMap::new`: a map that holds nothing.
#[verifier::external_body]
pub(crate) fn new_holders() -> (map: DashMap<String, Held>)
    ensures
        (holders_in(map) == Map::<Seq<char>, (Seq<char>, Timestamp)>::empty()),
{
    DashMap::new()
}

/// `DashMap::get`, cloning the value out: the value under `key`, if there is one.
#[verifier::external_body]
pub(crate) fn get_holder(map: &DashMap<String, Held>, key: &str) -> (value: Option<Held>)
    ensures
        match value {
            Some(v) => holders_in(*map).contains_key(key@) && (v.token@, v.expires_at)
                == holders_in(*map)[key@],
            None => !holders_in(*map).contains_key(key@),
        },
{
    map.get(key).map(|found| found.value().clone())
}

/// `DashMap::insert`: `key` leads to `value` from now on, every other key to what it
/// led to before.
#[verifier::external_body]
pub(crate) fn put_holder(map: &mut DashMap<String, Held>, key: String, value: Held)
    ensures
        holders_in(*final(map)) == holders_in(*old(map)).insert(
            key@,
            (value.token@, value.expires_at),
        ),
{
    map.insert(key, value);
}

/// `DashMap::remove`: nothing is left under `key`, every other key is untouched.
#[verifier::external_body]
pub(crate) fn remove_holder(map: &mut DashMap<String, Held>, key: &str)
    ensures
        holders_in(*final(map)) == holders_in(*old(map)).remove(key@),
{
    map.remove(key);
}

} // verus!
