//! The mathematical model of the container: its slot, as an `Option`.
//!
//! `Some(v)` is the occupied slot holding `v`, `None` the empty one. Each
//! operation of the container is described here as a function on slots, and
//! the contracts of the executable methods are stated through these functions.

use crate::error::EmptyOwnerError;
use vstd::prelude::*;

verus! {

/// The slot of a freshly constructed container: occupied by `initial`.
pub open spec fn constructed<K>(initial: K) -> Option<K> {
    Some(initial)
}

/// The value that an occupied slot holds.
pub open spec fn held<K>(slot: Option<K>) -> K
    recommends
        slot is Some,
{
    slot->0
}

/// What taking from `slot` hands to the caller: the value of an occupied slot,
/// the error for an empty one.
pub open spec fn taken<K>(slot: Option<K>) -> Result<K, EmptyOwnerError> {
    match slot {
        Some(value) => Ok(value),
        None => Err(EmptyOwnerError),
    }
}

/// The slot after a take, successful or not: empty.
pub open spec fn after_take<K>(slot: Option<K>) -> Option<K> {
    None
}

/// The slot after `value` has been put in: occupied by `value`, whatever it
/// held before.
pub open spec fn after_replace<K>(slot: Option<K>, value: K) -> Option<K> {
    Some(value)
}

/// Whether running `f` on the held value can lead from the slot `before` to
/// the slot `after`: `before` is occupied, and `after` is occupied by a value
/// that `f` may give back for the value that `before` held.
pub open spec fn transformed<K, F: FnOnce(K) -> K>(
    f: F,
    before: Option<K>,
    after: Option<K>,
) -> bool {
    &&& before is Some
    &&& after is Some
    &&& call_ensures(f, (held(before),), held(after))
}

} // verus!
