//! Laws of the take-and-replace protocol, proved over the slot model.
//!
//! Each law speaks of slots and of the functions of [`crate::slot`], through
//! which the contracts of the container's methods are stated, so each one
//! carries over to any sequence of calls on a [`crate::NiceOwner`].

use crate::error::EmptyOwnerError;
use crate::slot::{after_replace, after_take, constructed, held, taken, transformed};
use vstd::prelude::*;

verus! {

/// Taking from a freshly constructed container yields the value it was
/// constructed with.
pub proof fn lemma_construct_then_take<K>(initial: K)
    ensures
        taken(constructed(initial)) == Ok::<K, EmptyOwnerError>(initial),
{
}

/// Reading a freshly constructed container yields the value it was
/// constructed with, unchanged.
pub proof fn lemma_construct_then_read<K>(initial: K)
    ensures
        constructed(initial) is Some,
        held(constructed(initial)) == initial,
{
}

/// Of two takes in a row, the first yields the held value if there is one,
/// and the second fails whatever the slot was at the start.
pub proof fn lemma_take_twice<K>(slot: Option<K>)
    ensures
        slot is Some ==> taken(slot) == Ok::<K, EmptyOwnerError>(held(slot)),
        taken(after_take(slot)) == Err::<K, EmptyOwnerError>(EmptyOwnerError),
{
}

/// A take that fails leaves the slot as it was.
pub proof fn lemma_failed_take_changes_nothing<K>(slot: Option<K>)
    requires
        taken(slot) is Err,
    ensures
        after_take(slot) == slot,
{
}

/// After a take, a replace makes the next take yield the value that was put
/// in.
pub proof fn lemma_take_replace_take<K>(slot: Option<K>, value: K)
    ensures
        taken(after_replace(after_take(slot), value)) == Ok::<K, EmptyOwnerError>(value),
{
}

/// Of two replaces in a row with no take between them, only the second one
/// counts: the next take yields the second value, and the slot is the one
/// that the second replace alone would have left.
pub proof fn lemma_replace_twice<K>(slot: Option<K>, first: K, second: K)
    ensures
        taken(after_replace(after_replace(slot, first), second)) == Ok::<K, EmptyOwnerError>(
            second,
        ),
        after_replace(after_replace(slot, first), second) == after_replace(slot, second),
{
}

/// Taking the value and putting the same value back restores the slot.
pub proof fn lemma_take_then_replace_round_trip<K>(slot: Option<K>)
    requires
        slot is Some,
    ensures
        after_replace(after_take(slot), held(slot)) == slot,
{
}

/// Running a function that gives its argument back unchanged leaves the
/// slot as it was.
pub proof fn lemma_identity_callback_changes_nothing<K, F: FnOnce(K) -> K>(
    f: F,
    before: Option<K>,
    after: Option<K>,
)
    requires
        forall|given: K, back: K| call_ensures(f, (given,), back) ==> back == given,
        transformed(f, before, after),
    ensures
        after == before,
{
}

/// Running a function never starts from an empty slot: there is no slot that
/// it could lead to from there.
pub proof fn lemma_callback_needs_a_value<K, F: FnOnce(K) -> K>(
    f: F,
    before: Option<K>,
    after: Option<K>,
)
    requires
        taken(before) is Err,
    ensures
        !transformed(f, before, after),
{
}

/// Running a function leads to the slot that taking the value, applying the
/// function and putting the result back leads to.
pub proof fn lemma_callback_is_take_then_replace<K, F: FnOnce(K) -> K>(
    f: F,
    before: Option<K>,
    after: Option<K>,
)
    requires
        transformed(f, before, after),
    ensures
        taken(before) == Ok::<K, EmptyOwnerError>(held(before)),
        call_ensures(f, (held(before),), held(after)),
        after == after_replace(after_take(before), held(after)),
{
}

} // verus!
