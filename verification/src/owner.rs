//! The container itself.

use crate::error::EmptyOwnerError;
use crate::slot::{after_replace, after_take, constructed, held, taken, transformed};
use vstd::prelude::*;

verus! {

/// An owner who lends out the value they hold: not only as a borrow, but to
/// be owned, until it is returned.
pub struct NiceOwner<K> {
    data: Option<K>,
}

impl<K> View for NiceOwner<K> {
    type V = Option<K>;

    /// The slot: `Some(v)` while `v` is held, `None` while the value is lent out.
    closed spec fn view(&self) -> Option<K> {
        self.data
    }
}

impl<K> NiceOwner<K> {
    /// Creates an owner that holds `data`.
    pub fn new(data: K) -> (owner: Self)
        ensures
            owner@ == constructed(data),
    {
        Self { data: Some(data) }
    }

    /// Whether the owner holds its value right now, that is, whether the
    /// value is not lent out.
    pub fn is_occupied(&self) -> (occupied: bool)
        ensures
            occupied == (self@ is Some),
    {
        self.data.is_some()
    }

    /// Hands the value out to be owned, leaving the slot empty.
    ///
    /// Fails, and changes nothing, if the value is already lent out and has
    /// not been returned.
    pub fn own(&mut self) -> (res: Result<K, EmptyOwnerError>)
        ensures
            res == taken(old(self)@),
            final(self)@ == after_take(old(self)@),
    {
        match self.data.take() {
            Some(value) => Ok(value),
            None => Err(EmptyOwnerError),
        }
    }

    /// Returns a value to the owner. A value that the owner still holds is
    /// dropped and replaced without notice.
    pub fn return_value(&mut self, value: K)
        ensures
            final(self)@ == after_replace(old(self)@, value),
    {
        self.data = Some(value);
    }

    /// Owns the value for the length of one call: hands it to `f` and keeps
    /// what `f` gives back.
    ///
    /// The owner must hold its value: there is nothing to hand to `f` while
    /// it is lent out.
    pub fn with(&mut self, f: impl FnOnce(K) -> K)
        requires
            old(self)@ is Some,
            call_requires(f, (held(old(self)@),)),
        ensures
            transformed(f, old(self)@, final(self)@),
    {
        let owned = self.own().unwrap();
        self.return_value(f(owned));
    }

    /// Read access to the value while the owner holds it.
    ///
    /// This is a method of the type and no impl of `core::ops::Deref`: the
    /// trait's method cannot demand that the owner hold its value.
    pub fn deref(&self) -> (value: &K)
        requires
            self@ is Some,
        ensures
            *value == held(self@),
    {
        self.data.as_ref().unwrap()
    }

    /// Write access to the value while the owner holds it: what is written
    /// through the reference is what the owner holds afterwards.
    pub fn deref_mut(&mut self) -> (value: &mut K)
        requires
            old(self)@ is Some,
        ensures
            *value == held(old(self)@),
            final(self)@ == after_replace(old(self)@, *final(value)),
    {
        self.data.as_mut().unwrap()
    }
}

} // verus!
