//! A single-slot container that can hand out full ownership of the value it
//! holds and take it back later.
//!
//! A [`NiceOwner`] is built around one slot that is either occupied or empty.
//! [`NiceOwner::own`] moves the value out and leaves the slot empty;
//! [`NiceOwner::return_value`] moves a value in, whatever the slot held before.
//! Every operation is specified over the slot, viewed as an `Option`, by the
//! functions of [`slot`]; the algebraic laws that follow are proved in [`laws`].

pub mod error;
pub mod laws;
pub mod owner;
pub mod slot;

pub use error::EmptyOwnerError;
pub use owner::NiceOwner;
