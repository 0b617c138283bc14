//! The one way in which handing out the value can fail.

use vstd::prelude::*;

verus! {

/// Reported when the value is asked for while it is already lent out and has
/// not been returned yet.
#[derive(Debug, Clone, Copy, PartialEq, Eq, Hash, Structural)]
pub struct EmptyOwnerError;

impl EmptyOwnerError {
    /// The text that [`EmptyOwnerError::message`] returns.
    pub open spec fn message_text() -> Seq<char> {
        "Expected NiceOwner to own a value, but nothing was returned back."@
    }

    /// A sentence for a person to read, saying what went wrong.
    pub fn message(&self) -> (text: &'static str)
        ensures
            text@ == Self::message_text(),
    {
        "Expected NiceOwner to own a value, but nothing was returned back."
    }
}

} // verus!
