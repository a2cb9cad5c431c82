//! The failures that a profile operation can report.

use vstd::prelude::*;

verus! {

/// Why a profile operation was refused. A refused operation has written
/// nothing.
#[derive(Debug, Clone, Copy, PartialEq, Eq, Structural)]
pub enum ProfileError {
    /// An owner-only operation was attempted by an account other than the
    /// owner.
    Unauthorized,
    /// A profile was to be created in a slot that already holds one.
    AlreadyInitialized,
}

impl ProfileError {
    /// The text shown to a caller for this failure.
    pub open spec fn spec_message(self) -> Seq<char> {
        match self {
            ProfileError::Unauthorized => "Owner's method"@,
            ProfileError::AlreadyInitialized => "The contract has already been initialized"@,
        }
    }

    /// Returns the text shown to a caller for this failure.
    pub fn message(&self) -> (text: String)
        ensures
            text@ == self.spec_message(),
    {
        match self {
            ProfileError::Unauthorized => "Owner's method".to_owned(),
            ProfileError::AlreadyInitialized => "The contract has already been initialized".to_owned(),
        }
    }
}

} // verus!
