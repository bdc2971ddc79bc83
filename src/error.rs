//! Errors raised by the program's own checks.

use vstd::prelude::*;

verus! {

/// A failed check of the program itself (as opposed to a failure reported by
/// the token ledger or the metadata registry).
#[derive(Debug, Clone, Copy, PartialEq, Eq, Structural)]
pub enum ErrorCode {
    /// The caller is not the creator of the configuration it tries to edit.
    Unauthorized,
    /// The manager named by a mint-side operation is not the configuration's creator.
    InvalidNftManager,
    /// The collection record does not belong to the configuration.
    InvalidCollectionAuthority,
    /// The supplied collection mint is not the one recorded for the collection.
    InvalidCollectionMint,
    /// A member token id outside the collection's closed membership.
    InvalidTokenId,
    /// An account is not the one derived from its namespace tag and owner.
    AddressMismatch,
}

impl ErrorCode {
    /// The message shown to the caller for this error.
    pub open spec fn message_spec(self) -> Seq<char> {
        match self {
            ErrorCode::Unauthorized => "You are not authorized to perform this action."@,
            ErrorCode::InvalidNftManager => "Invalid nft manager."@,
            ErrorCode::InvalidCollectionAuthority => "Invalid collection authority."@,
            ErrorCode::InvalidCollectionMint => "Invalid collection mint."@,
            ErrorCode::InvalidTokenId => "Invalid token id."@,
            ErrorCode::AddressMismatch => "Derived key invalid."@,
        }
    }

    /// The message shown to the caller for this error.
    pub fn message(&self) -> (r: &'static str)
        ensures
            r@ == self.message_spec(),
    {
        match self {
            ErrorCode::Unauthorized => "You are not authorized to perform this action.",
            ErrorCode::InvalidNftManager => "Invalid nft manager.",
            ErrorCode::InvalidCollectionAuthority => "Invalid collection authority.",
            ErrorCode::InvalidCollectionMint => "Invalid collection mint.",
            ErrorCode::InvalidTokenId => "Invalid token id.",
            ErrorCode::AddressMismatch => "Derived key invalid.",
        }
    }
}

} // verus!
