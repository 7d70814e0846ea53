//! The error kinds an admission can end in.
use vstd::prelude::*;

verus! {

/// Why an admission was turned down.
#[derive(Clone, Copy, Debug, PartialEq, Eq, Structural)]
pub enum Error {
    /// The acting user is a bot account.
    IsBot,
    /// The acting user already belongs to as many servers as allowed.
    QuotaExceeded,
    /// An identifier named nothing in the store.
    NotFound,
    /// The acting user already is a recipient of the group.
    AlreadyMember,
    /// The store could not answer.
    StoreUnavailable,
    /// The store answered with something that cannot be.
    Internal,
}

impl Error {
    /// Whether this is the kind a missing entity gives.
    pub fn is_not_found(&self) -> (b: bool)
        ensures
            b == (*self == Error::NotFound),
    {
        *self == Error::NotFound
    }
}

} // verus!
