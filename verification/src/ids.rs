//! Account identities.

use vstd::prelude::*;

verus! {

/// Handle of an account on the ledger. Creators, tippers, buyers, the
/// treasury, and the collectible accounts (mint, metadata, master edition)
/// are all referred to by such handles; the logic only ever compares them
/// for equality.
#[derive(Clone, Copy, PartialEq, Eq, Structural, Debug)]
pub struct AccountId {
    pub key: u64,
}

impl AccountId {
    /// The reserved handle that stands for "no account". A fresh event has
    /// it as highest tipper until the first tip is recorded.
    pub open spec fn is_unset(self) -> bool {
        self.key == 0
    }

    /// The "no account" handle itself.
    pub fn unset() -> (r: AccountId)
        ensures
            r.is_unset(),
    {
        AccountId { key: 0 }
    }
}

} // verus!
