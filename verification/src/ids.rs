use vstd::prelude::*;

verus! {

/// An identity on the ledger: a wallet, a token mint, or a custodial
/// sub-account, reduced to an abstract numeric id.  The bridge's logic only
/// ever compares identities for equality and distinguishes the unset
/// identity, so a single number carries everything it reads.
#[derive(Clone, Copy, Debug, PartialEq, Eq, Structural)]
pub struct AccountId {
    pub id: u64,
}

/// The id that stands for the native (wrapped) asset's mint.
pub const NATIVE_MINT_ID: u64 = 1;

impl AccountId {
    /// The unset identity, recorded while a request has no solver.
    pub open spec fn is_absent(self) -> bool {
        self.id == 0
    }

    /// Returns the unset identity.
    pub fn absent() -> (r: AccountId)
        ensures
            r.is_absent(),
    {
        AccountId { id: 0 }
    }

    /// Returns the mint identity of the native (wrapped) asset.
    pub fn native_mint() -> (r: AccountId)
        ensures
            r.id == NATIVE_MINT_ID,
    {
        AccountId { id: NATIVE_MINT_ID }
    }
}

} // verus!
