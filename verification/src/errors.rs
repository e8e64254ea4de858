use vstd::prelude::*;

verus! {

/// Why a bridge operation was rejected.
///
/// Validation errors (`InvalidMint`, `InvalidOwner`, `OnlyOwner`) reject an
/// operation before any state changes.  State-conflict errors (`ActiveClaim`,
/// `AlreadyFinalized`, `RequestAlreadyFinalized`, `NoClaim`, `ClaimExpired`,
/// `DuplicateRequest`, `RequestNotFound`) reject based on the request's
/// current lifecycle position.  `MathOverflow` marks checked arithmetic that
/// would wrap.  `AbortedComputation` surfaces a failed confidential
/// computation inside the callback handler only.
#[derive(Clone, Copy, Debug, PartialEq, Eq, Structural)]
pub enum ErrorCode {
    /// The confidential computation reported a non-success outcome.
    AbortedComputation,
    /// No computation cluster is configured.
    ClusterNotSet,
    /// A token account's mint does not match the expected mint.
    InvalidMint,
    /// A token account's owner does not match the expected identity.
    InvalidOwner,
    /// The caller is not the configured owner/relayer.
    OnlyOwner,
    /// Settlement was attempted on a request that is already finalized.
    RequestAlreadyFinalized,
    /// A claim is still active and not yet expired.
    ActiveClaimNotExpired,
    /// A zero bond is never acceptable.
    ZeroBondNotAllowed,
    /// The bond on offer (or the configured minimum) is too low.
    BondTooLow,
    /// Another claim is still within its exclusive window.
    ActiveClaim,
    /// The operation needs an active claim, but none exists.
    NoClaim,
    /// The claim's exclusive window has passed.
    ClaimExpired,
    /// Checked arithmetic would overflow or underflow.
    MathOverflow,
    /// A claim was attempted on a request that is already finalized.
    AlreadyFinalized,
    /// The escrow does not hold enough to cover the requested release.
    InsufficientEscrowBalance,
    /// A request with this (payer, request id) key already exists.
    DuplicateRequest,
    /// No request with this (payer, request id) key exists.
    RequestNotFound,
}

} // verus!
