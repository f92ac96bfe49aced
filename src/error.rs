use vstd::prelude::*;

verus! {

/// Every way an operation can fail. A failed operation changes no record.
#[derive(Clone, Copy, Debug, PartialEq, Eq, Structural)]
pub enum ErrorCode {
    /// The package is not in the status that the operation starts from.
    InvalidPackageStatus,
    /// The carrier's reputation is below the acceptance threshold.
    InsufficientReputation,
    /// The signer is not the authority that the record is bound to.
    Unauthorized,
    /// A package dimension is zero.
    InvalidDimensions,
    /// A package price is zero.
    InvalidPrice,
    /// The escrow holds less than a payout needs.
    InsufficientEscrowBalance,
    /// The escrow is not in the status, or not linked to the parties, that the operation needs.
    InvalidEscrowAccount,
    /// The platform record already exists.
    AlreadyInitialized,
    /// A fee rate above 10000 basis points.
    InvalidFeeRate,
    /// An initial reputation above 100.
    InvalidReputation,
    /// A token amount that the operation cannot take.
    InvalidAmount,
    /// A custody holder holds less than a transfer needs.
    InsufficientBalance,
    /// An asset type that the platform does not accept.
    TokenNotAllowed,
    /// A counter, fee or reputation computation left its integer range.
    ArithmeticOverflow,
}

} // verus!
