use vstd::prelude::*;

verus! {

/// Every way an instruction of the registry can fail.
#[derive(Clone, Copy, Debug, PartialEq, Eq, Structural)]
pub enum ErrorCode {
    UnauthorizedAdmin,
    UnauthorizedVerifier,
    InvalidPrefixFormat,
    PrefixAlreadyExists,
    InvalidPrefixStatus,
    InsufficientFee,
    InvalidMetadataHashLength,
    InvalidMetadataUri,
    InvalidTreasuryAccount,
    InsufficientTreasuryBalance,
    RefundNotAllowed,
    UnauthorizedOwnerAction,
    MissingBump,
    FeeOperationsPaused,
    PrefixExpired,
    AuthorityKeysTooMany,
    InvalidEd25519Signature,
}

} // verus!
