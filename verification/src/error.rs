use vstd::prelude::*;

verus! {

/// Error raised while turning a request into chain operations: the caller
/// handed in something malformed and must fix it; nothing is retried.
#[derive(Clone, Copy, Debug, PartialEq, Eq, Structural)]
pub enum EncodingError {
    /// The destination list and the amount list have different lengths.
    LengthMismatch,
    /// The batch holds no transfer at all.
    EmptyBatch,
    /// An address string is not the base58 form of a 32-byte public key.
    MalformedAddress,
    /// No vote account was available to pick a validator from.
    NoVoteAccounts,
    /// Account data did not parse as a token account.
    InvalidAccountData,
    /// The signer set handed to transaction signing does not cover every
    /// required signer.
    MissingSigner,
}

} // verus!
