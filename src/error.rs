//! Why an operation was refused.

use vstd::prelude::*;

verus! {

/// The reasons an operation fails. Every failure aborts the whole operation.
#[derive(Clone, Copy, Debug, PartialEq, Eq, Structural)]
pub enum StealthError {
    /// A missing signature, a mismatched key or owner, or a record in the
    /// wrong state.
    InvalidArgument,
    /// The stealth record is not at the address derived from its mint.
    InvalidStealthKey,
    /// The key registration is not at the address derived from its wallet
    /// and mint.
    InvalidElgamalPubkeyPDA,
    /// The metadata record is not at the address derived from its mint.
    InvalidMetadataKey,
    /// The signer is not the metadata's update authority, or the mint's
    /// authority differs from it.
    InvalidUpdateAuthority,
    /// The metadata can no longer be changed.
    MetadataIsImmutable,
    /// The mint is not a single indivisible unit, or is not the metadata's.
    InvalidMintInfo,
    /// The token account does not hold the collectible as required.
    InvalidTokenAccountInfo,
    /// The record's leading discriminator is not the one expected.
    InvalidAccountData,
    /// A record is to be created at an address already in use.
    AccountAlreadyInUse,
    /// The payer cannot fund a new record.
    InsufficientFunds,
    /// A balance or share computation left its range.
    Overflow,
    /// The equality proof, or the delegated computation, did not verify.
    ProofVerificationError,
}

} // verus!
