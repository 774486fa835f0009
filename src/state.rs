//! The records this program keeps, and the checks made before every read of
//! one: its owner, its leading discriminator, and its derived address.

use vstd::prelude::*;
use solana_program::pubkey::Pubkey;
use crate::bytes::keys_equal;
use crate::error::StealthError;

verus! {

/// Domain tag of stealth records and key registrations: "stealth".
pub const PREFIX: [u8; 7] = [115, 116, 101, 97, 108, 116, 104];

/// Domain tag of transfer buffers: "transfer".
pub const TRANSFER: [u8; 8] = [116, 114, 97, 110, 115, 102, 101, 114];

/// The leading discriminator of a record.
#[derive(Clone, Copy, Debug, PartialEq, Eq, Structural)]
pub enum Key {
    Uninitialized,
    StealthAccountV1,
    CipherKeyTransferBufferV1,
    EncryptionKeyBufferV1,
}

/// How the token ecosystem keeps the issuer's interest while transfers run.
#[derive(Clone, Copy, Debug, PartialEq, Eq, Structural)]
pub enum OversightMethod {
    NoOversight,
    Royalties,
    Freeze,
}

/// The stealth record of one collectible.
#[derive(Clone, Debug)]
pub struct StealthAccount {
    pub key: Key,
    pub mint: [u8; 32],
    pub wallet_pk: [u8; 32],
    pub elgamal_pk: [u8; 32],
    pub encrypted_cipher_key: [u8; 64],
    pub uri: Vec<u8>,
    pub method: OversightMethod,
    pub bump_seed: u8,
}

/// An in-flight hand-off to one recipient.
#[derive(Clone, Copy, Debug)]
pub struct CipherKeyTransferBuffer {
    pub key: Key,
    pub stealth_key: [u8; 32],
    pub wallet_pk: [u8; 32],
    pub elgamal_pk: [u8; 32],
    pub encrypted_cipher_key: [u8; 64],
    pub updated: bool,
}

/// An identity's published encryption key for one collectible.
#[derive(Clone, Copy, Debug)]
pub struct EncryptionKeyBuffer {
    pub key: Key,
    pub owner: [u8; 32],
    pub mint: [u8; 32],
    pub elgamal_pk: [u8; 32],
}

/// A record as stored: its address, the program that owns it, its balance,
/// and its contents.
#[derive(Clone, Debug)]
pub struct Record<T> {
    pub address: [u8; 32],
    pub owner: [u8; 32],
    pub lamports: u64,
    pub data: T,
}

/// A wallet taking part in an operation.
#[derive(Clone, Copy, Debug)]
pub struct Wallet {
    pub key: [u8; 32],
    pub is_signer: bool,
    pub lamports: u64,
}

/// The address that the address derivation gives for `seeds` under
/// `program_id`, with its bump seed; none when no bump seed gives an address
/// off the curve, or the seeds are too many or too long.
pub uninterp spec fn derived_address(seeds: Seq<Seq<u8>>, program_id: Seq<u8>) -> Option<(Seq<u8>, u8)>;

/// Whether `address` is the one derived from `seeds` under `program_id`.
pub open spec fn is_derived(address: Seq<u8>, seeds: Seq<Seq<u8>>, program_id: Seq<u8>) -> bool {
    derived_address(seeds, program_id) matches Some(d) && d.0 == address
}

/// The seeds of a collectible's stealth record.
pub open spec fn stealth_seeds(mint: Seq<u8>) -> Seq<Seq<u8>> {
    seq![PREFIX@, mint]
}

/// The seeds of a wallet's key registration for a collectible.
pub open spec fn elgamal_pubkey_seeds(wallet: Seq<u8>, mint: Seq<u8>) -> Seq<Seq<u8>> {
    seq![PREFIX@, wallet, mint]
}

/// The seeds of the transfer buffer of a recipient and a collectible.
pub open spec fn transfer_buffer_seeds(recipient: Seq<u8>, mint: Seq<u8>) -> Seq<Seq<u8>> {
    seq![TRANSFER@, recipient, mint]
}

/// The views of a list of byte strings.
pub open spec fn seeds_view(seeds: Seq<Vec<u8>>) -> Seq<Seq<u8>> {
    seeds.map_values(|s: Vec<u8>| s@)
}

/// Relies on Pubkey::try_find_program_address: the address and bump seed
/// depend on the seeds and the program alone.
#[verifier::external_body]
fn find_address(seeds: &Vec<Vec<u8>>, program_id: &[u8; 32]) -> (r: Option<([u8; 32], u8)>)
    ensures
        r matches Some(d) ==> derived_address(seeds_view(seeds@), program_id@) == Some((d.0@, d.1)),
        r is None ==> derived_address(seeds_view(seeds@), program_id@) is None,
{
    let parts: Vec<&[u8]> = seeds.iter().map(|s| s.as_slice()).collect();
    Pubkey::try_find_program_address(&parts, &Pubkey::new_from_array(*program_id))
        .map(|(k, b)| (k.to_bytes(), b))
}

/// Derives the address of `seeds` under `program_id`.
pub fn derive_address(seeds: &Vec<Vec<u8>>, program_id: &[u8; 32]) -> (r: Option<([u8; 32], u8)>)
    ensures
        r matches Some(d) ==> derived_address(seeds_view(seeds@), program_id@) == Some((d.0@, d.1)),
        r is None ==> derived_address(seeds_view(seeds@), program_id@) is None,
{
    find_address(seeds, program_id)
}

/// Whether `address` is the one derived from `seeds` under `program_id`.
pub fn check_derived(address: &[u8; 32], seeds: &Vec<Vec<u8>>, program_id: &[u8; 32]) -> (r: bool)
    ensures
        r == is_derived(address@, seeds_view(seeds@), program_id@),
{
    match find_address(seeds, program_id) {
        Some(d) => keys_equal(&d.0, address),
        None => false,
    }
}

/// Fails unless the account is owned by `owner`.
pub fn validate_account_owner(account_owner: &[u8; 32], owner: &[u8; 32]) -> (r: Result<(), StealthError>)
    ensures
        r == (if account_owner@ == owner@ { Ok(()) } else { Err(StealthError::InvalidArgument) }),
{
    if keys_equal(account_owner, owner) {
        Ok(())
    } else {
        Err(StealthError::InvalidArgument)
    }
}

/// What loading a record owned by `owner` with discriminator `found`, when
/// `expected` is wanted, answers.
pub open spec fn load_outcome(record_owner: Seq<u8>, program_id: Seq<u8>, found: Key, expected: Key) -> Result<(), StealthError> {
    if record_owner != program_id {
        Err(StealthError::InvalidArgument)
    } else if found != expected {
        Err(StealthError::InvalidAccountData)
    } else {
        Ok(())
    }
}

/// The check in front of every record read: the record must be owned by this
/// program and carry the expected discriminator.
pub fn check_record(record_owner: &[u8; 32], program_id: &[u8; 32], found: Key, expected: Key) -> (r: Result<(), StealthError>)
    ensures
        r == load_outcome(record_owner@, program_id@, found, expected),
{
    validate_account_owner(record_owner, program_id)?;
    if found != expected {
        return Err(StealthError::InvalidAccountData);
    }
    Ok(())
}

} // verus!
