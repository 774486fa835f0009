//! One-time configuration of a collectible, and the registration and
//! teardown of per-wallet encryption keys.

use vstd::prelude::*;
use crate::bytes::{keys_equal, to_byte_vec};
use crate::error::StealthError;
use crate::royalties::{rescale_result, royalty_update, Creator, Metadata, FULL_SELLER_FEE};
use crate::state::{
    check_derived, derive_address, derived_address, elgamal_pubkey_seeds, is_derived, seeds_view,
    stealth_seeds, EncryptionKeyBuffer, Key, OversightMethod, Record, StealthAccount, Wallet, PREFIX,
};
use crate::transfer::TokenAccount;

verus! {

/// Domain tag of metadata records: "metadata".
pub const METADATA_PREFIX: [u8; 8] = [109, 101, 116, 97, 100, 97, 116, 97];

/// What the freeze logic reads of a mint.
#[derive(Clone, Copy, Debug)]
pub struct MintState {
    pub decimals: u8,
    pub supply: u64,
    pub mint_authority: Option<[u8; 32]>,
}

/// What handing mint and freeze authority to the stealth record answers:
/// the token service must be the expected one, the mint must be the
/// metadata's, hold one indivisible unit, and be minted by the metadata's
/// update authority, and the token account must hold that unit for the
/// old authority.
pub open spec fn freeze_outcome(
    token_program: Seq<u8>,
    token_program_id: Seq<u8>,
    metadata: Metadata,
    mint_key: Seq<u8>,
    mint: MintState,
    old_authority: Seq<u8>,
    token_account: TokenAccount,
) -> Result<(), StealthError> {
    if token_program != token_program_id {
        Err(StealthError::InvalidArgument)
    } else if metadata.mint@ != mint_key || mint.decimals != 0 || mint.supply != 1 {
        Err(StealthError::InvalidMintInfo)
    } else if !(mint.mint_authority matches Some(a) && a@ == metadata.update_authority@) {
        Err(StealthError::InvalidUpdateAuthority)
    } else if token_account.mint@ != mint_key || token_account.owner@ != old_authority || token_account.amount != 1 {
        Err(StealthError::InvalidTokenAccountInfo)
    } else {
        Ok(())
    }
}

/// The checks made before mint and freeze authority pass to the stealth
/// record and the holder's token account is frozen.
pub fn check_freeze_handover(
    token_program: &[u8; 32],
    token_program_id: &[u8; 32],
    metadata: &Metadata,
    mint_key: &[u8; 32],
    mint: &MintState,
    old_authority: &[u8; 32],
    token_account: &TokenAccount,
) -> (r: Result<(), StealthError>)
    ensures
        r == freeze_outcome(token_program@, token_program_id@, *metadata, mint_key@, *mint, old_authority@, *token_account),
{
    if !keys_equal(token_program, token_program_id) {
        return Err(StealthError::InvalidArgument);
    }
    if !keys_equal(&metadata.mint, mint_key) || mint.decimals != 0 || mint.supply != 1 {
        return Err(StealthError::InvalidMintInfo);
    }
    let authority_matches = match &mint.mint_authority {
        Some(a) => keys_equal(a, &metadata.update_authority),
        None => false,
    };
    if !authority_matches {
        return Err(StealthError::InvalidUpdateAuthority);
    }
    if !keys_equal(&token_account.mint, mint_key) || !keys_equal(&token_account.owner, old_authority)
        || token_account.amount != 1 {
        return Err(StealthError::InvalidTokenAccountInfo);
    }
    Ok(())
}

/// What registering `wallet`'s encryption key for `mint` answers, when the
/// registration's address is `address` and a record there exists or not.
pub open spec fn publish_outcome(
    program_id: Seq<u8>,
    token_program_id: Seq<u8>,
    wallet: Wallet,
    mint: Seq<u8>,
    mint_owner: Seq<u8>,
    address: Seq<u8>,
    exists: bool,
    rent: u64,
) -> Result<(), StealthError> {
    if !wallet.is_signer || mint_owner != token_program_id {
        Err(StealthError::InvalidArgument)
    } else if !is_derived(address, elgamal_pubkey_seeds(wallet.key@, mint), program_id) {
        Err(StealthError::InvalidElgamalPubkeyPDA)
    } else if exists {
        Err(StealthError::AccountAlreadyInUse)
    } else if wallet.lamports < rent {
        Err(StealthError::InsufficientFunds)
    } else {
        Ok(())
    }
}

/// Registers `wallet`'s encryption key `elgamal_pk` for `mint` in a new
/// record at `address`, funded by the wallet with `rent`.
pub fn publish_elgamal_pubkey(
    program_id: &[u8; 32],
    token_program_id: &[u8; 32],
    wallet: &mut Wallet,
    mint: &[u8; 32],
    mint_owner: &[u8; 32],
    address: &[u8; 32],
    registration: &mut Option<Record<EncryptionKeyBuffer>>,
    elgamal_pk: &[u8; 32],
    rent: u64,
) -> (r: Result<(), StealthError>)
    ensures
        r == publish_outcome(program_id@, token_program_id@, *old(wallet), mint@, mint_owner@, address@,
            old(registration).is_some(), rent),
        r is Ok ==> {
            &&& *final(wallet) == (Wallet { lamports: (old(wallet).lamports - rent) as u64, ..*old(wallet) })
            &&& *final(registration) == Some(Record {
                    address: *address,
                    owner: *program_id,
                    lamports: rent,
                    data: EncryptionKeyBuffer {
                        key: Key::EncryptionKeyBufferV1,
                        owner: old(wallet).key,
                        mint: *mint,
                        elgamal_pk: *elgamal_pk,
                    },
                })
        },
        r is Err ==> *final(wallet) == *old(wallet) && *final(registration) == *old(registration),
{
    if !wallet.is_signer || !keys_equal(mint_owner, token_program_id) {
        return Err(StealthError::InvalidArgument);
    }
    let seeds: Vec<Vec<u8>> = vec![to_byte_vec(&PREFIX), to_byte_vec(&wallet.key), to_byte_vec(mint)];
    assert(seeds_view(seeds@) =~= elgamal_pubkey_seeds(wallet.key@, mint@));
    if !check_derived(address, &seeds, program_id) {
        return Err(StealthError::InvalidElgamalPubkeyPDA);
    }
    if registration.is_some() {
        return Err(StealthError::AccountAlreadyInUse);
    }
    if wallet.lamports < rent {
        return Err(StealthError::InsufficientFunds);
    }
    wallet.lamports = wallet.lamports - rent;
    *registration = Some(Record {
        address: *address,
        owner: *program_id,
        lamports: rent,
        data: EncryptionKeyBuffer { key: Key::EncryptionKeyBufferV1, owner: wallet.key, mint: *mint, elgamal_pk: *elgamal_pk },
    });
    Ok(())
}

/// What retracting `wallet`'s registration for `mint` answers.
pub open spec fn close_outcome(
    program_id: Seq<u8>,
    token_program_id: Seq<u8>,
    wallet: Wallet,
    mint: Seq<u8>,
    mint_owner: Seq<u8>,
    registration: Option<Record<EncryptionKeyBuffer>>,
) -> Result<(), StealthError> {
    if !wallet.is_signer || mint_owner != token_program_id {
        Err(StealthError::InvalidArgument)
    } else if !(registration matches Some(g) && g.owner@ == program_id) {
        Err(StealthError::InvalidArgument)
    } else if !is_derived(registration.unwrap().address@, elgamal_pubkey_seeds(wallet.key@, mint), program_id) {
        Err(StealthError::InvalidElgamalPubkeyPDA)
    } else if wallet.lamports + registration.unwrap().lamports > u64::MAX {
        Err(StealthError::Overflow)
    } else {
        Ok(())
    }
}

/// Retracts `wallet`'s registration for `mint`: the record closes and its
/// balance returns to the wallet.
pub fn close_elgamal_pubkey(
    program_id: &[u8; 32],
    token_program_id: &[u8; 32],
    wallet: &mut Wallet,
    mint: &[u8; 32],
    mint_owner: &[u8; 32],
    registration: &mut Option<Record<EncryptionKeyBuffer>>,
) -> (r: Result<(), StealthError>)
    ensures
        r == close_outcome(program_id@, token_program_id@, *old(wallet), mint@, mint_owner@, *old(registration)),
        r is Ok ==> {
            &&& *final(wallet) == (Wallet {
                    lamports: (old(wallet).lamports + old(registration).unwrap().lamports) as u64,
                    ..*old(wallet)
                })
            &&& *final(registration) is None
        },
        r is Err ==> *final(wallet) == *old(wallet) && *final(registration) == *old(registration),
{
    if !wallet.is_signer || !keys_equal(mint_owner, token_program_id) {
        return Err(StealthError::InvalidArgument);
    }
    let (address, lamports) = match registration {
        Some(g) => {
            if !keys_equal(&g.owner, program_id) {
                return Err(StealthError::InvalidArgument);
            }
            (g.address, g.lamports)
        },
        None => return Err(StealthError::InvalidArgument),
    };
    let seeds: Vec<Vec<u8>> = vec![to_byte_vec(&PREFIX), to_byte_vec(&wallet.key), to_byte_vec(mint)];
    assert(seeds_view(seeds@) =~= elgamal_pubkey_seeds(wallet.key@, mint@));
    if !check_derived(&address, &seeds, program_id) {
        return Err(StealthError::InvalidElgamalPubkeyPDA);
    }
    let total = match wallet.lamports.checked_add(lamports) {
        Some(v) => v,
        None => return Err(StealthError::Overflow),
    };
    wallet.lamports = total;
    *registration = None;
    Ok(())
}

/// The inputs of the one-time configuration that it only reads.
#[derive(Clone, Debug)]
pub struct ConfigureMetadata {
    pub program_id: [u8; 32],
    pub token_program_id: [u8; 32],
    pub metadata_program_id: [u8; 32],
    pub mint: [u8; 32],
    /// The program that owns the mint's storage.
    pub mint_owner: [u8; 32],
    pub metadata_address: [u8; 32],
    /// The program that owns the metadata's storage.
    pub metadata_owner: [u8; 32],
    pub metadata: Metadata,
    pub update_authority: Wallet,
    pub stealth_address: [u8; 32],
    pub elgamal_pk: [u8; 32],
    pub encrypted_cipher_key: [u8; 64],
    pub uri: Vec<u8>,
    pub method: OversightMethod,
    /// The service the oversight method acts through.
    pub oversight_program: [u8; 32],
    pub mint_state: MintState,
    /// The holder's token account; freeze oversight needs it.
    pub token_account: Option<TokenAccount>,
    /// Minimum balance of a stealth record.
    pub stealth_rent: u64,
}

/// What the oversight service is to be asked once the record exists.
#[derive(Clone, Debug)]
pub enum OversightPlan {
    /// Nothing.
    Unsupervised,
    /// Rewrite the metadata with this seller fee and these creators, and
    /// have the stealth record sign it as a creator.
    Royalties { seller_fee_basis_points: u16, creators: Vec<Creator> },
    /// Pass mint and freeze authority to the stealth record, and freeze the
    /// holder's token account.
    Freeze,
}

/// The seeds of a collectible's metadata record.
pub open spec fn metadata_seeds(metadata_program: Seq<u8>, mint: Seq<u8>) -> Seq<Seq<u8>> {
    seq![METADATA_PREFIX@, metadata_program, mint]
}

/// What the oversight method's own checks answer.
pub open spec fn oversight_outcome(req: ConfigureMetadata) -> Result<(), StealthError> {
    match req.method {
        OversightMethod::NoOversight => Ok(()),
        OversightMethod::Royalties => {
            if req.oversight_program@ != req.metadata_program_id@ {
                Err(StealthError::InvalidArgument)
            } else if req.metadata.creators matches Some(cs) && !crate::royalties::shares_fit(req.metadata.seller_fee_basis_points, cs@) {
                Err(StealthError::Overflow)
            } else {
                Ok(())
            }
        },
        OversightMethod::Freeze => match req.token_account {
            None => Err(StealthError::InvalidArgument),
            Some(tok) => freeze_outcome(req.oversight_program@, req.token_program_id@, req.metadata, req.mint@,
                req.mint_state, req.update_authority.key@, tok),
        },
    }
}

/// What the one-time configuration answers; `exists` says whether a
/// stealth record for the mint already exists.
pub open spec fn configure_outcome(req: ConfigureMetadata, payer: Wallet, exists: bool) -> Result<(), StealthError> {
    if !payer.is_signer || !req.update_authority.is_signer {
        Err(StealthError::InvalidArgument)
    } else if req.mint_owner@ != req.token_program_id@ || req.metadata_owner@ != req.metadata_program_id@ {
        Err(StealthError::InvalidArgument)
    } else if !is_derived(req.metadata_address@, metadata_seeds(req.metadata_program_id@, req.mint@), req.metadata_program_id@) {
        Err(StealthError::InvalidMetadataKey)
    } else if req.metadata.update_authority@ != req.update_authority.key@ {
        Err(StealthError::InvalidUpdateAuthority)
    } else if !req.metadata.is_mutable {
        Err(StealthError::MetadataIsImmutable)
    } else if !is_derived(req.stealth_address@, stealth_seeds(req.mint@), req.program_id@) {
        Err(StealthError::InvalidStealthKey)
    } else if exists {
        Err(StealthError::AccountAlreadyInUse)
    } else if payer.lamports < req.stealth_rent {
        Err(StealthError::InsufficientFunds)
    } else {
        oversight_outcome(req)
    }
}

/// Attaches protection to a collectible: creates its stealth record, with
/// the payer as holder of the given key and ciphertext, and says what the
/// chosen oversight method asks of the oversight service.
pub fn configure_metadata(
    req: &ConfigureMetadata,
    payer: &mut Wallet,
    stealth: &mut Option<Record<StealthAccount>>,
) -> (r: Result<OversightPlan, StealthError>)
    ensures
        r is Ok <==> configure_outcome(*req, *old(payer), old(stealth).is_some()) is Ok,
        r matches Err(e) ==> configure_outcome(*req, *old(payer), old(stealth).is_some()) == Err::<(), StealthError>(e),
        r is Ok ==> {
            &&& *final(payer) == (Wallet { lamports: (old(payer).lamports - req.stealth_rent) as u64, ..*old(payer) })
            &&& *final(stealth) matches Some(s) && {
                &&& s.address == req.stealth_address
                &&& s.owner == req.program_id
                &&& s.lamports == req.stealth_rent
                &&& s.data.key == Key::StealthAccountV1
                &&& s.data.mint == req.mint
                &&& s.data.wallet_pk == old(payer).key
                &&& s.data.elgamal_pk == req.elgamal_pk
                &&& s.data.encrypted_cipher_key == req.encrypted_cipher_key
                &&& s.data.uri@ == req.uri@
                &&& s.data.method == req.method
                &&& derived_address(stealth_seeds(req.mint@), req.program_id@) == Some((req.stealth_address@, s.data.bump_seed))
            }
        },
        r is Err ==> *final(payer) == *old(payer) && *final(stealth) == *old(stealth),
        r matches Ok(OversightPlan::Unsupervised) ==> req.method == OversightMethod::NoOversight,
        r matches Ok(OversightPlan::Freeze) ==> req.method == OversightMethod::Freeze,
        r matches Ok(OversightPlan::Royalties { seller_fee_basis_points, creators }) ==> {
            &&& req.method == OversightMethod::Royalties
            &&& seller_fee_basis_points == FULL_SELLER_FEE
            &&& rescale_result(req.stealth_address, req.metadata, Some(creators))
        },
        r is Ok ==> (req.method == OversightMethod::NoOversight ==> r matches Ok(OversightPlan::Unsupervised))
            && (req.method == OversightMethod::Freeze ==> r matches Ok(OversightPlan::Freeze))
            && (req.method == OversightMethod::Royalties ==> r matches Ok(OversightPlan::Royalties { .. })),
{
    if !payer.is_signer || !req.update_authority.is_signer {
        return Err(StealthError::InvalidArgument);
    }
    if !keys_equal(&req.mint_owner, &req.token_program_id) || !keys_equal(&req.metadata_owner, &req.metadata_program_id) {
        return Err(StealthError::InvalidArgument);
    }
    let m_seeds: Vec<Vec<u8>> = vec![to_byte_vec(&METADATA_PREFIX), to_byte_vec(&req.metadata_program_id), to_byte_vec(&req.mint)];
    assert(seeds_view(m_seeds@) =~= metadata_seeds(req.metadata_program_id@, req.mint@));
    if !check_derived(&req.metadata_address, &m_seeds, &req.metadata_program_id) {
        return Err(StealthError::InvalidMetadataKey);
    }
    if !keys_equal(&req.metadata.update_authority, &req.update_authority.key) {
        return Err(StealthError::InvalidUpdateAuthority);
    }
    if !req.metadata.is_mutable {
        return Err(StealthError::MetadataIsImmutable);
    }
    let s_seeds: Vec<Vec<u8>> = vec![to_byte_vec(&PREFIX), to_byte_vec(&req.mint)];
    assert(seeds_view(s_seeds@) =~= stealth_seeds(req.mint@));
    let bump_seed = match derive_address(&s_seeds, &req.program_id) {
        Some(d) => {
            if !keys_equal(&d.0, &req.stealth_address) {
                return Err(StealthError::InvalidStealthKey);
            }
            d.1
        },
        None => return Err(StealthError::InvalidStealthKey),
    };
    if stealth.is_some() {
        return Err(StealthError::AccountAlreadyInUse);
    }
    if payer.lamports < req.stealth_rent {
        return Err(StealthError::InsufficientFunds);
    }
    let plan = match req.method {
        OversightMethod::NoOversight => OversightPlan::Unsupervised,
        OversightMethod::Royalties => {
            let (fee, creators) = match royalty_update(&req.oversight_program, &req.metadata_program_id,
                &req.stealth_address, &req.metadata) {
                Ok(u) => u,
                Err(e) => return Err(e),
            };
            OversightPlan::Royalties { seller_fee_basis_points: fee, creators }
        },
        OversightMethod::Freeze => {
            match &req.token_account {
                None => return Err(StealthError::InvalidArgument),
                Some(tok) => {
                    check_freeze_handover(&req.oversight_program, &req.token_program_id, &req.metadata, &req.mint,
                        &req.mint_state, &req.update_authority.key, tok)?;
                },
            }
            OversightPlan::Freeze
        },
    };
    payer.lamports = payer.lamports - req.stealth_rent;
    *stealth = Some(Record {
        address: req.stealth_address,
        owner: req.program_id,
        lamports: req.stealth_rent,
        data: StealthAccount {
            key: Key::StealthAccountV1,
            mint: req.mint,
            wallet_pk: payer.key,
            elgamal_pk: req.elgamal_pk,
            encrypted_cipher_key: req.encrypted_cipher_key,
            uri: to_byte_vec(req.uri.as_slice()),
            method: req.method,
            bump_seed,
        },
    });
    Ok(plan)
}

} // verus!
