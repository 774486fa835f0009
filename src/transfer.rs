//! The hand-off state machine: initiate, submit a verified re-encryption,
//! finalize. Each operation checks everything before it changes anything,
//! so a failed operation leaves every record as it was.

use vstd::prelude::*;
use crate::bytes::{bytes_equal, keys_equal, to_byte_vec};
use crate::delegated::{delegated_outcome, verify_transfer_delegated, BufferAccount, ComputeProgram};
use crate::equality::{challenge_of, fast_accepts, verify_transfer, TransferData};
use crate::error::StealthError;
use crate::state::{
    check_derived, check_record, elgamal_pubkey_seeds, is_derived, load_outcome, seeds_view,
    stealth_seeds, transfer_buffer_seeds, CipherKeyTransferBuffer, EncryptionKeyBuffer, Key,
    OversightMethod, Record, StealthAccount, Wallet, PREFIX, TRANSFER,
};

verus! {

/// A token account as the token service reports it.
#[derive(Clone, Copy, Debug)]
pub struct TokenAccount {
    pub address: [u8; 32],
    /// The program that owns the account's storage.
    pub owner_program: [u8; 32],
    pub mint: [u8; 32],
    /// The wallet that holds the tokens.
    pub owner: [u8; 32],
    pub amount: u64,
}

/// The inputs of *initiate* that it only reads.
#[derive(Clone, Debug)]
pub struct InitTransfer {
    pub program_id: [u8; 32],
    pub token_program_id: [u8; 32],
    pub mint: [u8; 32],
    /// The program that owns the mint's storage.
    pub mint_owner: [u8; 32],
    pub token_account: TokenAccount,
    pub recipient: [u8; 32],
    pub recipient_elgamal: Record<EncryptionKeyBuffer>,
    pub buffer_address: [u8; 32],
    /// Minimum balance of a stealth record.
    pub stealth_rent: u64,
    /// Minimum balance of a transfer buffer.
    pub buffer_rent: u64,
}

/// The side payment escrowed on the stealth record that *initiate* moves to
/// the buffer: the balance above minimum rent under royalty oversight, else
/// nothing.
pub open spec fn escrowed(req: InitTransfer, stealth: Record<StealthAccount>) -> int {
    if stealth.data.method == OversightMethod::Royalties {
        stealth.lamports - req.stealth_rent
    } else {
        0
    }
}

/// What *initiate* answers; `buffer_exists` says whether the recipient's
/// buffer for this collectible is already in use.
pub open spec fn init_outcome(req: InitTransfer, payer: Wallet, stealth: Record<StealthAccount>, buffer_exists: bool) -> Result<(), StealthError> {
    let tok = req.token_account;
    if !payer.is_signer {
        Err(StealthError::InvalidArgument)
    } else if req.mint_owner@ != req.token_program_id@ || tok.owner_program@ != req.token_program_id@
        || stealth.owner@ != req.program_id@ {
        Err(StealthError::InvalidArgument)
    } else if tok.mint@ != req.mint@ || tok.owner@ != payer.key@ || tok.amount != 1 {
        Err(StealthError::InvalidArgument)
    } else if !is_derived(stealth.address@, stealth_seeds(req.mint@), req.program_id@) {
        Err(StealthError::InvalidStealthKey)
    } else if stealth.data.key != Key::StealthAccountV1 {
        Err(StealthError::InvalidAccountData)
    } else if !is_derived(req.recipient_elgamal.address@, elgamal_pubkey_seeds(req.recipient@, req.mint@), req.program_id@) {
        Err(StealthError::InvalidElgamalPubkeyPDA)
    } else if load_outcome(req.recipient_elgamal.owner@, req.program_id@, req.recipient_elgamal.data.key, Key::EncryptionKeyBufferV1) is Err {
        load_outcome(req.recipient_elgamal.owner@, req.program_id@, req.recipient_elgamal.data.key, Key::EncryptionKeyBufferV1)
    } else if !is_derived(req.buffer_address@, transfer_buffer_seeds(req.recipient@, req.mint@), req.program_id@) {
        Err(StealthError::InvalidArgument)
    } else if buffer_exists {
        Err(StealthError::AccountAlreadyInUse)
    } else if payer.lamports < req.buffer_rent {
        Err(StealthError::InsufficientFunds)
    } else if escrowed(req, stealth) < 0 || req.buffer_rent + escrowed(req, stealth) > u64::MAX {
        Err(StealthError::Overflow)
    } else {
        Ok(())
    }
}

/// Whether `b` is the buffer *initiate* creates: it names the stealth
/// record, the recipient and the recipient's registered key, holds the
/// rent plus the escrowed payment, and an all-zero ciphertext slot.
pub open spec fn is_new_buffer(b: Record<CipherKeyTransferBuffer>, req: InitTransfer, stealth: Record<StealthAccount>) -> bool {
    &&& b.address == req.buffer_address
    &&& b.owner == req.program_id
    &&& b.lamports == req.buffer_rent + escrowed(req, stealth)
    &&& b.data.key == Key::CipherKeyTransferBufferV1
    &&& b.data.stealth_key == stealth.address
    &&& b.data.wallet_pk == req.recipient
    &&& b.data.elgamal_pk == req.recipient_elgamal.data.elgamal_pk
    &&& b.data.encrypted_cipher_key@ == Seq::new(64, |i: int| 0u8)
    &&& !b.data.updated
}

/// The seeds `tag`, then `a`, then `b`.
fn seeds3(tag: &[u8], a: &[u8; 32], b: &[u8; 32]) -> (r: Vec<Vec<u8>>)
    ensures
        seeds_view(r@) == seq![tag@, a@, b@],
{
    let r: Vec<Vec<u8>> = vec![to_byte_vec(tag), to_byte_vec(a), to_byte_vec(b)];
    assert(seeds_view(r@) =~= seq![tag@, a@, b@]);
    r
}

/// *initiate*: the payer, who holds the collectible's single token, opens a
/// hand-off to `recipient`, who must have registered an encryption key. It
/// fails when the recipient's buffer already exists. Under royalty
/// oversight the escrowed side payment moves from the stealth record into
/// the new buffer.
pub fn init_transfer(
    req: &InitTransfer,
    payer: &mut Wallet,
    stealth: &mut Record<StealthAccount>,
    transfer_buffer: &mut Option<Record<CipherKeyTransferBuffer>>,
) -> (r: Result<(), StealthError>)
    ensures
        r == init_outcome(*req, *old(payer), *old(stealth), old(transfer_buffer).is_some()),
        r is Ok ==> {
            &&& *final(payer) == (Wallet { lamports: (old(payer).lamports - req.buffer_rent) as u64, ..*old(payer) })
            &&& final(stealth).lamports == (if old(stealth).data.method == OversightMethod::Royalties {
                    req.stealth_rent
                } else {
                    old(stealth).lamports
                })
            &&& final(stealth).address == old(stealth).address
            &&& final(stealth).owner == old(stealth).owner
            &&& final(stealth).data == old(stealth).data
            &&& *final(transfer_buffer) matches Some(b) && is_new_buffer(b, *req, *old(stealth))
        },
        r is Err ==> *final(payer) == *old(payer) && *final(stealth) == *old(stealth)
            && *final(transfer_buffer) == *old(transfer_buffer),
{
    let tok = &req.token_account;
    if !payer.is_signer {
        return Err(StealthError::InvalidArgument);
    }
    if !keys_equal(&req.mint_owner, &req.token_program_id) || !keys_equal(&tok.owner_program, &req.token_program_id)
        || !keys_equal(&stealth.owner, &req.program_id) {
        return Err(StealthError::InvalidArgument);
    }
    if !keys_equal(&tok.mint, &req.mint) || !keys_equal(&tok.owner, &payer.key) || tok.amount != 1 {
        return Err(StealthError::InvalidArgument);
    }
    let s_seeds: Vec<Vec<u8>> = vec![to_byte_vec(&PREFIX), to_byte_vec(&req.mint)];
    assert(seeds_view(s_seeds@) =~= stealth_seeds(req.mint@));
    if !check_derived(&stealth.address, &s_seeds, &req.program_id) {
        return Err(StealthError::InvalidStealthKey);
    }
    if stealth.data.key != Key::StealthAccountV1 {
        return Err(StealthError::InvalidAccountData);
    }
    let e_seeds = seeds3(&PREFIX, &req.recipient, &req.mint);
    if !check_derived(&req.recipient_elgamal.address, &e_seeds, &req.program_id) {
        return Err(StealthError::InvalidElgamalPubkeyPDA);
    }
    check_record(&req.recipient_elgamal.owner, &req.program_id, req.recipient_elgamal.data.key, Key::EncryptionKeyBufferV1)?;
    let t_seeds = seeds3(&TRANSFER, &req.recipient, &req.mint);
    if !check_derived(&req.buffer_address, &t_seeds, &req.program_id) {
        return Err(StealthError::InvalidArgument);
    }
    if transfer_buffer.is_some() {
        return Err(StealthError::AccountAlreadyInUse);
    }
    if payer.lamports < req.buffer_rent {
        return Err(StealthError::InsufficientFunds);
    }
    let royalties = stealth.data.method == OversightMethod::Royalties;
    let mut escrow: u64 = 0;
    if royalties {
        if stealth.lamports < req.stealth_rent {
            return Err(StealthError::Overflow);
        }
        escrow = stealth.lamports - req.stealth_rent;
    }
    let buffer_lamports = match req.buffer_rent.checked_add(escrow) {
        Some(v) => v,
        None => return Err(StealthError::Overflow),
    };
    payer.lamports = payer.lamports - req.buffer_rent;
    if royalties {
        stealth.lamports = req.stealth_rent;
    }
    *transfer_buffer = Some(Record {
        address: req.buffer_address,
        owner: req.program_id,
        lamports: buffer_lamports,
        data: CipherKeyTransferBuffer {
            key: Key::CipherKeyTransferBufferV1,
            stealth_key: stealth.address,
            wallet_pk: req.recipient,
            elgamal_pk: req.recipient_elgamal.data.elgamal_pk,
            encrypted_cipher_key: [0u8; 64],
            updated: false,
        },
    });
    assert(transfer_buffer.unwrap().data.encrypted_cipher_key@ =~= Seq::new(64, |i: int| 0u8));
    Ok(())
}

/// What checking a buffer against its stealth record answers: the caller
/// must be the recorded holder, and the buffer must name this record.
pub open spec fn buffer_outcome(buffer: CipherKeyTransferBuffer, stealth: StealthAccount, authority: Seq<u8>, stealth_key: Seq<u8>) -> Result<(), StealthError> {
    if stealth.wallet_pk@ != authority {
        Err(StealthError::InvalidArgument)
    } else if buffer.stealth_key@ != stealth_key {
        Err(StealthError::InvalidArgument)
    } else {
        Ok(())
    }
}

/// Fails unless `authority` holds the collectible per the stealth record at
/// `stealth_key`, and the buffer belongs to that record.
pub fn validate_transfer_buffer(
    transfer_buffer: &CipherKeyTransferBuffer,
    stealth: &StealthAccount,
    authority: &[u8; 32],
    stealth_key: &[u8; 32],
) -> (r: Result<(), StealthError>)
    ensures
        r == buffer_outcome(*transfer_buffer, *stealth, authority@, stealth_key@),
{
    if !keys_equal(&stealth.wallet_pk, authority) {
        return Err(StealthError::InvalidArgument);
    }
    if !keys_equal(&transfer_buffer.stealth_key, stealth_key) {
        return Err(StealthError::InvalidArgument);
    }
    Ok(())
}

/// The checks shared by *submit-chunk* and *finalize*: a signing caller, an
/// existing buffer and a stealth record, both loaded through the record
/// check, both at the addresses derived from their seeds (the record's from
/// its mint, the buffer's from its recipient and that mint), and a buffer
/// that the holder may act on.
pub open spec fn session_outcome(
    program_id: Seq<u8>,
    authority: Wallet,
    stealth: Record<StealthAccount>,
    transfer_buffer: Option<Record<CipherKeyTransferBuffer>>,
) -> Result<(), StealthError> {
    if !authority.is_signer {
        Err(StealthError::InvalidArgument)
    } else if transfer_buffer is None {
        Err(StealthError::InvalidArgument)
    } else {
        let b = transfer_buffer.unwrap();
        if load_outcome(b.owner@, program_id, b.data.key, Key::CipherKeyTransferBufferV1) is Err {
            load_outcome(b.owner@, program_id, b.data.key, Key::CipherKeyTransferBufferV1)
        } else if load_outcome(stealth.owner@, program_id, stealth.data.key, Key::StealthAccountV1) is Err {
            load_outcome(stealth.owner@, program_id, stealth.data.key, Key::StealthAccountV1)
        } else if !is_derived(stealth.address@, stealth_seeds(stealth.data.mint@), program_id) {
            Err(StealthError::InvalidStealthKey)
        } else if !is_derived(b.address@, transfer_buffer_seeds(b.data.wallet_pk@, stealth.data.mint@), program_id) {
            Err(StealthError::InvalidArgument)
        } else {
            buffer_outcome(b.data, stealth.data, authority.key@, stealth.address@)
        }
    }
}

/// The session checks, as `session_outcome` states them.
fn check_session(
    program_id: &[u8; 32],
    authority: &Wallet,
    stealth: &Record<StealthAccount>,
    transfer_buffer: &Option<Record<CipherKeyTransferBuffer>>,
) -> (r: Result<(), StealthError>)
    ensures
        r == session_outcome(program_id@, *authority, *stealth, *transfer_buffer),
{
    if !authority.is_signer {
        return Err(StealthError::InvalidArgument);
    }
    match transfer_buffer {
        None => Err(StealthError::InvalidArgument),
        Some(b) => {
            check_record(&b.owner, program_id, b.data.key, Key::CipherKeyTransferBufferV1)?;
            check_record(&stealth.owner, program_id, stealth.data.key, Key::StealthAccountV1)?;
            let s_seeds: Vec<Vec<u8>> = vec![to_byte_vec(&PREFIX), to_byte_vec(&stealth.data.mint)];
            assert(seeds_view(s_seeds@) =~= stealth_seeds(stealth.data.mint@));
            if !check_derived(&stealth.address, &s_seeds, program_id) {
                return Err(StealthError::InvalidStealthKey);
            }
            let t_seeds = seeds3(&TRANSFER, &b.data.wallet_pk, &stealth.data.mint);
            if !check_derived(&b.address, &t_seeds, program_id) {
                return Err(StealthError::InvalidArgument);
            }
            validate_transfer_buffer(&b.data, &stealth.data, &authority.key, &stealth.address)
        }
    }
}

/// What *submit-chunk* answers before any proof is looked at: the session
/// checks, a buffer not yet updated, and a statement whose source key and
/// ciphertext are the record's and whose destination key is the buffer's.
pub open spec fn chunk_precheck(
    program_id: Seq<u8>,
    authority: Wallet,
    stealth: Record<StealthAccount>,
    transfer_buffer: Option<Record<CipherKeyTransferBuffer>>,
    t: TransferData,
) -> Result<(), StealthError> {
    if session_outcome(program_id, authority, stealth, transfer_buffer) is Err {
        session_outcome(program_id, authority, stealth, transfer_buffer)
    } else if transfer_buffer.unwrap().data.updated {
        Err(StealthError::InvalidArgument)
    } else if t.src_pubkey@ != stealth.data.elgamal_pk@ || t.src_ct@ != stealth.data.encrypted_cipher_key@
        || t.dst_pubkey@ != transfer_buffer.unwrap().data.elgamal_pk@ {
        Err(StealthError::InvalidArgument)
    } else {
        Ok(())
    }
}

/// What *submit-chunk* answers when the verifier answered `verdict`.
pub open spec fn chunk_outcome(
    program_id: Seq<u8>,
    authority: Wallet,
    stealth: Record<StealthAccount>,
    transfer_buffer: Option<Record<CipherKeyTransferBuffer>>,
    t: TransferData,
    verdict: Result<(), StealthError>,
) -> Result<(), StealthError> {
    if chunk_precheck(program_id, authority, stealth, transfer_buffer, t) is Err {
        chunk_precheck(program_id, authority, stealth, transfer_buffer, t)
    } else {
        verdict
    }
}

/// The buffer after an accepted chunk: updated, holding the destination
/// ciphertext.
pub open spec fn chunk_applied(b: Record<CipherKeyTransferBuffer>, t: TransferData) -> Record<CipherKeyTransferBuffer> {
    Record { data: CipherKeyTransferBuffer { updated: true, encrypted_cipher_key: t.dst_ct, ..b.data }, ..b }
}

/// The checks of *submit-chunk* that come before the proof.
pub fn check_chunk(
    program_id: &[u8; 32],
    authority: &Wallet,
    stealth: &Record<StealthAccount>,
    transfer_buffer: &Option<Record<CipherKeyTransferBuffer>>,
    t: &TransferData,
) -> (r: Result<(), StealthError>)
    ensures
        r == chunk_precheck(program_id@, *authority, *stealth, *transfer_buffer, *t),
{
    check_session(program_id, authority, stealth, transfer_buffer)?;
    let b = transfer_buffer.as_ref().unwrap();
    if b.data.updated {
        return Err(StealthError::InvalidArgument);
    }
    if !keys_equal(&t.src_pubkey, &stealth.data.elgamal_pk) || !bytes_equal(&t.src_ct, &stealth.data.encrypted_cipher_key)
        || !keys_equal(&t.dst_pubkey, &b.data.elgamal_pk) {
        return Err(StealthError::InvalidArgument);
    }
    Ok(())
}

/// *submit-chunk* given the verifier's answer `verdict` on `t`: on success
/// the buffer takes the destination ciphertext and is marked updated; on
/// failure nothing changes.
pub fn submit_chunk(
    program_id: &[u8; 32],
    authority: &Wallet,
    stealth: &Record<StealthAccount>,
    transfer_buffer: &mut Option<Record<CipherKeyTransferBuffer>>,
    t: &TransferData,
    verdict: Result<(), StealthError>,
) -> (r: Result<(), StealthError>)
    ensures
        r == chunk_outcome(program_id@, *authority, *stealth, *old(transfer_buffer), *t, verdict),
        r is Ok ==> *final(transfer_buffer) == Some(chunk_applied(old(transfer_buffer).unwrap(), *t)),
        r is Err ==> *final(transfer_buffer) == *old(transfer_buffer),
{
    check_chunk(program_id, authority, stealth, transfer_buffer, t)?;
    verdict?;
    if let Some(b) = transfer_buffer {
        b.data.updated = true;
        b.data.encrypted_cipher_key = t.dst_ct;
    }
    Ok(())
}

/// The direct verifier's answer as a verdict.
pub open spec fn fast_verdict(t: TransferData, h: Seq<u8>) -> Result<(), StealthError> {
    if fast_accepts(t, h) {
        Ok(())
    } else {
        Err(StealthError::ProofVerificationError)
    }
}

/// *submit-chunk*, proof checked by the direct verifier with Pedersen base
/// `h`.
pub fn transfer_chunk(
    program_id: &[u8; 32],
    authority: &Wallet,
    stealth: &Record<StealthAccount>,
    transfer_buffer: &mut Option<Record<CipherKeyTransferBuffer>>,
    t: &TransferData,
    h: &[u8; 32],
) -> (r: Result<(), StealthError>)
    ensures
        r == chunk_outcome(program_id@, *authority, *stealth, *old(transfer_buffer), *t, fast_verdict(*t, h@)),
        r is Ok ==> *final(transfer_buffer) == Some(chunk_applied(old(transfer_buffer).unwrap(), *t)),
        r is Err ==> *final(transfer_buffer) == *old(transfer_buffer),
{
    check_chunk(program_id, authority, stealth, transfer_buffer, t)?;
    let verdict = if verify_transfer(t, h) { Ok(()) } else { Err(StealthError::ProofVerificationError) };
    submit_chunk(program_id, authority, stealth, transfer_buffer, t, verdict)
}

/// *submit-chunk*, proof checked by the delegated verifier against the
/// three buffers of the computation service running `program`.
pub fn transfer_chunk_slow(
    program_id: &[u8; 32],
    authority: &Wallet,
    stealth: &Record<StealthAccount>,
    transfer_buffer: &mut Option<Record<CipherKeyTransferBuffer>>,
    t: &TransferData,
    h: &[u8; 32],
    program: &ComputeProgram,
    instruction_buffer: &BufferAccount,
    input_buffer: &BufferAccount,
    compute_buffer: &BufferAccount,
) -> (r: Result<(), StealthError>)
    ensures
        r == chunk_outcome(
            program_id@, *authority, *stealth, *old(transfer_buffer), *t,
            delegated_outcome(*t, h@, authority.key@, *program, *instruction_buffer, *input_buffer, *compute_buffer, challenge_of(*t)),
        ),
        r is Ok ==> *final(transfer_buffer) == Some(chunk_applied(old(transfer_buffer).unwrap(), *t)),
        r is Err ==> *final(transfer_buffer) == *old(transfer_buffer),
{
    check_chunk(program_id, authority, stealth, transfer_buffer, t)?;
    let verdict = verify_transfer_delegated(t, h, &authority.key, program, instruction_buffer, input_buffer, compute_buffer);
    submit_chunk(program_id, authority, stealth, transfer_buffer, t, verdict)
}

/// The token movement *finalize* leaves to the token service.
#[derive(Clone, Copy, Debug, PartialEq, Eq, Structural)]
pub enum TokenStep {
    /// No token moves in this call.
    Stay,
    /// The single token moves from the holder to the recipient.
    Move,
    /// The token account is thawed, the token moves, and the recipient's
    /// account is frozen again.
    ThawMoveFreeze,
}

/// What *finalize* answers; `move_token` says whether the call also moves
/// the token.
pub open spec fn fini_outcome(
    program_id: Seq<u8>,
    authority: Wallet,
    stealth: Record<StealthAccount>,
    transfer_buffer: Option<Record<CipherKeyTransferBuffer>>,
    move_token: bool,
) -> Result<TokenStep, StealthError> {
    if let Err(e) = session_outcome(program_id, authority, stealth, transfer_buffer) {
        Err(e)
    } else if !transfer_buffer.unwrap().data.updated {
        Err(StealthError::InvalidArgument)
    } else if !move_token && stealth.data.method == OversightMethod::Freeze {
        Err(StealthError::InvalidArgument)
    } else if authority.lamports + transfer_buffer.unwrap().lamports > u64::MAX {
        Err(StealthError::Overflow)
    } else if !move_token {
        Ok(TokenStep::Stay)
    } else if stealth.data.method == OversightMethod::Freeze {
        Ok(TokenStep::ThawMoveFreeze)
    } else {
        Ok(TokenStep::Move)
    }
}

/// The stealth record after the hand-off: the buffer's recipient, key and
/// ciphertext replace the holder's.
pub open spec fn handed_off(stealth: Record<StealthAccount>, b: CipherKeyTransferBuffer) -> Record<StealthAccount> {
    Record {
        data: StealthAccount {
            wallet_pk: b.wallet_pk,
            elgamal_pk: b.elgamal_pk,
            encrypted_cipher_key: b.encrypted_cipher_key,
            ..stealth.data
        },
        ..stealth
    }
}

/// *finalize*: the holder completes a verified hand-off. The stealth record
/// takes the recipient's identity, key and ciphertext, and the buffer is
/// closed with its whole balance going to the caller. Under freeze
/// oversight the token must move in the same call.
pub fn fini_transfer(
    program_id: &[u8; 32],
    authority: &mut Wallet,
    stealth: &mut Record<StealthAccount>,
    transfer_buffer: &mut Option<Record<CipherKeyTransferBuffer>>,
    move_token: bool,
) -> (r: Result<TokenStep, StealthError>)
    ensures
        r == fini_outcome(program_id@, *old(authority), *old(stealth), *old(transfer_buffer), move_token),
        r is Ok ==> {
            &&& *final(stealth) == handed_off(*old(stealth), old(transfer_buffer).unwrap().data)
            &&& *final(authority) == (Wallet {
                    lamports: (old(authority).lamports + old(transfer_buffer).unwrap().lamports) as u64,
                    ..*old(authority)
                })
            &&& *final(transfer_buffer) is None
        },
        r is Err ==> *final(authority) == *old(authority) && *final(stealth) == *old(stealth)
            && *final(transfer_buffer) == *old(transfer_buffer),
{
    check_session(program_id, authority, stealth, transfer_buffer)?;
    let b = transfer_buffer.as_ref().unwrap();
    if !b.data.updated {
        return Err(StealthError::InvalidArgument);
    }
    let freeze = stealth.data.method == OversightMethod::Freeze;
    if !move_token && freeze {
        return Err(StealthError::InvalidArgument);
    }
    let total = match authority.lamports.checked_add(b.lamports) {
        Some(v) => v,
        None => return Err(StealthError::Overflow),
    };
    stealth.data.wallet_pk = b.data.wallet_pk;
    stealth.data.elgamal_pk = b.data.elgamal_pk;
    stealth.data.encrypted_cipher_key = b.data.encrypted_cipher_key;
    authority.lamports = total;
    *transfer_buffer = None;
    if !move_token {
        Ok(TokenStep::Stay)
    } else if freeze {
        Ok(TokenStep::ThawMoveFreeze)
    } else {
        Ok(TokenStep::Move)
    }
}

/// While a recipient's buffer for a collectible exists, *initiate* on that
/// pair fails; without it, *initiate* succeeds exactly when every other check
/// passes and the payer can fund the buffer. *finalize* leaves no buffer
/// behind, so after it the pair can be opened again.
pub proof fn lemma_one_transfer_per_pair(req: InitTransfer, payer: Wallet, stealth: Record<StealthAccount>)
    ensures
        init_outcome(req, payer, stealth, true) is Err,
        init_outcome(req, payer, stealth, true) == Err::<(), StealthError>(StealthError::AccountAlreadyInUse) ==> (
            init_outcome(req, payer, stealth, false) is Ok <==> (
                payer.lamports >= req.buffer_rent && escrowed(req, stealth) >= 0
                && req.buffer_rent + escrowed(req, stealth) <= u64::MAX)),
{
}

/// A chunk cannot be submitted twice: on a buffer already updated,
/// *submit-chunk* fails whatever the verifier said, and (by its contract)
/// leaves the stored ciphertext as it was.
pub proof fn lemma_no_second_chunk(
    program_id: Seq<u8>,
    authority: Wallet,
    stealth: Record<StealthAccount>,
    b: Record<CipherKeyTransferBuffer>,
    t: TransferData,
    verdict: Result<(), StealthError>,
)
    requires
        b.data.updated,
    ensures
        chunk_outcome(program_id, authority, stealth, Some(b), t, verdict) is Err,
{
}

/// *finalize* fails on a buffer that no accepted chunk has updated.
pub proof fn lemma_finalize_needs_chunk(
    program_id: Seq<u8>,
    authority: Wallet,
    stealth: Record<StealthAccount>,
    b: Record<CipherKeyTransferBuffer>,
    move_token: bool,
)
    requires
        !b.data.updated,
    ensures
        fini_outcome(program_id, authority, stealth, Some(b), move_token) is Err,
{
}

/// A verified hand-off completes: when the holder signs, both records are
/// this program's, correctly tagged and at their derived addresses, the
/// buffer names the record and has been updated, the token moves when
/// oversight freezes it, and the holder's balance can take the buffer's,
/// *finalize* succeeds, and the record then names the buffer's recipient,
/// key and ciphertext.
pub proof fn lemma_hand_off(
    program_id: Seq<u8>,
    authority: Wallet,
    stealth: Record<StealthAccount>,
    b: Record<CipherKeyTransferBuffer>,
    move_token: bool,
)
    requires
        authority.is_signer,
        b.owner@ == program_id && b.data.key == Key::CipherKeyTransferBufferV1,
        stealth.owner@ == program_id && stealth.data.key == Key::StealthAccountV1,
        is_derived(stealth.address@, stealth_seeds(stealth.data.mint@), program_id),
        is_derived(b.address@, transfer_buffer_seeds(b.data.wallet_pk@, stealth.data.mint@), program_id),
        stealth.data.wallet_pk@ == authority.key@,
        b.data.stealth_key@ == stealth.address@,
        b.data.updated,
        move_token || stealth.data.method != OversightMethod::Freeze,
        authority.lamports + b.lamports <= u64::MAX,
    ensures
        fini_outcome(program_id, authority, stealth, Some(b), move_token) is Ok,
        handed_off(stealth, b.data).data.wallet_pk == b.data.wallet_pk,
        handed_off(stealth, b.data).data.elgamal_pk == b.data.elgamal_pk,
        handed_off(stealth, b.data).data.encrypted_cipher_key == b.data.encrypted_cipher_key,
{
}

} // verus!
