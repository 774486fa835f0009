use stealth::configure::{
    check_freeze_handover, close_elgamal_pubkey, configure_metadata, publish_elgamal_pubkey,
    ConfigureMetadata, MintState, OversightPlan, METADATA_PREFIX,
};
use stealth::equality::TransferData;
use stealth::error::StealthError;
use stealth::instruction::{decode_instruction_type, StealthInstruction};
use stealth::royalties::{royalty_update, scale_creator_shares, Creator, Metadata};
use stealth::state::{
    derive_address, CipherKeyTransferBuffer, EncryptionKeyBuffer, Key, OversightMethod, Record,
    StealthAccount, Wallet, PREFIX, TRANSFER,
};
use stealth::transfer::{
    fini_transfer, init_transfer, submit_chunk, validate_transfer_buffer, InitTransfer, TokenAccount,
    TokenStep,
};

const PROGRAM: [u8; 32] = [5u8; 32];
const TOKEN_PROGRAM: [u8; 32] = [6u8; 32];
const METADATA_PROGRAM: [u8; 32] = [12u8; 32];
const MINT: [u8; 32] = [7u8; 32];
const HOLDER_A: [u8; 32] = [10u8; 32];
const HOLDER_B: [u8; 32] = [11u8; 32];
const PK_A: [u8; 32] = [0xAA; 32];
const PK_B: [u8; 32] = [0xBB; 32];
const CT_A: [u8; 64] = [0xA1; 64];
const CT_B: [u8; 64] = [0xB1; 64];
const STEALTH_RENT: u64 = 2_000;
const BUFFER_RENT: u64 = 1_500;

fn address(seeds: Vec<Vec<u8>>) -> [u8; 32] {
    derive_address(&seeds, &PROGRAM).unwrap().0
}

fn stealth_address() -> [u8; 32] {
    address(vec![PREFIX.to_vec(), MINT.to_vec()])
}

fn buffer_address(recipient: &[u8; 32]) -> [u8; 32] {
    address(vec![TRANSFER.to_vec(), recipient.to_vec(), MINT.to_vec()])
}

fn registration_address(wallet: &[u8; 32]) -> [u8; 32] {
    address(vec![PREFIX.to_vec(), wallet.to_vec(), MINT.to_vec()])
}

fn stealth(method: OversightMethod, lamports: u64) -> Record<StealthAccount> {
    Record {
        address: stealth_address(),
        owner: PROGRAM,
        lamports,
        data: StealthAccount {
            key: Key::StealthAccountV1,
            mint: MINT,
            wallet_pk: HOLDER_A,
            elgamal_pk: PK_A,
            encrypted_cipher_key: CT_A,
            uri: b"https://example.com/c".to_vec(),
            method,
            bump_seed: 255,
        },
    }
}

fn wallet(key: [u8; 32], lamports: u64) -> Wallet {
    Wallet { key, is_signer: true, lamports }
}

fn init_request(holder: &[u8; 32], recipient: &[u8; 32], recipient_pk: &[u8; 32]) -> InitTransfer {
    InitTransfer {
        program_id: PROGRAM,
        token_program_id: TOKEN_PROGRAM,
        mint: MINT,
        mint_owner: TOKEN_PROGRAM,
        token_account: TokenAccount {
            address: [20u8; 32],
            owner_program: TOKEN_PROGRAM,
            mint: MINT,
            owner: *holder,
            amount: 1,
        },
        recipient: *recipient,
        recipient_elgamal: Record {
            address: registration_address(recipient),
            owner: PROGRAM,
            lamports: 900,
            data: EncryptionKeyBuffer {
                key: Key::EncryptionKeyBufferV1,
                owner: *recipient,
                mint: MINT,
                elgamal_pk: *recipient_pk,
            },
        },
        buffer_address: buffer_address(recipient),
        stealth_rent: STEALTH_RENT,
        buffer_rent: BUFFER_RENT,
    }
}

fn statement(ct_src: [u8; 64], pk_src: [u8; 32], pk_dst: [u8; 32], ct_dst: [u8; 64]) -> TransferData {
    TransferData { src_pubkey: pk_src, dst_pubkey: pk_dst, src_ct: ct_src, dst_ct: ct_dst, equality_proof: vec![0u8; 160] }
}

#[test]
fn end_to_end_hand_off() {
    let mut a = wallet(HOLDER_A, 10_000);
    let mut rec = stealth(OversightMethod::NoOversight, STEALTH_RENT);
    let mut slot: Option<Record<CipherKeyTransferBuffer>> = None;
    let req = init_request(&HOLDER_A, &HOLDER_B, &PK_B);
    assert_eq!(init_transfer(&req, &mut a, &mut rec, &mut slot), Ok(()));
    let b = slot.as_ref().unwrap();
    assert_eq!(b.data.wallet_pk, HOLDER_B);
    assert_eq!(b.data.elgamal_pk, PK_B);
    assert!(!b.data.updated);
    assert_eq!(a.lamports, 10_000 - BUFFER_RENT);

    let t = statement(CT_A, PK_A, PK_B, CT_B);
    assert_eq!(submit_chunk(&PROGRAM, &a, &rec, &mut slot, &t, Ok(())), Ok(()));
    assert!(slot.as_ref().unwrap().data.updated);
    assert_eq!(slot.as_ref().unwrap().data.encrypted_cipher_key, CT_B);

    assert_eq!(fini_transfer(&PROGRAM, &mut a, &mut rec, &mut slot, false), Ok(TokenStep::Stay));
    assert_eq!(rec.data.wallet_pk, HOLDER_B);
    assert_eq!(rec.data.elgamal_pk, PK_B);
    assert_eq!(rec.data.encrypted_cipher_key, CT_B);
    assert!(slot.is_none());
    assert_eq!(a.lamports, 10_000);
}

#[test]
fn initiate_twice_fails_until_finalized() {
    let mut a = wallet(HOLDER_A, 10_000);
    let mut rec = stealth(OversightMethod::NoOversight, STEALTH_RENT);
    let mut slot = None;
    let req = init_request(&HOLDER_A, &HOLDER_B, &PK_B);
    assert_eq!(init_transfer(&req, &mut a, &mut rec, &mut slot), Ok(()));
    let before = slot.clone();
    assert_eq!(init_transfer(&req, &mut a, &mut rec, &mut slot), Err(StealthError::AccountAlreadyInUse));
    assert_eq!(slot.as_ref().unwrap().lamports, before.as_ref().unwrap().lamports);

    let t = statement(CT_A, PK_A, PK_B, CT_B);
    assert_eq!(submit_chunk(&PROGRAM, &a, &rec, &mut slot, &t, Ok(())), Ok(()));
    assert_eq!(fini_transfer(&PROGRAM, &mut a, &mut rec, &mut slot, false), Ok(TokenStep::Stay));

    // B now holds the collectible and opens a hand-off back to the same recipient slot's pair.
    let mut b = wallet(HOLDER_B, 10_000);
    let req_again = init_request(&HOLDER_B, &HOLDER_B, &PK_B);
    assert_eq!(init_transfer(&req_again, &mut b, &mut rec, &mut slot), Ok(()));
    assert!(slot.is_some());
}

#[test]
fn second_chunk_fails_and_keeps_ciphertext() {
    let mut a = wallet(HOLDER_A, 10_000);
    let mut rec = stealth(OversightMethod::NoOversight, STEALTH_RENT);
    let mut slot = None;
    init_transfer(&init_request(&HOLDER_A, &HOLDER_B, &PK_B), &mut a, &mut rec, &mut slot).unwrap();
    let t = statement(CT_A, PK_A, PK_B, CT_B);
    submit_chunk(&PROGRAM, &a, &rec, &mut slot, &t, Ok(())).unwrap();
    let other = statement(CT_A, PK_A, PK_B, [0x77; 64]);
    assert_eq!(submit_chunk(&PROGRAM, &a, &rec, &mut slot, &other, Ok(())), Err(StealthError::InvalidArgument));
    assert_eq!(slot.as_ref().unwrap().data.encrypted_cipher_key, CT_B);
}

#[test]
fn finalize_before_chunk_fails() {
    let mut a = wallet(HOLDER_A, 10_000);
    let mut rec = stealth(OversightMethod::NoOversight, STEALTH_RENT);
    let mut slot = None;
    init_transfer(&init_request(&HOLDER_A, &HOLDER_B, &PK_B), &mut a, &mut rec, &mut slot).unwrap();
    assert_eq!(fini_transfer(&PROGRAM, &mut a, &mut rec, &mut slot, false), Err(StealthError::InvalidArgument));
    assert!(slot.is_some());
    assert_eq!(rec.data.wallet_pk, HOLDER_A);
}

#[test]
fn royalty_escrow_moves_with_the_buffer() {
    let escrow = 7_777;
    let mut a = wallet(HOLDER_A, 10_000);
    let mut rec = stealth(OversightMethod::Royalties, STEALTH_RENT + escrow);
    let mut slot = None;
    init_transfer(&init_request(&HOLDER_A, &HOLDER_B, &PK_B), &mut a, &mut rec, &mut slot).unwrap();
    assert_eq!(rec.lamports, STEALTH_RENT);
    let full = slot.as_ref().unwrap().lamports;
    assert_eq!(full, BUFFER_RENT + escrow);
    let t = statement(CT_A, PK_A, PK_B, CT_B);
    submit_chunk(&PROGRAM, &a, &rec, &mut slot, &t, Ok(())).unwrap();
    let before = a.lamports;
    assert_eq!(fini_transfer(&PROGRAM, &mut a, &mut rec, &mut slot, true), Ok(TokenStep::Move));
    assert_eq!(a.lamports, before + full);
}

#[test]
fn royalty_record_below_rent_overflows() {
    let mut a = wallet(HOLDER_A, 10_000);
    let mut rec = stealth(OversightMethod::Royalties, STEALTH_RENT - 1);
    let mut slot = None;
    assert_eq!(
        init_transfer(&init_request(&HOLDER_A, &HOLDER_B, &PK_B), &mut a, &mut rec, &mut slot),
        Err(StealthError::Overflow)
    );
    assert!(slot.is_none());
    assert_eq!(a.lamports, 10_000);
}

#[test]
fn freeze_oversight_needs_token_move() {
    let mut a = wallet(HOLDER_A, 10_000);
    let mut rec = stealth(OversightMethod::Freeze, STEALTH_RENT);
    let mut slot = None;
    init_transfer(&init_request(&HOLDER_A, &HOLDER_B, &PK_B), &mut a, &mut rec, &mut slot).unwrap();
    submit_chunk(&PROGRAM, &a, &rec, &mut slot, &statement(CT_A, PK_A, PK_B, CT_B), Ok(())).unwrap();
    assert_eq!(fini_transfer(&PROGRAM, &mut a, &mut rec, &mut slot, false), Err(StealthError::InvalidArgument));
    assert_eq!(fini_transfer(&PROGRAM, &mut a, &mut rec, &mut slot, true), Ok(TokenStep::ThawMoveFreeze));
}

#[test]
fn initiate_checks_in_order() {
    let mut a = wallet(HOLDER_A, 10_000);
    let mut rec = stealth(OversightMethod::NoOversight, STEALTH_RENT);
    let mut slot = None;
    let mut req = init_request(&HOLDER_A, &HOLDER_B, &PK_B);
    req.token_account.amount = 2;
    assert_eq!(init_transfer(&req, &mut a, &mut rec, &mut slot), Err(StealthError::InvalidArgument));
    let mut req = init_request(&HOLDER_A, &HOLDER_B, &PK_B);
    req.recipient_elgamal.address = [0u8; 32];
    assert_eq!(init_transfer(&req, &mut a, &mut rec, &mut slot), Err(StealthError::InvalidElgamalPubkeyPDA));
    let mut req = init_request(&HOLDER_A, &HOLDER_B, &PK_B);
    req.recipient_elgamal.data.key = Key::Uninitialized;
    assert_eq!(init_transfer(&req, &mut a, &mut rec, &mut slot), Err(StealthError::InvalidAccountData));
    let mut req = init_request(&HOLDER_A, &HOLDER_B, &PK_B);
    req.buffer_address = [0u8; 32];
    assert_eq!(init_transfer(&req, &mut a, &mut rec, &mut slot), Err(StealthError::InvalidArgument));
    let mut poor = wallet(HOLDER_A, 10);
    let req = init_request(&HOLDER_A, &HOLDER_B, &PK_B);
    assert_eq!(init_transfer(&req, &mut poor, &mut rec, &mut slot), Err(StealthError::InsufficientFunds));
    let mut other = stealth(OversightMethod::NoOversight, STEALTH_RENT);
    other.address = [3u8; 32];
    assert_eq!(init_transfer(&req, &mut a, &mut other, &mut slot), Err(StealthError::InvalidStealthKey));
    assert!(slot.is_none());
}

#[test]
fn chunk_statement_must_match_records() {
    let mut a = wallet(HOLDER_A, 10_000);
    let mut rec = stealth(OversightMethod::NoOversight, STEALTH_RENT);
    let mut slot = None;
    init_transfer(&init_request(&HOLDER_A, &HOLDER_B, &PK_B), &mut a, &mut rec, &mut slot).unwrap();
    let wrong_src = statement([0u8; 64], PK_A, PK_B, CT_B);
    assert_eq!(submit_chunk(&PROGRAM, &a, &rec, &mut slot, &wrong_src, Ok(())), Err(StealthError::InvalidArgument));
    let wrong_dst = statement(CT_A, PK_A, PK_A, CT_B);
    assert_eq!(submit_chunk(&PROGRAM, &a, &rec, &mut slot, &wrong_dst, Ok(())), Err(StealthError::InvalidArgument));
    let t = statement(CT_A, PK_A, PK_B, CT_B);
    assert_eq!(
        submit_chunk(&PROGRAM, &a, &rec, &mut slot, &t, Err(StealthError::ProofVerificationError)),
        Err(StealthError::ProofVerificationError)
    );
    assert!(!slot.as_ref().unwrap().data.updated);
    let intruder = wallet(HOLDER_B, 0);
    assert_eq!(submit_chunk(&PROGRAM, &intruder, &rec, &mut slot, &t, Ok(())), Err(StealthError::InvalidArgument));
}

#[test]
fn buffer_must_belong_to_record_and_holder() {
    let rec = stealth(OversightMethod::NoOversight, STEALTH_RENT);
    let buffer = CipherKeyTransferBuffer {
        key: Key::CipherKeyTransferBufferV1,
        stealth_key: rec.address,
        wallet_pk: HOLDER_B,
        elgamal_pk: PK_B,
        encrypted_cipher_key: [0u8; 64],
        updated: false,
    };
    assert_eq!(validate_transfer_buffer(&buffer, &rec.data, &HOLDER_A, &rec.address), Ok(()));
    assert_eq!(validate_transfer_buffer(&buffer, &rec.data, &HOLDER_B, &rec.address), Err(StealthError::InvalidArgument));
    assert_eq!(validate_transfer_buffer(&buffer, &rec.data, &HOLDER_A, &[1u8; 32]), Err(StealthError::InvalidArgument));
}

fn creator(k: u8, share: u8) -> Creator {
    Creator { address: [k; 32], verified: true, share }
}

fn metadata(bp: u16, creators: Option<Vec<Creator>>) -> Metadata {
    Metadata { mint: MINT, update_authority: HOLDER_A, is_mutable: true, seller_fee_basis_points: bp, creators }
}

#[test]
fn creator_shares_scale() {
    let key = [99u8; 32];
    let v = scale_creator_shares(&key, &metadata(500, Some(vec![creator(1, 60), creator(2, 40)]))).unwrap();
    // 500 * 60 / 100 / 100 = 3, 500 * 40 / 100 / 100 = 2.
    assert_eq!(v, vec![
        Creator { share: 3, ..creator(1, 60) },
        Creator { share: 2, ..creator(2, 40) },
        Creator { address: key, verified: false, share: 95 },
    ]);
    assert_eq!(scale_creator_shares(&key, &metadata(500, None)), Some(vec![]));
}

#[test]
fn creator_shares_that_do_not_fit() {
    let key = [99u8; 32];
    // 65535 * 100 / 100 / 100 = 655: more than a byte.
    assert_eq!(scale_creator_shares(&key, &metadata(65535, Some(vec![creator(1, 100)]))), None);
    // 20000 * 60 / 100 / 100 = 120: more than 100 in all.
    assert_eq!(scale_creator_shares(&key, &metadata(20000, Some(vec![creator(1, 60)]))), None);
    // 10000 * 100 / 100 / 100 = 100 leaves nothing for the record.
    let v = scale_creator_shares(&key, &metadata(10000, Some(vec![creator(1, 100)]))).unwrap();
    assert_eq!(v[1].share, 0);
    assert_eq!(royalty_update(&[1u8; 32], &METADATA_PROGRAM, &key, &metadata(500, None)), Err(StealthError::InvalidArgument));
    assert_eq!(
        royalty_update(&METADATA_PROGRAM, &METADATA_PROGRAM, &key, &metadata(65535, Some(vec![creator(1, 100)]))),
        Err(StealthError::Overflow)
    );
    assert_eq!(royalty_update(&METADATA_PROGRAM, &METADATA_PROGRAM, &key, &metadata(500, None)).unwrap().0, 10000);
}

#[test]
fn freeze_handover_checks() {
    let md = metadata(500, None);
    let mint = MintState { decimals: 0, supply: 1, mint_authority: Some(HOLDER_A) };
    let tok = TokenAccount { address: [20u8; 32], owner_program: TOKEN_PROGRAM, mint: MINT, owner: HOLDER_A, amount: 1 };
    assert_eq!(check_freeze_handover(&TOKEN_PROGRAM, &TOKEN_PROGRAM, &md, &MINT, &mint, &HOLDER_A, &tok), Ok(()));
    assert_eq!(check_freeze_handover(&[0u8; 32], &TOKEN_PROGRAM, &md, &MINT, &mint, &HOLDER_A, &tok), Err(StealthError::InvalidArgument));
    let two = MintState { supply: 2, ..mint };
    assert_eq!(check_freeze_handover(&TOKEN_PROGRAM, &TOKEN_PROGRAM, &md, &MINT, &two, &HOLDER_A, &tok), Err(StealthError::InvalidMintInfo));
    let other_auth = MintState { mint_authority: Some(HOLDER_B), ..mint };
    assert_eq!(check_freeze_handover(&TOKEN_PROGRAM, &TOKEN_PROGRAM, &md, &MINT, &other_auth, &HOLDER_A, &tok), Err(StealthError::InvalidUpdateAuthority));
    let empty = TokenAccount { amount: 0, ..tok };
    assert_eq!(check_freeze_handover(&TOKEN_PROGRAM, &TOKEN_PROGRAM, &md, &MINT, &mint, &HOLDER_A, &empty), Err(StealthError::InvalidTokenAccountInfo));
}

#[test]
fn key_registration_round_trip() {
    let mut b = wallet(HOLDER_B, 5_000);
    let mut reg = None;
    let at = registration_address(&HOLDER_B);
    assert_eq!(publish_elgamal_pubkey(&PROGRAM, &TOKEN_PROGRAM, &mut b, &MINT, &TOKEN_PROGRAM, &at, &mut reg, &PK_B, 900), Ok(()));
    assert_eq!(b.lamports, 4_100);
    assert_eq!(reg.as_ref().unwrap().data.elgamal_pk, PK_B);
    assert_eq!(
        publish_elgamal_pubkey(&PROGRAM, &TOKEN_PROGRAM, &mut b, &MINT, &TOKEN_PROGRAM, &at, &mut reg, &PK_B, 900),
        Err(StealthError::AccountAlreadyInUse)
    );
    let mut a = wallet(HOLDER_A, 5_000);
    assert_eq!(close_elgamal_pubkey(&PROGRAM, &TOKEN_PROGRAM, &mut a, &MINT, &TOKEN_PROGRAM, &mut reg), Err(StealthError::InvalidElgamalPubkeyPDA));
    assert_eq!(close_elgamal_pubkey(&PROGRAM, &TOKEN_PROGRAM, &mut b, &MINT, &TOKEN_PROGRAM, &mut reg), Ok(()));
    assert_eq!(b.lamports, 5_000);
    assert!(reg.is_none());
}

#[test]
fn configure_creates_record() {
    let stealth_at = stealth_address();
    let metadata_at = derive_address(
        &vec![METADATA_PREFIX.to_vec(), METADATA_PROGRAM.to_vec(), MINT.to_vec()],
        &METADATA_PROGRAM,
    ).unwrap().0;
    let req = ConfigureMetadata {
        program_id: PROGRAM,
        token_program_id: TOKEN_PROGRAM,
        metadata_program_id: METADATA_PROGRAM,
        mint: MINT,
        mint_owner: TOKEN_PROGRAM,
        metadata_address: metadata_at,
        metadata_owner: METADATA_PROGRAM,
        metadata: metadata(500, Some(vec![creator(1, 100)])),
        update_authority: wallet(HOLDER_A, 0),
        stealth_address: stealth_at,
        elgamal_pk: PK_A,
        encrypted_cipher_key: CT_A,
        uri: b"u".to_vec(),
        method: OversightMethod::Royalties,
        oversight_program: METADATA_PROGRAM,
        mint_state: MintState { decimals: 0, supply: 1, mint_authority: Some(HOLDER_A) },
        token_account: None,
        stealth_rent: STEALTH_RENT,
    };
    let mut payer = wallet(HOLDER_A, 3_000);
    let mut slot = None;
    let plan = configure_metadata(&req, &mut payer, &mut slot).unwrap();
    match plan {
        OversightPlan::Royalties { seller_fee_basis_points, creators } => {
            assert_eq!(seller_fee_basis_points, 10000);
            assert_eq!(creators[0].share, 5);
            assert_eq!(creators[1].share, 95);
            assert_eq!(creators[1].address, stealth_at);
        }
        _ => panic!("royalty plan expected"),
    }
    let rec = slot.as_ref().unwrap();
    assert_eq!(rec.data.wallet_pk, HOLDER_A);
    assert_eq!(rec.lamports, STEALTH_RENT);
    assert_eq!(payer.lamports, 1_000);
    let mut again = wallet(HOLDER_A, 3_000);
    assert_eq!(configure_metadata(&req, &mut again, &mut slot).err(), Some(StealthError::AccountAlreadyInUse));
    let frozen = ConfigureMetadata { method: OversightMethod::Freeze, ..req.clone() };
    let mut s2 = None;
    assert_eq!(configure_metadata(&frozen, &mut again, &mut s2).err(), Some(StealthError::InvalidArgument));
    let immutable = ConfigureMetadata { metadata: Metadata { is_mutable: false, ..req.metadata.clone() }, ..req.clone() };
    assert_eq!(configure_metadata(&immutable, &mut again, &mut s2).err(), Some(StealthError::MetadataIsImmutable));
    let misplaced = ConfigureMetadata { metadata_address: [1u8; 32], ..req.clone() };
    assert_eq!(configure_metadata(&misplaced, &mut again, &mut s2).err(), Some(StealthError::InvalidMetadataKey));
    let stranger = ConfigureMetadata { update_authority: wallet(HOLDER_B, 0), ..req.clone() };
    assert_eq!(configure_metadata(&stranger, &mut again, &mut s2).err(), Some(StealthError::InvalidUpdateAuthority));
    let unsigned = ConfigureMetadata { update_authority: Wallet { is_signer: false, ..wallet(HOLDER_A, 0) }, ..req.clone() };
    assert_eq!(configure_metadata(&unsigned, &mut again, &mut s2).err(), Some(StealthError::InvalidArgument));
    assert!(s2.is_none());
    assert_eq!(again.lamports, 3_000);
}

#[test]
fn instruction_tags() {
    assert_eq!(decode_instruction_type(&[1, 9, 9]), Ok(StealthInstruction::InitTransfer));
    assert_eq!(decode_instruction_type(&[4]), Ok(StealthInstruction::TransferChunkSlow));
    assert_eq!(decode_instruction_type(&[7]), Err(StealthError::InvalidArgument));
    assert_eq!(decode_instruction_type(&[]), Err(StealthError::InvalidArgument));
}
