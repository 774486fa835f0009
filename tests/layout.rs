use stealth::instruction::{decode_configure_data, decode_transfer_data};
use stealth::layout::{
    decode_encryption_key_buffer, decode_key, decode_stealth_account, decode_transfer_buffer,
    encode_encryption_key_buffer, encode_stealth_account, encode_transfer_buffer, STEALTH_ACCOUNT_LEN,
    TRANSFER_BUFFER_LEN, URI_LEN,
};
use stealth::state::{CipherKeyTransferBuffer, EncryptionKeyBuffer, Key, OversightMethod, StealthAccount};

#[test]
fn transfer_buffer_round_trip() {
    let b = CipherKeyTransferBuffer {
        key: Key::CipherKeyTransferBufferV1,
        stealth_key: [1u8; 32],
        wallet_pk: [2u8; 32],
        elgamal_pk: [3u8; 32],
        encrypted_cipher_key: [4u8; 64],
        updated: true,
    };
    let bytes = encode_transfer_buffer(&b);
    assert_eq!(bytes.len(), TRANSFER_BUFFER_LEN);
    assert_eq!(&bytes[..3], &[2, 1, 1]);
    let back = decode_transfer_buffer(&bytes).unwrap();
    assert_eq!(encode_transfer_buffer(&back), bytes);
    assert!(back.updated);
    let mut bad = bytes.clone();
    bad[1] = 2;
    assert!(decode_transfer_buffer(&bad).is_none());
    assert!(decode_transfer_buffer(&bytes[1..]).is_none());
}

#[test]
fn registration_round_trip() {
    let e = EncryptionKeyBuffer { key: Key::EncryptionKeyBufferV1, owner: [5u8; 32], mint: [6u8; 32], elgamal_pk: [7u8; 32] };
    let bytes = encode_encryption_key_buffer(&e);
    assert_eq!(bytes[0], 3);
    assert_eq!(bytes[1], 5);
    let back = decode_encryption_key_buffer(&bytes).unwrap();
    assert_eq!(back.elgamal_pk, [7u8; 32]);
    assert_eq!(back.key, Key::EncryptionKeyBufferV1);
}

#[test]
fn stealth_record_round_trip() {
    let s = StealthAccount {
        key: Key::StealthAccountV1,
        mint: [8u8; 32],
        wallet_pk: [9u8; 32],
        elgamal_pk: [10u8; 32],
        encrypted_cipher_key: [11u8; 64],
        uri: vec![b'x'; URI_LEN],
        method: OversightMethod::Freeze,
        bump_seed: 254,
    };
    let bytes = encode_stealth_account(&s).unwrap();
    assert_eq!(bytes.len(), STEALTH_ACCOUNT_LEN);
    assert_eq!(&bytes[..3], &[1, 2, 254]);
    let back = decode_stealth_account(&bytes).unwrap();
    assert_eq!(back.method, OversightMethod::Freeze);
    assert_eq!(back.uri, s.uri);
    assert_eq!(back.encrypted_cipher_key, s.encrypted_cipher_key);
    let short = StealthAccount { uri: vec![1, 2, 3], ..s };
    assert!(encode_stealth_account(&short).is_none());
    let mut bad = bytes;
    bad[1] = 3;
    assert!(decode_stealth_account(&bad).is_none());
}

#[test]
fn discriminators() {
    assert_eq!(decode_key(0), Some(Key::Uninitialized));
    assert_eq!(decode_key(2), Some(Key::CipherKeyTransferBufferV1));
    assert_eq!(decode_key(4), None);
}

#[test]
fn request_data() {
    let mut data = vec![0u8; 352];
    data[0] = 1;
    data[32] = 2;
    data[64] = 3;
    data[128] = 4;
    data[192] = 5;
    let t = decode_transfer_data(&data).unwrap();
    assert_eq!(t.src_pubkey[0], 1);
    assert_eq!(t.dst_pubkey[0], 2);
    assert_eq!(t.src_ct[0], 3);
    assert_eq!(t.dst_ct[0], 4);
    assert_eq!(t.equality_proof.len(), 160);
    assert_eq!(t.equality_proof[0], 5);
    assert!(decode_transfer_data(&data[1..]).is_none());

    let mut cfg = vec![0u8; 297];
    cfg[0] = 6;
    cfg[96] = b'h';
    cfg[296] = 1;
    let c = decode_configure_data(&cfg).unwrap();
    assert_eq!(c.elgamal_pk[0], 6);
    assert_eq!(c.uri.len(), 200);
    assert_eq!(c.uri[0], b'h');
    assert_eq!(c.method, OversightMethod::Royalties);
    cfg[296] = 3;
    assert!(decode_configure_data(&cfg).is_none());
}
