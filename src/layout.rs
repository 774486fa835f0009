//! The byte layout of the records in storage. Every record starts with its
//! discriminator; fields follow in a fixed order, keys as 32 bytes and
//! ciphertexts as 64.

use vstd::prelude::*;
use crate::bytes::read32;
use vstd::slice::slice_subrange;
use crate::state::{CipherKeyTransferBuffer, EncryptionKeyBuffer, Key, OversightMethod, StealthAccount};

verus! {

/// Length of a stored key registration.
pub const ENCRYPTION_KEY_BUFFER_LEN: usize = 97;

/// Length of a stored transfer buffer.
pub const TRANSFER_BUFFER_LEN: usize = 162;

/// Length of a stored stealth record's content locator.
pub const URI_LEN: usize = 200;

/// Length of a stored stealth record.
pub const STEALTH_ACCOUNT_LEN: usize = 363;

/// The byte a discriminator is stored as.
pub open spec fn key_tag(k: Key) -> u8 {
    match k {
        Key::Uninitialized => 0,
        Key::StealthAccountV1 => 1,
        Key::CipherKeyTransferBufferV1 => 2,
        Key::EncryptionKeyBufferV1 => 3,
    }
}

/// The byte an oversight method is stored as.
pub open spec fn method_tag(m: OversightMethod) -> u8 {
    match m {
        OversightMethod::NoOversight => 0,
        OversightMethod::Royalties => 1,
        OversightMethod::Freeze => 2,
    }
}

/// The byte a flag is stored as.
pub open spec fn flag_tag(b: bool) -> u8 {
    if b { 1 } else { 0 }
}

/// The stored form of a key registration.
pub open spec fn encryption_key_buffer_bytes(e: EncryptionKeyBuffer) -> Seq<u8> {
    seq![key_tag(e.key)] + e.owner@ + e.mint@ + e.elgamal_pk@
}

/// The stored form of a transfer buffer.
pub open spec fn transfer_buffer_bytes(b: CipherKeyTransferBuffer) -> Seq<u8> {
    seq![key_tag(b.key), flag_tag(b.updated)] + b.stealth_key@ + b.wallet_pk@ + b.elgamal_pk@ + b.encrypted_cipher_key@
}

/// The stored form of a stealth record; its locator must be `URI_LEN`
/// bytes long.
pub open spec fn stealth_account_bytes(s: StealthAccount) -> Seq<u8> {
    seq![key_tag(s.key), method_tag(s.method), s.bump_seed] + s.mint@ + s.wallet_pk@ + s.elgamal_pk@
        + s.encrypted_cipher_key@ + s.uri@
}

/// Reads a stored discriminator.
pub fn decode_key(tag: u8) -> (r: Option<Key>)
    ensures
        r matches Some(k) ==> key_tag(k) == tag,
        r is None <==> tag > 3,
{
    match tag {
        0 => Some(Key::Uninitialized),
        1 => Some(Key::StealthAccountV1),
        2 => Some(Key::CipherKeyTransferBufferV1),
        3 => Some(Key::EncryptionKeyBufferV1),
        _ => None,
    }
}

fn key_byte(k: Key) -> (r: u8)
    ensures
        r == key_tag(k),
{
    match k {
        Key::Uninitialized => 0,
        Key::StealthAccountV1 => 1,
        Key::CipherKeyTransferBufferV1 => 2,
        Key::EncryptionKeyBufferV1 => 3,
    }
}

fn method_byte(m: OversightMethod) -> (r: u8)
    ensures
        r == method_tag(m),
{
    match m {
        OversightMethod::NoOversight => 0,
        OversightMethod::Royalties => 1,
        OversightMethod::Freeze => 2,
    }
}

/// Reads a stored oversight method.
pub fn decode_method(tag: u8) -> (r: Option<OversightMethod>)
    ensures
        r matches Some(m) ==> method_tag(m) == tag,
        r is None <==> tag > 2,
{
    match tag {
        0 => Some(OversightMethod::NoOversight),
        1 => Some(OversightMethod::Royalties),
        2 => Some(OversightMethod::Freeze),
        _ => None,
    }
}

/// Appends `b` to `v`.
fn append(v: &mut Vec<u8>, b: &[u8])
    ensures
        final(v)@ == old(v)@ + b@,
{
    let mut i: usize = 0;
    while i < b.len()
        invariant
            i <= b@.len(),
            v@ == old(v)@ + b@.subrange(0, i as int),
        decreases b@.len() - i,
    {
        v.push(b[i]);
        i += 1;
        assert(v@ =~= old(v)@ + b@.subrange(0, i as int));
    }
    assert(b@.subrange(0, b@.len() as int) =~= b@);
}

/// Copies the 64 bytes of `buf` at offset `start`.
pub fn read64(buf: &[u8], start: usize) -> (r: [u8; 64])
    requires
        start + 64 <= buf@.len(),
    ensures
        r@ == buf@.subrange(start as int, start + 64),
{
    let n: usize = buf.len();
    let mut r: [u8; 64] = [0u8; 64];
    let mut i: usize = 0;
    while i < 64
        invariant
            n == buf@.len(),
            start + 64 <= buf@.len(),
            i <= 64,
            forall|j: int| 0 <= j < i ==> r@[j] == buf@[start + j],
        decreases 64 - i,
    {
        r[i] = buf[start + i];
        i += 1;
    }
    assert(r@ =~= buf@.subrange(start as int, start + 64));
    r
}

/// The stored form of a key registration.
pub fn encode_encryption_key_buffer(e: &EncryptionKeyBuffer) -> (r: Vec<u8>)
    ensures
        r@ == encryption_key_buffer_bytes(*e),
{
    let mut v: Vec<u8> = Vec::new();
    v.push(key_byte(e.key));
    append(&mut v, &e.owner);
    append(&mut v, &e.mint);
    append(&mut v, &e.elgamal_pk);
    v
}

/// Reads a stored key registration; `None` unless the length and the
/// discriminator byte are valid.
pub fn decode_encryption_key_buffer(data: &[u8]) -> (r: Option<EncryptionKeyBuffer>)
    ensures
        r is Some <==> data@.len() == ENCRYPTION_KEY_BUFFER_LEN && data@[0] <= 3,
        r matches Some(e) ==> encryption_key_buffer_bytes(e) == data@,
{
    if data.len() != ENCRYPTION_KEY_BUFFER_LEN {
        return None;
    }
    let key = match decode_key(data[0]) {
        Some(k) => k,
        None => return None,
    };
    let e = EncryptionKeyBuffer { key, owner: read32(data, 1), mint: read32(data, 33), elgamal_pk: read32(data, 65) };
    assert(encryption_key_buffer_bytes(e) =~= data@);
    Some(e)
}

/// The stored form of a transfer buffer.
pub fn encode_transfer_buffer(b: &CipherKeyTransferBuffer) -> (r: Vec<u8>)
    ensures
        r@ == transfer_buffer_bytes(*b),
{
    let mut v: Vec<u8> = Vec::new();
    v.push(key_byte(b.key));
    v.push(if b.updated { 1 } else { 0 });
    append(&mut v, &b.stealth_key);
    append(&mut v, &b.wallet_pk);
    append(&mut v, &b.elgamal_pk);
    append(&mut v, &b.encrypted_cipher_key);
    v
}

/// Reads a stored transfer buffer; `None` unless the length, the
/// discriminator byte and the flag byte are valid.
pub fn decode_transfer_buffer(data: &[u8]) -> (r: Option<CipherKeyTransferBuffer>)
    ensures
        r is Some <==> data@.len() == TRANSFER_BUFFER_LEN && data@[0] <= 3 && data@[1] <= 1,
        r matches Some(b) ==> transfer_buffer_bytes(b) == data@,
{
    if data.len() != TRANSFER_BUFFER_LEN {
        return None;
    }
    let key = match decode_key(data[0]) {
        Some(k) => k,
        None => return None,
    };
    if data[1] > 1 {
        return None;
    }
    let b = CipherKeyTransferBuffer {
        key,
        updated: data[1] == 1,
        stealth_key: read32(data, 2),
        wallet_pk: read32(data, 34),
        elgamal_pk: read32(data, 66),
        encrypted_cipher_key: read64(data, 98),
    };
    assert(transfer_buffer_bytes(b) =~= data@);
    Some(b)
}

/// The stored form of a stealth record; `None` when its locator is not
/// `URI_LEN` bytes long.
pub fn encode_stealth_account(s: &StealthAccount) -> (r: Option<Vec<u8>>)
    ensures
        r is Some <==> s.uri@.len() == URI_LEN,
        r matches Some(v) ==> v@ == stealth_account_bytes(*s),
{
    if s.uri.len() != URI_LEN {
        return None;
    }
    let mut v: Vec<u8> = Vec::new();
    v.push(key_byte(s.key));
    v.push(method_byte(s.method));
    v.push(s.bump_seed);
    append(&mut v, &s.mint);
    append(&mut v, &s.wallet_pk);
    append(&mut v, &s.elgamal_pk);
    append(&mut v, &s.encrypted_cipher_key);
    append(&mut v, s.uri.as_slice());
    Some(v)
}

/// Reads a stored stealth record; `None` unless the length, the
/// discriminator byte and the method byte are valid.
pub fn decode_stealth_account(data: &[u8]) -> (r: Option<StealthAccount>)
    ensures
        r is Some <==> data@.len() == STEALTH_ACCOUNT_LEN && data@[0] <= 3 && data@[1] <= 2,
        r matches Some(s) ==> stealth_account_bytes(s) == data@,
{
    if data.len() != STEALTH_ACCOUNT_LEN {
        return None;
    }
    let key = match decode_key(data[0]) {
        Some(k) => k,
        None => return None,
    };
    let method = match decode_method(data[1]) {
        Some(m) => m,
        None => return None,
    };
    let mut uri: Vec<u8> = Vec::new();
    append(&mut uri, slice_subrange(data, 163, STEALTH_ACCOUNT_LEN));
    let s = StealthAccount {
        key,
        mint: read32(data, 3),
        wallet_pk: read32(data, 35),
        elgamal_pk: read32(data, 67),
        encrypted_cipher_key: read64(data, 99),
        uri,
        method,
        bump_seed: data[2],
    };
    assert(stealth_account_bytes(s) =~= data@);
    Some(s)
}

} // verus!
