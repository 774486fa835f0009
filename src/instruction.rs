//! The operations a request can name, by the leading tag byte of its data.

use vstd::prelude::*;
use vstd::slice::slice_subrange;
use crate::bytes::{read32, to_byte_vec};
use crate::equality::TransferData;
use crate::error::StealthError;
use crate::layout::{decode_method, method_tag, read64};
use crate::state::OversightMethod;

verus! {

/// The operations this program performs.
#[derive(Clone, Copy, Debug, PartialEq, Eq, Structural)]
pub enum StealthInstruction {
    ConfigureMetadata,
    InitTransfer,
    FiniTransfer,
    TransferChunk,
    TransferChunkSlow,
    PublishElgamalPubkey,
    CloseElgamalPubkey,
}

/// The operation that tag byte `tag` names.
pub open spec fn instruction_of(tag: u8) -> Option<StealthInstruction> {
    if tag == 0 {
        Some(StealthInstruction::ConfigureMetadata)
    } else if tag == 1 {
        Some(StealthInstruction::InitTransfer)
    } else if tag == 2 {
        Some(StealthInstruction::FiniTransfer)
    } else if tag == 3 {
        Some(StealthInstruction::TransferChunk)
    } else if tag == 4 {
        Some(StealthInstruction::TransferChunkSlow)
    } else if tag == 5 {
        Some(StealthInstruction::PublishElgamalPubkey)
    } else if tag == 6 {
        Some(StealthInstruction::CloseElgamalPubkey)
    } else {
        None
    }
}

/// Reads the operation a request names; empty data or an unknown tag is
/// refused.
pub fn decode_instruction_type(input: &[u8]) -> (r: Result<StealthInstruction, StealthError>)
    ensures
        input@.len() == 0 ==> r == Err::<StealthInstruction, StealthError>(StealthError::InvalidArgument),
        input@.len() > 0 ==> match instruction_of(input@[0]) {
            Some(i) => r == Ok::<StealthInstruction, StealthError>(i),
            None => r == Err::<StealthInstruction, StealthError>(StealthError::InvalidArgument),
        },
{
    if input.len() == 0 {
        return Err(StealthError::InvalidArgument);
    }
    match input[0] {
        0 => Ok(StealthInstruction::ConfigureMetadata),
        1 => Ok(StealthInstruction::InitTransfer),
        2 => Ok(StealthInstruction::FiniTransfer),
        3 => Ok(StealthInstruction::TransferChunk),
        4 => Ok(StealthInstruction::TransferChunkSlow),
        5 => Ok(StealthInstruction::PublishElgamalPubkey),
        6 => Ok(StealthInstruction::CloseElgamalPubkey),
        _ => Err(StealthError::InvalidArgument),
    }
}

/// Length of the data of a chunk submission, past its tag byte: both keys,
/// both ciphertexts, and the encoded proof.
pub const TRANSFER_DATA_LEN: usize = 352;

/// Length of the data of a configuration, past its tag byte: the key, the
/// ciphertext, the locator, and the oversight method.
pub const CONFIGURE_DATA_LEN: usize = 297;

/// Reads the statement and proof of a chunk submission from the request
/// data past its tag byte.
pub fn decode_transfer_data(data: &[u8]) -> (r: Option<TransferData>)
    ensures
        r is Some <==> data@.len() == TRANSFER_DATA_LEN,
        r matches Some(t) ==> {
            &&& t.src_pubkey@ == data@.subrange(0, 32)
            &&& t.dst_pubkey@ == data@.subrange(32, 64)
            &&& t.src_ct@ == data@.subrange(64, 128)
            &&& t.dst_ct@ == data@.subrange(128, 192)
            &&& t.equality_proof@ == data@.subrange(192, 352)
        },
{
    if data.len() != TRANSFER_DATA_LEN {
        return None;
    }
    Some(TransferData {
        src_pubkey: read32(data, 0),
        dst_pubkey: read32(data, 32),
        src_ct: read64(data, 64),
        dst_ct: read64(data, 128),
        equality_proof: to_byte_vec(slice_subrange(data, 192, TRANSFER_DATA_LEN)),
    })
}

/// What a configuration request carries.
#[derive(Clone, Debug)]
pub struct ConfigureMetadataData {
    pub elgamal_pk: [u8; 32],
    pub encrypted_cipher_key: [u8; 64],
    pub uri: Vec<u8>,
    pub method: OversightMethod,
}

/// Reads a configuration request from the data past its tag byte.
pub fn decode_configure_data(data: &[u8]) -> (r: Option<ConfigureMetadataData>)
    ensures
        r is Some <==> data@.len() == CONFIGURE_DATA_LEN && data@[296] <= 2,
        r matches Some(c) ==> {
            &&& c.elgamal_pk@ == data@.subrange(0, 32)
            &&& c.encrypted_cipher_key@ == data@.subrange(32, 96)
            &&& c.uri@ == data@.subrange(96, 296)
            &&& method_tag(c.method) == data@[296]
        },
{
    if data.len() != CONFIGURE_DATA_LEN {
        return None;
    }
    let method = match decode_method(data[296]) {
        Some(m) => m,
        None => return None,
    };
    Some(ConfigureMetadataData {
        elgamal_pk: read32(data, 0),
        encrypted_cipher_key: read64(data, 32),
        uri: to_byte_vec(slice_subrange(data, 96, 296)),
        method,
    })
}

} // verus!
