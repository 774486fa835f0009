//! The delegated verifier: it accepts a multiscalar multiplication computed
//! ahead of time by an outside computation service only after re-deriving or
//! byte-comparing every input that computation was fed.
//!
//! Each of the three buffers starts with a header of `HEADER_SIZE` bytes. The
//! result buffer's header records the authority, the instruction buffer's
//! key, the input buffer's key, then the number of instructions executed (a
//! little-endian `u32`). Past its header the input buffer holds the eleven
//! statement points, the eleven statement scalars, then the encoding of the
//! identity point; the result buffer holds the three products.

use vstd::prelude::*;
use crate::bytes::{keys_equal, read32, window, window_equals};
use crate::crypto::{encodings, le_encode};
use crate::equality::{
    derive_challenge, fast_accepts, proof_decodes, relations_hold, statement_points, statement_points_of, statement_scalars,
    statement_scalars_of, challenge_of, EqualityProof, TransferData,
};
use crate::error::StealthError;

verus! {

/// Bytes of header in front of each buffer's body.
pub const HEADER_SIZE: usize = 128;

/// Offset of the instruction count in the result buffer's header.
pub const INSTRUCTION_NUM_OFFSET: usize = 96;

/// Offset of the statement scalars in the input buffer.
pub const SCALARS_OFFSET: usize = 480;

/// Offset of the identity marker in the input buffer.
pub const IDENTITY_OFFSET: usize = 832;

/// Width of an encoded point in extended coordinates.
pub const EXTENDED_POINT_LEN: usize = 128;

/// The instruction program the computation service must have run, and how
/// many instructions it has.
#[derive(Clone, Debug)]
pub struct ComputeProgram {
    /// The service that owns the three buffers.
    pub program_id: [u8; 32],
    /// The instruction listing, byte for byte.
    pub instructions: Vec<u8>,
    /// How many instructions the listing holds.
    pub instruction_count: u32,
}

/// A shared storage region as it was handed in.
#[derive(Clone, Debug)]
pub struct BufferAccount {
    pub key: [u8; 32],
    pub owner: [u8; 32],
    pub data: Vec<u8>,
}

/// The extended-coordinate encoding of the identity point: X = 0, Y = 1,
/// Z = 1, T = 0.
pub open spec fn identity_encoding() -> Seq<u8> {
    Seq::new(128, |j: int| if j == 32 || j == 64 { 1u8 } else { 0u8 })
}

/// Whether a 32-byte field element encoding, read without its top bit,
/// is zero: it encodes either 0 or the prime 2^255 - 19.
pub open spec fn field_is_zero(x: Seq<u8>) -> bool {
    ||| (forall|i: int| 0 <= i < 31 ==> x[i] == 0u8) && x[31] % 128 == 0
    ||| x[0] == 0xEDu8 && (forall|i: int| 1 <= i < 31 ==> x[i] == 0xFFu8) && x[31] % 128 == 0x7F
}

/// Whether an extended-coordinate point encoding is a point (its Z
/// coordinate is not zero) and is the identity in the prime-order group
/// (its X or its Y coordinate is zero).
pub open spec fn result_is_identity(b: Seq<u8>) -> bool {
    !field_is_zero(b.subrange(64, 96)) && (field_is_zero(b.subrange(0, 32)) || field_is_zero(b.subrange(32, 64)))
}

/// Whether `buf` holds the 32-byte `items` one after the other from `start`.
pub open spec fn windows_hold(buf: Seq<u8>, start: int, items: Seq<Seq<u8>>) -> bool {
    &&& start + 32 * items.len() <= buf.len()
    &&& forall|i: int| 0 <= i < items.len() ==> #[trigger] window(buf, start + 32 * i, 32) == items[i]
}

/// Whether the result buffer's header names this authority, these two
/// buffers and the full instruction count.
pub open spec fn header_matches(data: Seq<u8>, authority: Seq<u8>, instruction_key: Seq<u8>, input_key: Seq<u8>, count: u32) -> bool {
    &&& data.len() >= HEADER_SIZE
    &&& window(data, 0, 32) == authority
    &&& window(data, 32, 32) == instruction_key
    &&& window(data, 64, 32) == input_key
    &&& window(data, INSTRUCTION_NUM_OFFSET as int, 4) == le_encode(count as nat, 4)
}

/// Whether the instruction buffer's body is exactly the listing.
pub open spec fn instructions_match(data: Seq<u8>, listing: Seq<u8>) -> bool {
    data.len() >= HEADER_SIZE && data.subrange(HEADER_SIZE as int, data.len() as int) == listing
}

/// Whether the identity marker stands in the input buffer.
pub open spec fn identity_marked(data: Seq<u8>) -> bool {
    IDENTITY_OFFSET + EXTENDED_POINT_LEN <= data.len()
        && window(data, IDENTITY_OFFSET as int, EXTENDED_POINT_LEN as int) == identity_encoding()
}

/// Whether the three products in the result buffer are each the identity.
pub open spec fn results_hold(data: Seq<u8>) -> bool {
    &&& HEADER_SIZE + 3 * EXTENDED_POINT_LEN <= data.len()
    &&& forall|i: int| 0 <= i < 3 ==> #[trigger] result_is_identity(window(data, HEADER_SIZE + 128 * i, 128))
}

/// What the delegated verifier answers for statement `t`, Pedersen base `h`,
/// the signing `authority`, and challenge scalar `c`, checking in order:
/// buffer owners, the result header, the instruction listing, the proof's
/// encoding, the statement points, the statement scalars, the identity
/// marker, and the three products.
pub open spec fn delegated_outcome(
    t: TransferData,
    h: Seq<u8>,
    authority: Seq<u8>,
    program: ComputeProgram,
    instruction_buffer: BufferAccount,
    input_buffer: BufferAccount,
    compute_buffer: BufferAccount,
    c: Seq<u8>,
) -> Result<(), StealthError> {
    if !(instruction_buffer.owner@ == program.program_id@ && input_buffer.owner@ == program.program_id@
        && compute_buffer.owner@ == program.program_id@) {
        Err(StealthError::InvalidArgument)
    } else if !header_matches(compute_buffer.data@, authority, instruction_buffer.key@, input_buffer.key@, program.instruction_count) {
        Err(StealthError::InvalidArgument)
    } else if !instructions_match(instruction_buffer.data@, program.instructions@) {
        Err(StealthError::InvalidArgument)
    } else if !proof_decodes(t.equality_proof@) {
        Err(StealthError::ProofVerificationError)
    } else if !windows_hold(input_buffer.data@, HEADER_SIZE as int, statement_points(t, h)) {
        Err(StealthError::ProofVerificationError)
    } else if !windows_hold(input_buffer.data@, SCALARS_OFFSET as int, statement_scalars(t, c)) {
        Err(StealthError::ProofVerificationError)
    } else if !identity_marked(input_buffer.data@) {
        Err(StealthError::InvalidArgument)
    } else if !results_hold(compute_buffer.data@) {
        Err(StealthError::ProofVerificationError)
    } else {
        Ok(())
    }
}

/// Whether `buf` holds the 32-byte `items` one after the other from `start`.
pub fn windows_match(buf: &[u8], start: usize, items: &Vec<[u8; 32]>) -> (r: bool)
    ensures
        r == windows_hold(buf@, start as int, encodings(items@)),
{
    let n: usize = buf.len();
    if start > n || items.len() > (n - start) / 32 {
        proof {
            if start <= n {
                assert(start + 32 * items@.len() > n) by (nonlinear_arith)
                    requires items@.len() > (n - start) / 32, start <= n;
            }
        }
        return false;
    }
    assert(start + 32 * items@.len() <= n) by (nonlinear_arith)
        requires items@.len() <= (n - start) / 32, start <= n;
    let mut i: usize = 0;
    while i < items.len()
        invariant
            n == buf@.len(),
            start + 32 * items@.len() <= buf@.len(),
            i <= items@.len(),
            forall|j: int| 0 <= j < i ==> #[trigger] window(buf@, start + 32 * j, 32) == encodings(items@)[j],
        decreases items@.len() - i,
    {
        if !window_equals(buf, start + 32 * i, &items[i]) {
            assert(window(buf@, start + 32 * i, 32) != encodings(items@)[i as int]);
            return false;
        }
        i += 1;
    }
    true
}

/// The little-endian encoding of a `u32`.
fn u32_le_bytes(v: u32) -> (r: [u8; 4])
    ensures
        r@ == le_encode(v as nat, 4),
{
    let b0 = (v % 256) as u8;
    let v1 = v / 256;
    let b1 = (v1 % 256) as u8;
    let v2 = v1 / 256;
    let b2 = (v2 % 256) as u8;
    let v3 = v2 / 256;
    let b3 = (v3 % 256) as u8;
    let r: [u8; 4] = [b0, b1, b2, b3];
    proof {
        reveal_with_fuel(le_encode, 5);
    }
    assert(r@ =~= le_encode(v as nat, 4));
    r
}

/// Whether the result buffer's header names this authority, these two
/// buffers and the full instruction count.
pub fn header_check(data: &[u8], authority: &[u8; 32], instruction_key: &[u8; 32], input_key: &[u8; 32], count: u32) -> (r: bool)
    ensures
        r == header_matches(data@, authority@, instruction_key@, input_key@, count),
{
    data.len() >= HEADER_SIZE && window_equals(data, 0, authority) && window_equals(data, 32, instruction_key)
        && window_equals(data, 64, input_key) && window_equals(data, INSTRUCTION_NUM_OFFSET, &u32_le_bytes(count))
}

/// Whether the instruction buffer's body is exactly the listing.
pub fn instructions_check(data: &[u8], listing: &[u8]) -> (r: bool)
    ensures
        r == instructions_match(data@, listing@),
{
    if data.len() < HEADER_SIZE || data.len() - HEADER_SIZE != listing.len() {
        proof {
            if data@.len() >= HEADER_SIZE {
                assert(data@.subrange(HEADER_SIZE as int, data@.len() as int).len() != listing@.len());
            }
        }
        return false;
    }
    let r = window_equals(data, HEADER_SIZE, listing);
    assert(window(data@, HEADER_SIZE as int, listing@.len() as int) =~= data@.subrange(HEADER_SIZE as int, data@.len() as int));
    r
}

/// Whether the identity marker stands in the input buffer.
pub fn identity_check(data: &[u8]) -> (r: bool)
    ensures
        r == identity_marked(data@),
{
    if data.len() < IDENTITY_OFFSET + EXTENDED_POINT_LEN {
        return false;
    }
    let mut j: usize = 0;
    while j < EXTENDED_POINT_LEN
        invariant
            IDENTITY_OFFSET + EXTENDED_POINT_LEN <= data@.len(),
            j <= EXTENDED_POINT_LEN,
            forall|k: int| 0 <= k < j ==> data@[IDENTITY_OFFSET + k] == identity_encoding()[k],
        decreases EXTENDED_POINT_LEN - j,
    {
        let expected: u8 = if j == 32 || j == 64 { 1 } else { 0 };
        if data[IDENTITY_OFFSET + j] != expected {
            assert(window(data@, IDENTITY_OFFSET as int, EXTENDED_POINT_LEN as int)[j as int] != identity_encoding()[j as int]);
            return false;
        }
        j += 1;
    }
    assert(window(data@, IDENTITY_OFFSET as int, EXTENDED_POINT_LEN as int) =~= identity_encoding());
    true
}

/// Whether the 32 bytes of `data` at `start` encode a zero field element.
fn field_zero_at(data: &[u8], start: usize) -> (r: bool)
    requires
        start + 32 <= data@.len(),
    ensures
        r == field_is_zero(window(data@, start as int, 32)),
{
    let x = read32(data, start);
    let top = x[31] % 128;
    let mut all_zero = top == 0;
    let mut all_prime = top == 0x7F && x[0] == 0xED;
    let mut i: usize = 0;
    while i < 31
        invariant
            i <= 31,
            all_zero == (x@[31] % 128 == 0 && forall|k: int| 0 <= k < i ==> x@[k] == 0u8),
            all_prime == (x@[31] % 128 == 0x7F && x@[0] == 0xEDu8 && forall|k: int| 1 <= k < i ==> x@[k] == 0xFFu8),
        decreases 31 - i,
    {
        all_zero = all_zero && x[i] == 0;
        if i >= 1 {
            all_prime = all_prime && x[i] == 0xFF;
        }
        i += 1;
    }
    all_zero || all_prime
}

/// Whether the three products in the result buffer are each the identity.
pub fn results_check(data: &[u8]) -> (r: bool)
    ensures
        r == results_hold(data@),
{
    if data.len() < HEADER_SIZE + 3 * EXTENDED_POINT_LEN {
        return false;
    }
    let mut i: usize = 0;
    while i < 3
        invariant
            HEADER_SIZE + 3 * EXTENDED_POINT_LEN <= data@.len(),
            i <= 3,
            forall|k: int| 0 <= k < i ==> #[trigger] result_is_identity(window(data@, HEADER_SIZE + 128 * k, 128)),
        decreases 3 - i,
    {
        let start = HEADER_SIZE + 128 * i;
        assert(window(data@, start as int, 32) =~= window(data@, start as int, 128).subrange(0, 32));
        assert(window(data@, start + 32, 32) =~= window(data@, start as int, 128).subrange(32, 64));
        assert(window(data@, start + 64, 32) =~= window(data@, start as int, 128).subrange(64, 96));
        if field_zero_at(data, start + 64) || (!field_zero_at(data, start) && !field_zero_at(data, start + 32)) {
            assert(!result_is_identity(window(data@, HEADER_SIZE + 128 * i, 128)));
            return false;
        }
        i += 1;
    }
    true
}

/// The delegated verifier with the challenge scalar `c` supplied: it
/// answers exactly `delegated_outcome` for `c`.
pub fn check_delegated(
    t: &TransferData,
    h: &[u8; 32],
    authority: &[u8; 32],
    program: &ComputeProgram,
    instruction_buffer: &BufferAccount,
    input_buffer: &BufferAccount,
    compute_buffer: &BufferAccount,
    c: &[u8; 32],
) -> (r: Result<(), StealthError>)
    ensures
        r == delegated_outcome(*t, h@, authority@, *program, *instruction_buffer, *input_buffer, *compute_buffer, c@),
{
    if !(keys_equal(&instruction_buffer.owner, &program.program_id) && keys_equal(&input_buffer.owner, &program.program_id)
        && keys_equal(&compute_buffer.owner, &program.program_id)) {
        return Err(StealthError::InvalidArgument);
    }
    if !header_check(compute_buffer.data.as_slice(), authority, &instruction_buffer.key, &input_buffer.key, program.instruction_count) {
        return Err(StealthError::InvalidArgument);
    }
    if !instructions_check(instruction_buffer.data.as_slice(), program.instructions.as_slice()) {
        return Err(StealthError::InvalidArgument);
    }
    let p = match EqualityProof::from_bytes(t.equality_proof.as_slice()) {
        Some(p) => p,
        None => return Err(StealthError::ProofVerificationError),
    };
    let points = statement_points_of(t, &p, h);
    if !windows_match(input_buffer.data.as_slice(), HEADER_SIZE, &points) {
        return Err(StealthError::ProofVerificationError);
    }
    let scalars = statement_scalars_of(t, &p, c);
    if !windows_match(input_buffer.data.as_slice(), SCALARS_OFFSET, &scalars) {
        return Err(StealthError::ProofVerificationError);
    }
    if !identity_check(input_buffer.data.as_slice()) {
        return Err(StealthError::InvalidArgument);
    }
    if !results_check(compute_buffer.data.as_slice()) {
        return Err(StealthError::ProofVerificationError);
    }
    Ok(())
}

/// The delegated verifier: `check_delegated` with the challenge this
/// library derives from the statement's own transcript, so that the
/// computation cannot have been fed a challenge of the prover's choosing.
pub fn verify_transfer_delegated(
    t: &TransferData,
    h: &[u8; 32],
    authority: &[u8; 32],
    program: &ComputeProgram,
    instruction_buffer: &BufferAccount,
    input_buffer: &BufferAccount,
    compute_buffer: &BufferAccount,
) -> (r: Result<(), StealthError>)
    ensures
        r == delegated_outcome(*t, h@, authority@, *program, *instruction_buffer, *input_buffer, *compute_buffer, challenge_of(*t)),
{
    let c: [u8; 32] = match EqualityProof::from_bytes(t.equality_proof.as_slice()) {
        Some(p) => derive_challenge(t, &p),
        None => [0u8; 32],
    };
    check_delegated(t, h, authority, program, instruction_buffer, input_buffer, compute_buffer, &c)
}

/// When the delegated verifier accepts, the computation it trusted was fed
/// exactly the statement points and scalars that the direct verifier
/// evaluates, with the challenge that the direct verifier derives, and it
/// reports each of the three relations at the identity.
pub proof fn lemma_delegated_binds_statement(
    t: TransferData,
    h: Seq<u8>,
    authority: Seq<u8>,
    program: ComputeProgram,
    instruction_buffer: BufferAccount,
    input_buffer: BufferAccount,
    compute_buffer: BufferAccount,
)
    requires
        delegated_outcome(t, h, authority, program, instruction_buffer, input_buffer, compute_buffer, challenge_of(t)) is Ok,
    ensures
        proof_decodes(t.equality_proof@),
        windows_hold(input_buffer.data@, HEADER_SIZE as int, statement_points(t, h)),
        windows_hold(input_buffer.data@, SCALARS_OFFSET as int, statement_scalars(t, challenge_of(t))),
        instructions_match(instruction_buffer.data@, program.instructions@),
        results_hold(compute_buffer.data@),
{
}

/// The two verifiers agree on a statement and proof whenever the
/// computation service reported the true products and was handed that
/// statement: its buffers are owned by the service, the header and listing
/// are right, the identity marker stands, and the input buffer holds the
/// statement's points and scalars. Then the delegated verifier accepts
/// exactly when the direct one does.
pub proof fn lemma_verifiers_agree(
    t: TransferData,
    h: Seq<u8>,
    authority: Seq<u8>,
    program: ComputeProgram,
    instruction_buffer: BufferAccount,
    input_buffer: BufferAccount,
    compute_buffer: BufferAccount,
)
    requires
        instruction_buffer.owner@ == program.program_id@,
        input_buffer.owner@ == program.program_id@,
        compute_buffer.owner@ == program.program_id@,
        header_matches(compute_buffer.data@, authority, instruction_buffer.key@, input_buffer.key@, program.instruction_count),
        instructions_match(instruction_buffer.data@, program.instructions@),
        windows_hold(input_buffer.data@, HEADER_SIZE as int, statement_points(t, h)),
        windows_hold(input_buffer.data@, SCALARS_OFFSET as int, statement_scalars(t, challenge_of(t))),
        identity_marked(input_buffer.data@),
        results_hold(compute_buffer.data@) == relations_hold(statement_scalars(t, challenge_of(t)), statement_points(t, h)),
    ensures
        (delegated_outcome(t, h, authority, program, instruction_buffer, input_buffer, compute_buffer, challenge_of(t)) is Ok)
            == fast_accepts(t, h),
{
}

} // verus!
