//! The equality proof, the statement it is about, and the Fiat-Shamir
//! transcript both verifiers rebuild from them.

use vstd::prelude::*;
use crate::bytes::{read32, to_byte_vec};
use crate::crypto::{
    challenge_bytes, encodings, entries_view, is_canonical_scalar, le_value, msm_identity,
    multiscalar_is_identity, scalar_from_wide, scalar_is_canonical, scalar_neg, scalar_neg_of,
    scalar_of, transcript_challenge,
};

verus! {

/// Length of an encoded equality proof: three points, then two scalars.
pub const EQUALITY_PROOF_LEN: usize = 160;

/// The canonical encoding of the scalar minus one.
pub const NEG_ONE: [u8; 32] = [
    0xEC, 0xD3, 0xF5, 0x5C, 0x1A, 0x63, 0x12, 0x58,
    0xD6, 0x9C, 0xF7, 0xA2, 0xDE, 0xF9, 0xDE, 0x14,
    0x00, 0x00, 0x00, 0x00, 0x00, 0x00, 0x00, 0x00,
    0x00, 0x00, 0x00, 0x00, 0x00, 0x00, 0x00, 0x10,
];

/// An equality proof: three auxiliary points and two response scalars.
#[derive(Clone, Copy, Debug, PartialEq, Eq)]
pub struct EqualityProof {
    pub y_0: [u8; 32],
    pub y_1: [u8; 32],
    pub y_2: [u8; 32],
    pub sh_1: [u8; 32],
    pub rh_2: [u8; 32],
}

/// A re-encryption statement with its proof: the source ciphertext under the
/// source key, and the destination ciphertext under the destination key. A
/// ciphertext is a commitment (first half) then a decrypt handle.
#[derive(Clone, Debug)]
pub struct TransferData {
    pub src_pubkey: [u8; 32],
    pub dst_pubkey: [u8; 32],
    pub src_ct: [u8; 64],
    pub dst_ct: [u8; 64],
    pub equality_proof: Vec<u8>,
}

/// Whether `p` holds the fields that `b` encodes, in order.
pub open spec fn decodes_to(p: EqualityProof, b: Seq<u8>) -> bool {
    &&& p.y_0@ == b.subrange(0, 32)
    &&& p.y_1@ == b.subrange(32, 64)
    &&& p.y_2@ == b.subrange(64, 96)
    &&& p.sh_1@ == b.subrange(96, 128)
    &&& p.rh_2@ == b.subrange(128, 160)
}

/// Whether `b` encodes an equality proof: the right length, and both
/// scalars in canonical form.
pub open spec fn proof_decodes(b: Seq<u8>) -> bool {
    b.len() == EQUALITY_PROOF_LEN && is_canonical_scalar(b.subrange(96, 128))
        && is_canonical_scalar(b.subrange(128, 160))
}

impl EqualityProof {
    /// Decodes a proof; `None` unless the length is right and both scalars
    /// are canonical.
    pub fn from_bytes(b: &[u8]) -> (r: Option<EqualityProof>)
        ensures
            r.is_some() == proof_decodes(b@),
            r matches Some(p) ==> decodes_to(p, b@),
    {
        if b.len() != EQUALITY_PROOF_LEN {
            return None;
        }
        let sh_1 = read32(b, 96);
        let rh_2 = read32(b, 128);
        if !scalar_is_canonical(&sh_1) || !scalar_is_canonical(&rh_2) {
            return None;
        }
        Some(EqualityProof { y_0: read32(b, 0), y_1: read32(b, 32), y_2: read32(b, 64), sh_1, rh_2 })
    }
}

/// The transcript's domain label.
pub open spec fn domain_label() -> Seq<char> {
    "equality-proof"@
}

/// The label the challenge is drawn under.
pub open spec fn challenge_label() -> Seq<char> {
    "c"@
}

/// The labelled messages of the transcript, in order: both ciphertexts, both
/// keys, then the proof's three points.
pub open spec fn transcript_entries(t: TransferData) -> Seq<(Seq<char>, Seq<u8>)> {
    seq![
        ("src-ciphertext"@, t.src_ct@),
        ("dst-ciphertext"@, t.dst_ct@),
        ("src-pubkey"@, t.src_pubkey@),
        ("dst-pubkey"@, t.dst_pubkey@),
        ("Y_0"@, t.equality_proof@.subrange(0, 32)),
        ("Y_1"@, t.equality_proof@.subrange(32, 64)),
        ("Y_2"@, t.equality_proof@.subrange(64, 96)),
    ]
}

/// The challenge scalar of a statement and its proof.
pub open spec fn challenge_of(t: TransferData) -> Seq<u8> {
    scalar_of(le_value(transcript_challenge(domain_label(), transcript_entries(t), challenge_label())))
}

/// Derives the challenge scalar of a statement and its decoded proof `p`.
pub fn derive_challenge(t: &TransferData, p: &EqualityProof) -> (c: [u8; 32])
    requires
        decodes_to(*p, t.equality_proof@),
    ensures
        c@ == challenge_of(*t),
{
    let entries: Vec<(&'static str, Vec<u8>)> = vec![
        ("src-ciphertext", to_byte_vec(&t.src_ct)),
        ("dst-ciphertext", to_byte_vec(&t.dst_ct)),
        ("src-pubkey", to_byte_vec(&t.src_pubkey)),
        ("dst-pubkey", to_byte_vec(&t.dst_pubkey)),
        ("Y_0", to_byte_vec(&p.y_0)),
        ("Y_1", to_byte_vec(&p.y_1)),
        ("Y_2", to_byte_vec(&p.y_2)),
    ];
    assert(entries_view(entries@) =~= transcript_entries(*t));
    let wide = challenge_bytes("equality-proof", &entries, "c");
    scalar_from_wide(&wide)
}

/// The eleven statement points, in the order the three relations consume
/// them: three for the source key, three for the destination key, five for
/// the equality of the committed values. `h` is the Pedersen base.
pub open spec fn statement_points(t: TransferData, h: Seq<u8>) -> Seq<Seq<u8>> {
    let b = t.equality_proof@;
    seq![
        t.src_pubkey@, h, b.subrange(0, 32),
        t.dst_pubkey@, t.dst_ct@.subrange(32, 64), b.subrange(32, 64),
        t.dst_ct@.subrange(0, 32), t.src_ct@.subrange(0, 32), t.src_ct@.subrange(32, 64), h, b.subrange(64, 96),
    ]
}

/// The eleven scalars matching `statement_points`, for challenge `c`.
pub open spec fn statement_scalars(t: TransferData, c: Seq<u8>) -> Seq<Seq<u8>> {
    let b = t.equality_proof@;
    let nc = scalar_neg_of(c);
    seq![
        b.subrange(96, 128), nc, NEG_ONE@,
        b.subrange(128, 160), nc, NEG_ONE@,
        c, nc, b.subrange(96, 128), scalar_neg_of(b.subrange(128, 160)), NEG_ONE@,
    ]
}

/// Whether each of the three relations evaluates to the identity.
pub open spec fn relations_hold(sc: Seq<Seq<u8>>, pts: Seq<Seq<u8>>) -> bool {
    &&& msm_identity(sc.subrange(0, 3), pts.subrange(0, 3))
    &&& msm_identity(sc.subrange(3, 6), pts.subrange(3, 6))
    &&& msm_identity(sc.subrange(6, 11), pts.subrange(6, 11))
}

/// Whether the direct verifier accepts `t` with Pedersen base `h`.
pub open spec fn fast_accepts(t: TransferData, h: Seq<u8>) -> bool {
    proof_decodes(t.equality_proof@)
        && relations_hold(statement_scalars(t, challenge_of(t)), statement_points(t, h))
}

/// Builds the statement points of `t`.
pub fn statement_points_of(t: &TransferData, p: &EqualityProof, h: &[u8; 32]) -> (r: Vec<[u8; 32]>)
    requires
        decodes_to(*p, t.equality_proof@),
    ensures
        r@.len() == 11,
        encodings(r@) == statement_points(*t, h@),
{
    let r: Vec<[u8; 32]> = vec![
        t.src_pubkey, *h, p.y_0,
        t.dst_pubkey, read32(&t.dst_ct, 32), p.y_1,
        read32(&t.dst_ct, 0), read32(&t.src_ct, 0), read32(&t.src_ct, 32), *h, p.y_2,
    ];
    assert(encodings(r@) =~= statement_points(*t, h@));
    r
}

/// Builds the statement scalars of `t` for challenge `c`.
pub fn statement_scalars_of(t: &TransferData, p: &EqualityProof, c: &[u8; 32]) -> (r: Vec<[u8; 32]>)
    requires
        decodes_to(*p, t.equality_proof@),
    ensures
        r@.len() == 11,
        encodings(r@) == statement_scalars(*t, c@),
{
    let nc = scalar_neg(c);
    let r: Vec<[u8; 32]> = vec![
        p.sh_1, nc, NEG_ONE,
        p.rh_2, nc, NEG_ONE,
        *c, nc, p.sh_1, scalar_neg(&p.rh_2), NEG_ONE,
    ];
    assert(encodings(r@) =~= statement_scalars(*t, c@));
    r
}

/// The entries of `v` from `lo` up to `hi`.
fn sub_list(v: &Vec<[u8; 32]>, lo: usize, hi: usize) -> (r: Vec<[u8; 32]>)
    requires
        lo <= hi <= v@.len(),
    ensures
        r@ == v@.subrange(lo as int, hi as int),
{
    let mut r: Vec<[u8; 32]> = Vec::new();
    let mut i: usize = lo;
    while i < hi
        invariant
            lo <= i <= hi <= v@.len(),
            r@ == v@.subrange(lo as int, i as int),
        decreases hi - i,
    {
        r.push(v[i]);
        i += 1;
        assert(r@ =~= v@.subrange(lo as int, i as int));
    }
    r
}

/// Evaluates one relation over entries `lo` up to `hi`.
fn relation_at(sc: &Vec<[u8; 32]>, pts: &Vec<[u8; 32]>, lo: usize, hi: usize) -> (r: bool)
    requires
        lo <= hi <= sc@.len(),
        sc@.len() == pts@.len(),
    ensures
        r == msm_identity(encodings(sc@).subrange(lo as int, hi as int), encodings(pts@).subrange(lo as int, hi as int)),
{
    let s = sub_list(sc, lo, hi);
    let p = sub_list(pts, lo, hi);
    assert(encodings(s@) =~= encodings(sc@).subrange(lo as int, hi as int));
    assert(encodings(p@) =~= encodings(pts@).subrange(lo as int, hi as int));
    multiscalar_is_identity(&s, &p)
}

/// The direct verifier: decodes the proof, rebuilds the transcript, and
/// evaluates the three relations. `h` is the Pedersen base.
pub fn verify_transfer(t: &TransferData, h: &[u8; 32]) -> (r: bool)
    ensures
        r == fast_accepts(*t, h@),
{
    let p = match EqualityProof::from_bytes(t.equality_proof.as_slice()) {
        Some(p) => p,
        None => return false,
    };
    let c = derive_challenge(t, &p);
    let sc = statement_scalars_of(t, &p, &c);
    let pts = statement_points_of(t, &p, h);
    relation_at(&sc, &pts, 0, 3) && relation_at(&sc, &pts, 3, 6) && relation_at(&sc, &pts, 6, 11)
}

} // verus!
