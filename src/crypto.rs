//! The curve and transcript primitives the verifiers rely on. Scalars and
//! points travel as their 32-byte encodings.

use vstd::prelude::*;
use curve25519_dalek::ristretto::{CompressedRistretto, RistrettoPoint};
use curve25519_dalek::scalar::Scalar;
use curve25519_dalek::traits::{IsIdentity, VartimeMultiscalarMul};

verus! {

/// The order of the prime-order group that scalars live in.
pub open spec fn group_order() -> nat {
    7237005577332262213973186563042994240857116359379907606001950938285454250989nat
}

/// The unsigned integer that `b` encodes in little-endian order.
pub open spec fn le_value(b: Seq<u8>) -> nat
    decreases b.len(),
{
    if b.len() == 0 {
        0
    } else {
        b[0] as nat + 256 * le_value(b.drop_first())
    }
}

/// The `n`-byte little-endian encoding of `v`, truncated to `n` bytes.
pub open spec fn le_encode(v: nat, n: nat) -> Seq<u8>
    decreases n,
{
    if n == 0 {
        Seq::empty()
    } else {
        seq![(v % 256) as u8] + le_encode(v / 256, (n - 1) as nat)
    }
}

/// The encoding of the scalar congruent to `v`.
pub open spec fn scalar_of(v: nat) -> Seq<u8> {
    le_encode(v % group_order(), 32)
}

/// 2^255: the bound below which a 32-byte value keeps all its bits once its
/// top bit is cleared.
pub open spec fn two_pow_255() -> nat {
    57896044618658097711785492504343953926634992332820282019728792003956564819968nat
}

/// The encoding of the additive inverse of the scalar that the low 255 bits
/// of `s` encode.
pub open spec fn scalar_neg_of(s: Seq<u8>) -> Seq<u8> {
    scalar_of((group_order() - (le_value(s) % two_pow_255()) % group_order()) as nat)
}

/// Whether `b` is the canonical encoding of a scalar.
pub open spec fn is_canonical_scalar(b: Seq<u8>) -> bool {
    le_value(b) < group_order()
}

/// The challenge a Fiat-Shamir transcript yields: a transcript opened under
/// `domain`, fed each labelled message of `entries` in turn, then asked for
/// 64 bytes under `label`.
pub uninterp spec fn transcript_challenge(domain: Seq<char>, entries: Seq<(Seq<char>, Seq<u8>)>, label: Seq<char>) -> Seq<u8>;

/// Whether the multiscalar product of `scalars` and the decoded `points` is
/// the group identity; false when a point does not decode.
pub uninterp spec fn msm_identity(scalars: Seq<Seq<u8>>, points: Seq<Seq<u8>>) -> bool;

/// The labelled messages of a transcript, as plain values.
pub open spec fn entries_view(entries: Seq<(&'static str, Vec<u8>)>) -> Seq<(Seq<char>, Seq<u8>)> {
    entries.map_values(|e: (&'static str, Vec<u8>)| (e.0@, e.1@))
}

/// The encodings in a list of 32-byte values.
pub open spec fn encodings(v: Seq<[u8; 32]>) -> Seq<Seq<u8>> {
    v.map_values(|x: [u8; 32]| x@)
}

/// Relies on merlin::Transcript (new, append_message, challenge_bytes): the
/// 64 challenge bytes depend on the domain, the messages and the label alone.
/// `append_message` panics on a message longer than `u32::MAX` bytes.
#[verifier::external_body]
pub(crate) fn challenge_bytes(domain: &'static str, entries: &Vec<(&'static str, Vec<u8>)>, label: &'static str) -> (r: [u8; 64])
    requires
        forall|i: int| 0 <= i < entries@.len() ==> #[trigger] entries@[i].1@.len() <= u32::MAX,
    ensures
        r@ == transcript_challenge(domain@, entries_view(entries@), label@),
{
    let mut t = merlin::Transcript::new(domain.as_bytes());
    for (l, m) in entries.iter() {
        t.append_message(l.as_bytes(), m);
    }
    let mut buf = [0u8; 64];
    t.challenge_bytes(label.as_bytes(), &mut buf);
    buf
}

/// Relies on Scalar::from_bytes_mod_order_wide: the 512-bit little-endian
/// integer reduced modulo the group order.
#[verifier::external_body]
pub(crate) fn scalar_from_wide(b: &[u8; 64]) -> (r: [u8; 32])
    ensures
        r@ == scalar_of(le_value(b@)),
{
    Scalar::from_bytes_mod_order_wide(b).to_bytes()
}

/// Relies on Scalar::from_canonical_bytes: it accepts exactly the encodings
/// of integers below the group order.
#[verifier::external_body]
pub(crate) fn scalar_is_canonical(b: &[u8; 32]) -> (r: bool)
    ensures
        r == is_canonical_scalar(b@),
{
    Scalar::from_canonical_bytes(*b).is_some()
}

/// Relies on `-Scalar` (Neg for Scalar) over Scalar::from_bits, which clears
/// the top bit: the additive inverse, modulo the group order and in
/// canonical form, of the value of the low 255 bits.
#[verifier::external_body]
pub(crate) fn scalar_neg(s: &[u8; 32]) -> (r: [u8; 32])
    ensures
        r@ == scalar_neg_of(s@),
{
    (-Scalar::from_bits(*s)).to_bytes()
}

/// Relies on RistrettoPoint::optional_multiscalar_mul over the decompressed
/// points (CompressedRistretto::decompress), then IsIdentity::is_identity.
#[verifier::external_body]
pub(crate) fn multiscalar_is_identity(scalars: &Vec<[u8; 32]>, points: &Vec<[u8; 32]>) -> (r: bool)
    requires
        scalars@.len() == points@.len(),
    ensures
        r == msm_identity(encodings(scalars@), encodings(points@)),
{
    RistrettoPoint::optional_multiscalar_mul(
        scalars.iter().map(|s| Scalar::from_bits(*s)),
        points.iter().map(|p| CompressedRistretto(*p).decompress()),
    ).map_or(false, |q| q.is_identity())
}

} // verus!
