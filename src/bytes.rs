//! Byte-string comparisons used by every check on untrusted storage.

use vstd::prelude::*;

verus! {

/// Whether two byte strings are equal.
pub fn bytes_equal(a: &[u8], b: &[u8]) -> (r: bool)
    ensures
        r == (a@ == b@),
{
    if a.len() != b.len() {
        return false;
    }
    let mut i: usize = 0;
    while i < a.len()
        invariant
            a@.len() == b@.len(),
            i <= a@.len(),
            forall|j: int| 0 <= j < i ==> a@[j] == b@[j],
        decreases a@.len() - i,
    {
        if a[i] != b[i] {
            return false;
        }
        i += 1;
    }
    assert(a@ =~= b@);
    true
}

/// The `len` bytes of `buf` starting at `start`, when they lie inside it.
pub open spec fn window(buf: Seq<u8>, start: int, len: int) -> Seq<u8> {
    buf.subrange(start, start + len)
}

/// Whether `buf` holds `expected` at offset `start`; a window that runs past
/// the end of `buf` never matches.
pub fn window_equals(buf: &[u8], start: usize, expected: &[u8]) -> (r: bool)
    ensures
        r == (start + expected@.len() <= buf@.len() && window(buf@, start as int, expected@.len() as int) == expected@),
{
    if start > buf.len() || expected.len() > buf.len() - start {
        return false;
    }
    let n: usize = buf.len();
    let mut i: usize = 0;
    while i < expected.len()
        invariant
            n == buf@.len(),
            start + expected@.len() <= buf@.len(),
            i <= expected@.len(),
            forall|j: int| 0 <= j < i ==> buf@[start + j] == expected@[j],
        decreases expected@.len() - i,
    {
        if buf[start + i] != expected[i] {
            return false;
        }
        i += 1;
    }
    assert(window(buf@, start as int, expected@.len() as int) =~= expected@);
    true
}

/// Whether two 32-byte keys are equal.
pub fn keys_equal(a: &[u8; 32], b: &[u8; 32]) -> (r: bool)
    ensures
        r == (a@ == b@),
{
    bytes_equal(a, b)
}

/// Copies the 32 bytes of `buf` at offset `start`.
pub fn read32(buf: &[u8], start: usize) -> (r: [u8; 32])
    requires
        start + 32 <= buf@.len(),
    ensures
        r@ == window(buf@, start as int, 32),
{
    let n: usize = buf.len();
    let mut r: [u8; 32] = [0u8; 32];
    let mut i: usize = 0;
    while i < 32
        invariant
            n == buf@.len(),
            start + 32 <= buf@.len(),
            i <= 32,
            forall|j: int| 0 <= j < i ==> r@[j] == buf@[start + j],
        decreases 32 - i,
    {
        r[i] = buf[start + i];
        i += 1;
    }
    assert(r@ =~= window(buf@, start as int, 32));
    r
}

/// A fresh vector holding the bytes of `b`.
pub fn to_byte_vec(b: &[u8]) -> (r: Vec<u8>)
    ensures
        r@ == b@,
{
    let mut r: Vec<u8> = Vec::new();
    let mut i: usize = 0;
    while i < b.len()
        invariant
            i <= b@.len(),
            r@ == b@.subrange(0, i as int),
        decreases b@.len() - i,
    {
        r.push(b[i]);
        i += 1;
        assert(r@ =~= b@.subrange(0, i as int));
    }
    assert(b@.subrange(0, b@.len() as int) =~= b@);
    r
}

} // verus!
