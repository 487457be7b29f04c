//! Keccak-512 digests of file contents.

use vstd::prelude::*;

verus! {

/// Number of bytes in a Keccak-512 digest.
pub const DIGEST_LEN: usize = 64;

/// The Keccak-512 digest of a byte sequence.
pub uninterp spec fn keccak512_of(data: Seq<u8>) -> Seq<u8>;

/// Relies on `tiny_keccak::keccak512`: the 64-byte Keccak-512 digest of
/// `data`, which depends on the bytes alone.
#[verifier::external_body]
pub(crate) fn keccak512(data: &[u8]) -> (r: [u8; 64])
    ensures
        r@ == keccak512_of(data@),
{
    tiny_keccak::keccak512(data)
}

/// Compares two digests byte by byte.
pub fn digests_equal(a: &[u8; 64], b: &[u8; 64]) -> (r: bool)
    ensures
        r == (a@ == b@),
{
    let mut i: usize = 0;
    while i < DIGEST_LEN
        invariant
            i <= DIGEST_LEN,
            a@.len() == DIGEST_LEN,
            b@.len() == DIGEST_LEN,
            a@.subrange(0, i as int) == b@.subrange(0, i as int),
        decreases DIGEST_LEN - i,
    {
        if a[i] != b[i] {
            assert(a@[i as int] != b@[i as int]);
            return false;
        }
        assert(a@.subrange(0, i + 1) == a@.subrange(0, i as int).push(a@[i as int]));
        assert(b@.subrange(0, i + 1) == b@.subrange(0, i as int).push(b@[i as int]));
        i = i + 1;
    }
    assert(a@ == a@.subrange(0, 64));
    assert(b@ == b@.subrange(0, 64));
    true
}

} // verus!
