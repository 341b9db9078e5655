//! Fingerprints of file contents, computed with Keccak-512.

use vstd::prelude::*;

verus! {

/// The 64-byte Keccak-512 digest of `data`, as `tiny_keccak::keccak512` computes it.
pub uninterp spec fn keccak512_digest(data: Seq<u8>) -> Seq<u8>;

/// Calls `tiny_keccak::keccak512`, which hashes `data` with Keccak-512 and
/// returns the 64-byte digest. The contract claims only that the result is the
/// digest named `keccak512_digest` of the input bytes; nothing is proved of
/// the hash function itself.
#[verifier::external_body]
pub(crate) fn keccak512(data: &[u8]) -> (sum: [u8; 64])
    ensures
        sum@ == keccak512_digest(data@),
{
    tiny_keccak::keccak512(data)
}

/// Compares two digests byte by byte.
pub(crate) fn digests_equal(a: &[u8; 64], b: &[u8; 64]) -> (same: bool)
    ensures
        same == (a@ == b@),
{
    let mut i: usize = 0;
    while i < 64
        invariant
            i <= 64,
            forall|j: int| 0 <= j < i ==> a@[j] == b@[j],
        decreases 64 - i,
    {
        if a[i] != b[i] {
            assert(a@[i as int] != b@[i as int]);
            return false;
        }
        i = i + 1;
    }
    assert(a@ =~= b@);
    true
}

} // verus!
