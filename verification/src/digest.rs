use vstd::prelude::*;

verus! {

/// The all-zero digest: the sentinel root of a record that holds no
/// commitments and of a record that has not been published yet.
pub open spec fn zero_digest() -> Seq<u8> {
    Seq::new(32, |i: int| 0u8)
}

/// What the SHA-256 digest of the 64-byte concatenation `a || b` of two
/// 32-byte digests holds. The digest is a pure function of the input bytes
/// alone; its value is left abstract, since nothing short of the full
/// compression function would pin it down.
pub uninterp spec fn hash_pair_spec(a: Seq<u8>, b: Seq<u8>) -> Seq<u8>;

/// Relies on sha2::Sha256 through digest::Digest::digest: returns the
/// SHA-256 digest of the concatenation of the two inputs, 32 bytes that
/// depend on the input bytes alone.
#[verifier::external_body]
fn hash_concat(a: &[u8; 32], b: &[u8; 32]) -> (r: [u8; 32])
    ensures
        r@ == hash_pair_spec(a@, b@),
{
    let mut buf = [0u8; 64];
    buf[..32].copy_from_slice(a);
    buf[32..].copy_from_slice(b);
    <sha2::Sha256 as sha2::Digest>::digest(buf).into()
}

/// Hash of the concatenation of two digests: the parent of two sibling
/// Merkle nodes.
pub fn combine_digests(a: &[u8; 32], b: &[u8; 32]) -> (r: [u8; 32])
    ensures
        r@ == hash_pair_spec(a@, b@),
{
    hash_concat(a, b)
}

/// The all-zero digest as bytes.
pub fn zero_digest_bytes() -> (z: [u8; 32])
    ensures
        z@ == zero_digest(),
{
    let z = [0u8; 32];
    proof {
        assert(z@ =~= zero_digest());
    }
    z
}

/// Byte-for-byte equality of two digests.
pub fn digests_equal(a: &[u8; 32], b: &[u8; 32]) -> (r: bool)
    ensures
        r == (a@ == b@),
{
    let mut i: usize = 0;
    while i < 32
        invariant
            i <= 32,
            forall|j: int| 0 <= j < i ==> a@[j] == b@[j],
        decreases 32 - i,
    {
        if a[i] != b[i] {
            return false;
        }
        i = i + 1;
    }
    proof {
        assert(a@ =~= b@);
    }
    true
}

} // verus!
