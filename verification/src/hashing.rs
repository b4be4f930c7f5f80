use vstd::prelude::*;

use sha2::Digest;

verus! {

/// The SHA-256 digest of a byte sequence. The digest itself is far too
/// involved to state here; contracts treat it as an opaque function of the
/// input bytes alone.
pub uninterp spec fn sha256_of(data: Seq<u8>) -> Seq<u8>;

/// Relies on sha2::Sha256: the 32-byte digest of the input, a pure function
/// of the input bytes.
#[verifier::external_body]
pub(crate) fn sha256(data: &Vec<u8>) -> (r: [u8; 32])
    ensures
        r@ == sha256_of(data@),
{
    let mut hasher = sha2::Sha256::new();
    hasher.update(data.as_slice());
    hasher.finalize().into()
}

/// The preimage a party commits to: the choice byte followed by the secret.
pub open spec fn commit_input(choice: u8, secret: Seq<u8>) -> Seq<u8> {
    seq![choice] + secret
}

/// The commitment hash binding a party to `(choice, secret)`.
pub open spec fn spec_commit_hash(choice: u8, secret: Seq<u8>) -> Seq<u8> {
    sha256_of(commit_input(choice, secret))
}

/// Append all 32 bytes of `src` to `data`.
pub fn push_bytes32(data: &mut Vec<u8>, src: &[u8; 32])
    ensures
        final(data)@ == old(data)@ + src@,
{
    proof {
        assert(data@ =~= data@ + src@.subrange(0, 0));
    }
    let mut i: usize = 0;
    while i < 32
        invariant
            i <= 32,
            data@ == old(data)@ + src@.subrange(0, i as int),
        decreases 32 - i,
    {
        let b = src[i];
        proof {
            assert(src@.subrange(0, i + 1) =~= src@.subrange(0, i as int).push(src@[i as int]));
            assert(old(data)@ + src@.subrange(0, i + 1) =~= (old(data)@ + src@.subrange(
                0,
                i as int,
            )).push(src@[i as int]));
        }
        data.push(b);
        i = i + 1;
    }
    proof {
        assert(src@.subrange(0, 32) =~= src@);
    }
}

/// Hash the choice byte followed by the 32-byte secret.
pub fn commit_hash(choice: u8, secret: &[u8; 32]) -> (r: [u8; 32])
    ensures
        r@ == spec_commit_hash(choice, secret@),
{
    let mut data: Vec<u8> = Vec::new();
    data.push(choice);
    push_bytes32(&mut data, secret);
    proof {
        assert(data@ =~= commit_input(choice, secret@));
    }
    sha256(&data)
}

/// A reveal is accepted exactly when recomputing the hash of
/// `(choice, secret)` reproduces the stored commitment.
pub fn verify_commitment(commit: &[u8; 32], choice: u8, secret: &[u8; 32]) -> (r: bool)
    ensures
        r == (commit@ == spec_commit_hash(choice, secret@)),
{
    let expected = commit_hash(choice, secret);
    bytes32_eq(commit, &expected)
}

/// Compare two 32-byte values for equality.
pub fn bytes32_eq(a: &[u8; 32], b: &[u8; 32]) -> (r: bool)
    ensures
        r == (a@ == b@),
{
    let mut i: usize = 0;
    while i < 32
        invariant
            i <= 32,
            forall|j: int| 0 <= j < i ==> a@[j] == b@[j],
        decreases 32 - i,
    {
        if a[i] != b[i] {
            return false;
        }
        i = i + 1;
    }
    proof {
        assert(a@ =~= b@);
    }
    true
}

} // verus!
