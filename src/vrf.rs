//! Generation and verification of VRF outputs and proofs.

use vstd::prelude::*;

use crate::crypto::{base_point_multiple, mul_base_compressed, sha256, sha256_digest};
use crate::scalar::SecretKey;

verus! {

/// The VRF output of the secret scalar `k`: the digest of the compressed
/// encoding of `k * B`.
pub open spec fn vrf_output_of(k: Seq<u8>) -> Seq<u8> {
    sha256_digest(base_point_multiple(k))
}

/// The VRF proof of the secret scalar `k`: the digest of its output.
pub open spec fn vrf_proof_of(k: Seq<u8>) -> Seq<u8> {
    sha256_digest(vrf_output_of(k))
}

/// A claimed pair is accepted for `k` when both parts equal what `k` gives.
pub open spec fn vrf_accepts(k: Seq<u8>, output: Seq<u8>, proof: Seq<u8>) -> bool {
    output == vrf_output_of(k) && proof == vrf_proof_of(k)
}

/// The group element `k * B`, as its compressed Ristretto encoding.
pub fn derive_point(secret_key: &SecretKey) -> (r: [u8; 32])
    ensures
        r@ == base_point_multiple(secret_key@),
{
    let k = secret_key.to_bytes();
    mul_base_compressed(&k)
}

/// The VRF output for a compressed group element.
pub fn hash_point(point: &[u8; 32]) -> (r: Vec<u8>)
    ensures
        r@ == sha256_digest(point@),
        r@.len() == 32,
{
    sha256(point.as_slice())
}

/// The VRF proof for a VRF output.
pub fn hash_output(output: &[u8]) -> (r: Vec<u8>)
    ensures
        r@ == sha256_digest(output@),
        r@.len() == 32,
{
    sha256(output)
}

/// The VRF output and proof of a secret key.
pub fn generate_vrf(secret_key: &SecretKey) -> (r: (Vec<u8>, Vec<u8>))
    ensures
        r.0@ == vrf_output_of(secret_key@),
        r.1@ == vrf_proof_of(secret_key@),
        r.0@.len() == 32,
        r.1@.len() == 32,
{
    let point = derive_point(secret_key);
    let output = hash_point(&point);
    let proof = hash_output(output.as_slice());
    (output, proof)
}

/// Whether `vrf_output` and `vrf_proof` are exactly the pair that the secret
/// key generates. A length mismatch is a plain rejection.
pub fn verify_vrf(secret_key: &SecretKey, vrf_output: &[u8], vrf_proof: &[u8]) -> (r: bool)
    ensures
        r == vrf_accepts(secret_key@, vrf_output@, vrf_proof@),
{
    let (expected_output, expected_proof) = generate_vrf(secret_key);
    let output_ok = bytes_equal(vrf_output, expected_output.as_slice());
    let proof_ok = bytes_equal(vrf_proof, expected_proof.as_slice());
    output_ok && proof_ok
}

proof fn lemma_xor_zero(x: u8, y: u8)
    by (bit_vector)
    ensures
        (x ^ y == 0) == (x == y),
{
}

proof fn lemma_or_zero(x: u8, y: u8)
    by (bit_vector)
    ensures
        (x | y == 0) == (x == 0 && y == 0),
{
}

/// Byte-for-byte equality of two strings. Once the lengths agree, every byte
/// is read whatever the earlier ones held, so the time taken does not tell
/// where the strings differ.
pub fn bytes_equal(a: &[u8], b: &[u8]) -> (r: bool)
    ensures
        r == (a@ == b@),
{
    if a.len() != b.len() {
        return false;
    }
    let mut diff: u8 = 0;
    let mut i: usize = 0;
    while i < a.len()
        invariant
            a@.len() == b@.len(),
            i <= a@.len(),
            (diff == 0) == (forall|j: int| 0 <= j < i ==> a@[j] == b@[j]),
        decreases a@.len() - i,
    {
        let x = a[i] ^ b[i];
        proof {
            lemma_xor_zero(a@[i as int], b@[i as int]);
            lemma_or_zero(diff, x);
        }
        diff = diff | x;
        i += 1;
    }
    proof {
        if diff == 0 {
            assert(a@ =~= b@);
        }
    }
    diff == 0
}

/// `s` with bit `bit` of byte `i` inverted.
pub open spec fn flip_bit(s: Seq<u8>, i: int, bit: u8) -> Seq<u8> {
    s.update(i, s[i] ^ (1u8 << bit))
}

proof fn lemma_flip_changes_byte(x: u8, bit: u8)
    by (bit_vector)
    requires
        bit < 8,
    ensures
        x ^ (1u8 << bit) != x,
{
}

/// Generation is deterministic: keys that hold the same scalar give the same
/// output and the same proof.
pub proof fn lemma_generate_deterministic(k1: SecretKey, k2: SecretKey)
    requires
        k1@ == k2@,
    ensures
        vrf_output_of(k1@) == vrf_output_of(k2@),
        vrf_proof_of(k1@) == vrf_proof_of(k2@),
{
}

/// Verification accepts the pair that generation gives for the same key.
pub proof fn lemma_generated_pair_accepted(k: SecretKey)
    ensures
        vrf_accepts(k@, vrf_output_of(k@), vrf_proof_of(k@)),
{
}

/// Flipping one bit of an accepted output makes the pair rejected.
pub proof fn lemma_output_bit_flip_rejected(
    k: SecretKey,
    output: Seq<u8>,
    proof: Seq<u8>,
    i: int,
    bit: u8,
)
    requires
        vrf_accepts(k@, output, proof),
        0 <= i < output.len(),
        bit < 8,
    ensures
        !vrf_accepts(k@, flip_bit(output, i, bit), proof),
{
    lemma_flip_changes_byte(output[i], bit);
    assert(flip_bit(output, i, bit)[i] != output[i]);
}

/// Flipping one bit of an accepted proof makes the pair rejected.
pub proof fn lemma_proof_bit_flip_rejected(
    k: SecretKey,
    output: Seq<u8>,
    proof: Seq<u8>,
    i: int,
    bit: u8,
)
    requires
        vrf_accepts(k@, output, proof),
        0 <= i < proof.len(),
        bit < 8,
    ensures
        !vrf_accepts(k@, output, flip_bit(proof, i, bit)),
{
    lemma_flip_changes_byte(proof[i], bit);
    assert(flip_bit(proof, i, bit)[i] != proof[i]);
}

} // verus!
