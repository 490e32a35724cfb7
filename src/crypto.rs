//! The two outside primitives of the construction: scalar multiplication of
//! the Ristretto base point, and SHA-256.

use curve25519_dalek::constants::RISTRETTO_BASEPOINT_POINT;
use curve25519_dalek::scalar::Scalar;
use sha2::{Digest, Sha256};
use vstd::prelude::*;

use crate::scalar::is_canonical_scalar;

verus! {

/// The compressed Ristretto encoding of `k * B`, for the canonical scalar
/// encoding `k` and the Ristretto base point `B`.
pub uninterp spec fn base_point_multiple(k: Seq<u8>) -> Seq<u8>;

/// The SHA-256 digest of a byte string.
pub uninterp spec fn sha256_digest(message: Seq<u8>) -> Seq<u8>;

/// Relies on curve25519-dalek: `&RISTRETTO_BASEPOINT_POINT * &Scalar`
/// (constant-time scalar multiplication) and `RistrettoPoint::compress`,
/// which gives the canonical 32-byte encoding of the point.
/// On canonical bytes `Scalar::from_bytes_mod_order` is the scalar they encode.
#[verifier::external_body]
pub(crate) fn mul_base_compressed(k: &[u8; 32]) -> (r: [u8; 32])
    requires
        is_canonical_scalar(k@),
    ensures
        r@ == base_point_multiple(k@),
{
    let scalar = Scalar::from_bytes_mod_order(*k);
    (&RISTRETTO_BASEPOINT_POINT * &scalar).compress().to_bytes()
}

/// Relies on `sha2::Sha256` through `Digest::digest`: the 32-byte SHA-256
/// digest of the message.
#[verifier::external_body]
pub(crate) fn sha256(message: &[u8]) -> (r: Vec<u8>)
    ensures
        r@ == sha256_digest(message@),
        r@.len() == 32,
{
    Sha256::digest(message).to_vec()
}

} // verus!
