//! A minimal verifiable-random-function style construction over the
//! Ristretto group and SHA-256.
//!
//! The output for a secret scalar `k` is `SHA-256(compress(k * B))`, where `B`
//! is the Ristretto base point, and the proof is `SHA-256(output)`.
//! Verification recomputes both from the secret and compares them byte for
//! byte.
//!
//! The proof only hashes the output again: it binds nothing to the secret
//! beyond what the output already does, and it is no discrete-log equality
//! proof. Anyone who checks a pair needs the secret itself.

pub mod crypto;
pub mod scalar;
pub mod vrf;

pub use scalar::SecretKey;
pub use vrf::{bytes_equal, derive_point, generate_vrf, hash_output, hash_point, verify_vrf};
