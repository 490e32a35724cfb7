//! Secret scalars, held as their canonical little-endian encoding.

use curve25519_dalek::scalar::Scalar;
use vstd::prelude::*;

verus! {

/// The order of the Ristretto group, `2^252 + 27742317777372353535851937790883648493`.
pub open spec fn group_order() -> nat {
    7237005577332262213973186563042994240857116359379907606001950938285454250989nat
}

/// The integer that a byte string encodes, least significant byte first.
pub open spec fn le_value(bytes: Seq<u8>) -> nat
    decreases bytes.len(),
{
    if bytes.len() == 0 {
        0
    } else {
        bytes[0] as nat + 256 * le_value(bytes.drop_first())
    }
}

/// A canonical scalar encoding: 32 bytes whose value is below the group order.
pub open spec fn is_canonical_scalar(bytes: Seq<u8>) -> bool {
    bytes.len() == 32 && le_value(bytes) < group_order()
}

/// Relies on `Scalar::from_canonical_bytes` of curve25519-dalek: it returns a
/// scalar exactly when the bytes are the canonical encoding of an integer
/// modulo the group order.
#[verifier::external_body]
fn scalar_bytes_are_canonical(bytes: &[u8; 32]) -> (r: bool)
    ensures
        r == is_canonical_scalar(bytes@),
{
    bool::from(Scalar::from_canonical_bytes(*bytes).is_some())
}

/// A secret scalar of the Ristretto group.
///
/// It keeps the 32-byte canonical encoding of the scalar, so every value of
/// this type names exactly one element of the scalar field.
pub struct SecretKey {
    bytes: [u8; 32],
}

impl View for SecretKey {
    type V = Seq<u8>;

    /// The canonical little-endian encoding of the scalar.
    closed spec fn view(&self) -> Seq<u8> {
        self.bytes@
    }
}

impl SecretKey {
    #[verifier::type_invariant]
    spec fn well_formed(self) -> bool {
        is_canonical_scalar(self.bytes@)
    }

    /// Takes a scalar from its canonical encoding; `None` when the bytes
    /// encode a value at or above the group order.
    pub fn from_canonical_bytes(bytes: [u8; 32]) -> (r: Option<SecretKey>)
        ensures
            r is Some <==> is_canonical_scalar(bytes@),
            r matches Some(k) ==> k@ == bytes@,
    {
        if scalar_bytes_are_canonical(&bytes) {
            Some(SecretKey { bytes })
        } else {
            None
        }
    }

    /// The canonical encoding of the scalar.
    pub fn to_bytes(&self) -> (r: [u8; 32])
        ensures
            r@ == self@,
            is_canonical_scalar(r@),
    {
        proof {
            use_type_invariant(self);
        }
        self.bytes
    }
}

} // verus!
