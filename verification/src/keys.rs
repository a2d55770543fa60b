//! Key material: secret scalars, public points, and the error taxonomy.
//!
//! Both key types hold their canonical byte encoding and carry a type
//! invariant that the bytes are valid for the curve, so a value of either
//! type is usable wherever the primitives demand validity.

use vstd::prelude::*;

use crate::ec::{
    is_valid_point, is_valid_scalar, point_from_scalar, point_is_valid, point_of_scalar,
    scalar_is_valid,
};

verus! {

/// How a derivation can fail.
#[derive(Clone, Copy, Debug, PartialEq, Eq, Structural)]
pub enum KeyError {
    /// The supplied 32 bytes are not a usable secret scalar.
    InvalidScalar,
    /// The supplied 33 bytes do not encode a point of the curve group.
    InvalidPoint,
    /// A derived tweak fell outside the scalar field, or a tweaked key
    /// degenerated; a primitive-level fault, not a protocol failure.
    InvalidTweak,
    /// The published change point does not match the recomputation: the
    /// transaction does not belong to this relationship. No further key may
    /// be derived from it.
    VerificationFailed,
}

/// A secret scalar: a private key of one of the two parties, or a derived
/// master extended private key. Always a nonzero integer below the curve
/// order.
pub struct SecretScalar {
    bytes: [u8; 32],
}

impl View for SecretScalar {
    type V = Seq<u8>;

    closed spec fn view(&self) -> Seq<u8> {
        self.bytes@
    }
}

impl SecretScalar {
    #[verifier::type_invariant]
    spec fn type_inv(self) -> bool {
        is_valid_scalar(self.bytes@)
    }

    /// Accepts exactly the byte strings that are valid secret scalars.
    pub fn from_bytes(bytes: [u8; 32]) -> (r: Result<SecretScalar, KeyError>)
        ensures
            r is Ok <==> is_valid_scalar(bytes@),
            r is Ok ==> r->Ok_0@ == bytes@,
            r is Err ==> r->Err_0 == KeyError::InvalidScalar,
    {
        if scalar_is_valid(&bytes) {
            Ok(SecretScalar { bytes })
        } else {
            Err(KeyError::InvalidScalar)
        }
    }

    pub(crate) fn from_valid_bytes(bytes: [u8; 32]) -> (r: SecretScalar)
        requires
            is_valid_scalar(bytes@),
        ensures
            r@ == bytes@,
    {
        SecretScalar { bytes }
    }

    /// The scalar's big-endian bytes. The caller owns their secrecy.
    pub fn secret_bytes(&self) -> (r: [u8; 32])
        ensures
            r@ == self@,
    {
        self.bytes
    }

    pub(crate) fn bytes_ref(&self) -> (r: &[u8; 32])
        ensures
            r@ == self@,
            is_valid_scalar(self@),
    {
        proof {
            use_type_invariant(self);
        }
        &self.bytes
    }

    /// The public point of this scalar.
    pub fn public_point(&self) -> (r: PublicPoint)
        ensures
            r@ == point_of_scalar(self@),
            is_valid_scalar(self@),
    {
        let bytes = point_from_scalar(self.bytes_ref());
        PublicPoint { bytes }
    }
}

/// A public point of the curve group in compressed encoding: a party's
/// public key, a change output's key, or a derived address key.
#[derive(Debug)]
pub struct PublicPoint {
    bytes: [u8; 33],
}

impl View for PublicPoint {
    type V = Seq<u8>;

    closed spec fn view(&self) -> Seq<u8> {
        self.bytes@
    }
}

impl PublicPoint {
    #[verifier::type_invariant]
    spec fn type_inv(self) -> bool {
        is_valid_point(self.bytes@)
    }

    /// Accepts exactly the byte strings that encode a point of the group.
    pub fn from_bytes(bytes: [u8; 33]) -> (r: Result<PublicPoint, KeyError>)
        ensures
            r is Ok <==> is_valid_point(bytes@),
            r is Ok ==> r->Ok_0@ == bytes@,
            r is Err ==> r->Err_0 == KeyError::InvalidPoint,
    {
        if point_is_valid(&bytes) {
            Ok(PublicPoint { bytes })
        } else {
            Err(KeyError::InvalidPoint)
        }
    }

    pub(crate) fn from_valid_bytes(bytes: [u8; 33]) -> (r: PublicPoint)
        requires
            is_valid_point(bytes@),
        ensures
            r@ == bytes@,
    {
        PublicPoint { bytes }
    }

    /// The point's compressed encoding.
    pub fn to_bytes(&self) -> (r: [u8; 33])
        ensures
            r@ == self@,
    {
        self.bytes
    }

    pub(crate) fn bytes_ref(&self) -> (r: &[u8; 33])
        ensures
            r@ == self@,
            is_valid_point(self@),
    {
        proof {
            use_type_invariant(self);
        }
        &self.bytes
    }

    /// Whether two points are the same point.
    pub fn eq_point(&self, other: &PublicPoint) -> (r: bool)
        ensures
            r == (self@ == other@),
    {
        let mut i: usize = 0;
        while i < 33
            invariant
                0 <= i <= 33,
                forall|j: int| 0 <= j < i ==> self@[j] == other@[j],
            decreases 33 - i,
        {
            if self.bytes[i] != other.bytes[i] {
                return false;
            }
            i += 1;
        }
        proof {
            assert(self@ =~= other@);
        }
        true
    }
}

} // verus!
