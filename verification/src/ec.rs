//! The elliptic-curve and keyed-hash primitives that the protocol consumes.
//!
//! The curve group and HMAC are outside collaborators. Each primitive is
//! reached through one wrapper whose contract names its result; the names
//! below are the mathematical vocabulary in which every contract of this
//! crate speaks. Scalars are 32 big-endian bytes, points are 33-byte
//! compressed encodings, shared secrets and HMAC tags are 32 bytes.

use vstd::prelude::*;

verus! {

/// Whether 32 bytes, read big-endian, are a nonzero integer below the curve
/// order: a usable secret scalar.
pub uninterp spec fn is_valid_scalar(s: Seq<u8>) -> bool;

/// Whether 33 bytes are the compressed encoding of a point of the curve group.
pub uninterp spec fn is_valid_point(p: Seq<u8>) -> bool;

/// The compressed encoding of s*G, the public point of the secret scalar s.
pub uninterp spec fn point_of_scalar(s: Seq<u8>) -> Seq<u8>;

/// Whether 32 bytes, read big-endian, are at most the curve order minus one,
/// so that they can serve as an additive tweak.
pub uninterp spec fn tweak_in_range(t: Seq<u8>) -> bool;

/// The scalar a + b modulo the curve order; None when the sum is not a usable
/// secret scalar (it reduced to zero).
pub uninterp spec fn scalar_add(a: Seq<u8>, b: Seq<u8>) -> Option<Seq<u8>>;

/// The point P + t*G; None when the sum is not a point of the group (it is
/// the point at infinity).
pub uninterp spec fn point_add_scalar(p: Seq<u8>, t: Seq<u8>) -> Option<Seq<u8>>;

/// The Diffie-Hellman shared secret of one side's scalar and the other
/// side's point: the hash of s * P.
pub uninterp spec fn ecdh_bytes(s: Seq<u8>, p: Seq<u8>) -> Seq<u8>;

/// The HMAC-SHA256 tag of msg under key.
pub uninterp spec fn hmac_sha256(key: Seq<u8>, msg: Seq<u8>) -> Seq<u8>;

/// Relies on secp256k1::SecretKey::from_secret_bytes: Ok exactly when the 32
/// bytes are a nonzero big-endian integer below the curve order.
#[verifier::external_body]
pub(crate) fn scalar_is_valid(bytes: &[u8; 32]) -> (r: bool)
    ensures
        r == is_valid_scalar(bytes@),
{
    secp256k1::SecretKey::from_secret_bytes(*bytes).is_ok()
}

/// Relies on secp256k1::PublicKey::from_byte_array_compressed: Ok exactly
/// when the 33 bytes encode a point of the group.
#[verifier::external_body]
pub(crate) fn point_is_valid(bytes: &[u8; 33]) -> (r: bool)
    ensures
        r == is_valid_point(bytes@),
{
    secp256k1::PublicKey::from_byte_array_compressed(*bytes).is_ok()
}

/// Relies on secp256k1::PublicKey::from_secret_key and serialize: the
/// compressed encoding of s*G, a function of the scalar alone. The last
/// clause is the group law that scalar multiplication distributes over
/// scalar addition: when s is the sum a + b, the point of s is the point of
/// a tweaked by b.
#[verifier::external_body]
pub(crate) fn point_from_scalar(s: &[u8; 32]) -> (r: [u8; 33])
    requires
        is_valid_scalar(s@),
    ensures
        r@ == point_of_scalar(s@),
        is_valid_point(r@),
        forall|a: Seq<u8>, b: Seq<u8>|
            #[trigger] scalar_add(a, b) == Some(s@) ==> point_add_scalar(
                point_of_scalar(a),
                b,
            ) == Some(r@),
{
    let sk = secp256k1::SecretKey::from_secret_bytes(*s).unwrap();
    secp256k1::PublicKey::from_secret_key(&sk).serialize()
}

/// Relies on secp256k1::Scalar::from_be_bytes (Ok exactly when the value is
/// below the curve order) and secp256k1::SecretKey::add_tweak (adds the tweak
/// modulo the curve order; Err exactly when the sum is not a usable key).
#[verifier::external_body]
pub(crate) fn scalar_tweak_add(a: &[u8; 32], b: &[u8; 32]) -> (r: Option<[u8; 32]>)
    requires
        is_valid_scalar(a@),
    ensures
        r is Some <==> (tweak_in_range(b@) && scalar_add(a@, b@) is Some),
        r is Some ==> Some(r->0@) == scalar_add(a@, b@),
        r is Some ==> is_valid_scalar(r->0@),
{
    let tweak = match secp256k1::Scalar::from_be_bytes(*b) {
        Ok(t) => t,
        Err(_) => return None,
    };
    let sk = secp256k1::SecretKey::from_secret_bytes(*a).unwrap();
    match sk.add_tweak(&tweak) {
        Ok(k) => Some(k.to_secret_bytes()),
        Err(_) => None,
    }
}

/// Relies on secp256k1::Scalar::from_be_bytes and
/// secp256k1::PublicKey::add_exp_tweak: adds tweak*G to the point; Err
/// exactly when the sum is not a point of the group.
#[verifier::external_body]
pub(crate) fn point_tweak_add(p: &[u8; 33], t: &[u8; 32]) -> (r: Option<[u8; 33]>)
    requires
        is_valid_point(p@),
    ensures
        r is Some <==> (tweak_in_range(t@) && point_add_scalar(p@, t@) is Some),
        r is Some ==> Some(r->0@) == point_add_scalar(p@, t@),
        r is Some ==> is_valid_point(r->0@),
{
    let tweak = match secp256k1::Scalar::from_be_bytes(*t) {
        Ok(tw) => tw,
        Err(_) => return None,
    };
    let pk = secp256k1::PublicKey::from_byte_array_compressed(*p).unwrap();
    match pk.add_exp_tweak(&tweak) {
        Ok(q) => Some(q.serialize()),
        Err(_) => None,
    }
}

/// Relies on secp256k1::ecdh::SharedSecret::new: the hashed Diffie-Hellman
/// secret of a scalar and a point, a function of the two alone. The last
/// clause is Diffie-Hellman symmetry: when the peer point is b*G, the result
/// is the same secret the peer computes from its scalar b and this side's
/// point.
#[verifier::external_body]
pub(crate) fn ecdh_shared_secret(s: &[u8; 32], p: &[u8; 33]) -> (r: [u8; 32])
    requires
        is_valid_scalar(s@),
        is_valid_point(p@),
    ensures
        r@ == ecdh_bytes(s@, p@),
        forall|b: Seq<u8>|
            is_valid_scalar(b) && p@ == #[trigger] point_of_scalar(b) ==> r@ == ecdh_bytes(
                b,
                point_of_scalar(s@),
            ),
{
    let sk = secp256k1::SecretKey::from_secret_bytes(*s).unwrap();
    let pk = secp256k1::PublicKey::from_byte_array_compressed(*p).unwrap();
    secp256k1::ecdh::SharedSecret::new(&pk, &sk).to_secret_bytes()
}

/// Relies on bitcoin_hashes::HmacEngine over SHA-256: the HMAC-SHA256 tag of
/// msg under key, a function of the two alone.
#[verifier::external_body]
pub(crate) fn hmac_sha256_bytes(key: &[u8], msg: &[u8]) -> (r: [u8; 32])
    ensures
        r@ == hmac_sha256(key@, msg@),
{
    let mut engine: bitcoin_hashes::HmacEngine<bitcoin_hashes::sha256::HashEngine> =
        bitcoin_hashes::HmacEngine::new(key);
    bitcoin_hashes::HashEngine::input(&mut engine, msg);
    bitcoin_hashes::Hash::to_byte_array(bitcoin_hashes::HashEngine::finalize(engine))
}

} // verus!
