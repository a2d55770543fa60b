//! The sender role: change-output derivation, the master extended public
//! key, and the send-address keystream.

use vstd::prelude::*;

use crate::ec::{
    hmac_sha256_bytes, point_add_scalar, point_from_scalar, point_of_scalar, point_tweak_add,
    scalar_tweak_add,
};
use crate::keys::{KeyError, PublicPoint, SecretScalar};
use crate::model::{
    change_offset_of, master_public_of, relationship_seed_of, send_point, sender_change_point,
    sender_change_scalar, shared_secret_of, u64_be_bytes,
};
use crate::subsecrets::derive_sub_secrets;

verus! {

/// Derives the change output key and the relationship seed.
///
/// Computes the shared secret from the sender's scalar and the receiver's
/// point, blinds the sender's key additively with the change offset to form
/// `P_change = (offset + p_sender) * G`, and derives the relationship seed.
/// Both results must be shared with the receiver. The one failure, a derived
/// offset the curve cannot take as a tweak, is reported, never papered over.
pub fn generate_change_output_script(
    sender_secret_key: &SecretScalar,
    receiver_pub_key: &PublicPoint,
) -> (r: Result<(PublicPoint, [u8; 32]), KeyError>)
    ensures
        r is Ok <==> sender_change_scalar(sender_secret_key@, receiver_pub_key@) is Some,
        r is Ok ==> Some(r->Ok_0.0@) == sender_change_point(
            sender_secret_key@,
            receiver_pub_key@,
        ),
        r is Ok ==> Some(r->Ok_0.0@) == point_add_scalar(
            point_of_scalar(sender_secret_key@),
            change_offset_of(shared_secret_of(sender_secret_key@, receiver_pub_key@)),
        ),
        r is Ok ==> r->Ok_0.1@ == relationship_seed_of(
            shared_secret_of(sender_secret_key@, receiver_pub_key@),
        ),
        r is Err ==> r->Err_0 == KeyError::InvalidTweak,
{
    let (offset, seed) = derive_sub_secrets(sender_secret_key, receiver_pub_key);
    let tweaked = match scalar_tweak_add(sender_secret_key.bytes_ref(), &offset) {
        Some(t) => t,
        None => {
            return Err(KeyError::InvalidTweak);
        },
    };
    let change_bytes = point_from_scalar(&tweaked);
    Ok((PublicPoint::from_valid_bytes(change_bytes), seed))
}

/// Derives the master extended public key `P_receiver + seed * G`: the
/// public counterpart of the receiver's master key, computed without any of
/// the receiver's secrets.
pub fn generate_master_extended_public_key(
    relationship_seed: &[u8; 32],
    receiver_pub_key: &PublicPoint,
) -> (r: Result<PublicPoint, KeyError>)
    ensures
        r is Ok <==> master_public_of(receiver_pub_key@, relationship_seed@) is Some,
        r is Ok ==> Some(r->Ok_0@) == master_public_of(receiver_pub_key@, relationship_seed@),
        r is Err ==> r->Err_0 == KeyError::InvalidTweak,
{
    match point_tweak_add(receiver_pub_key.bytes_ref(), relationship_seed) {
        Some(p) => Ok(PublicPoint::from_valid_bytes(p)),
        None => Err(KeyError::InvalidTweak),
    }
}

/// Derives `count` future address keys from the public side: draw i of the
/// keystream seeded with the relationship seed, times G, added to the
/// receiver's point. Index order is address order.
pub fn derive_send_addresses(
    relationship_seed: &[u8; 32],
    receiver_pub_key: &PublicPoint,
    count: usize,
) -> (r: Result<Vec<PublicPoint>, KeyError>)
    ensures
        r is Ok <==> (forall|i: u64|
            i < count ==> #[trigger] send_point(receiver_pub_key@, relationship_seed@, i)
                is Some),
        r is Ok ==> r->Ok_0@.len() == count,
        r is Ok ==> forall|i: u64|
            i < count ==> Some(r->Ok_0@[i as int]@) == #[trigger] send_point(
                receiver_pub_key@,
                relationship_seed@,
                i,
            ),
        r is Err ==> r->Err_0 == KeyError::InvalidTweak,
{
    let mut out: Vec<PublicPoint> = Vec::new();
    let mut i: usize = 0;
    while i < count
        invariant
            i <= count,
            out@.len() == i,
            forall|j: u64|
                j < i ==> Some(out@[j as int]@) == #[trigger] send_point(
                    receiver_pub_key@,
                    relationship_seed@,
                    j,
                ),
        decreases count - i,
    {
        let counter = u64_be_bytes(i as u64);
        let off = hmac_sha256_bytes(relationship_seed.as_slice(), counter.as_slice());
        match point_tweak_add(receiver_pub_key.bytes_ref(), &off) {
            Some(p) => out.push(PublicPoint::from_valid_bytes(p)),
            None => {
                proof {
                    assert(send_point(receiver_pub_key@, relationship_seed@, i as u64) is None);
                }
                return Err(KeyError::InvalidTweak);
            },
        }
        i += 1;
    }
    Ok(out)
}

} // verus!
