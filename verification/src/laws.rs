//! The protocol's correctness laws, stated and proved against the contracts
//! of the derivations.
//!
//! Each law is a public function whose `ensures` is the statement; the body
//! performs the derivations the law speaks of, so every law can also be run
//! on concrete key material.

use vstd::prelude::*;

use crate::ec::{ecdh_shared_secret, point_from_scalar, point_of_scalar, scalar_tweak_add};
use crate::keys::{KeyError, PublicPoint, SecretScalar};
use crate::model::{master_private_of, relationship_seed_of, send_point, shared_secret_of};
use crate::receiver::{
    generate_master_extended_private_key, recompute_change_point, watch_address_points,
};
use crate::sender::{
    derive_send_addresses, generate_change_output_script, generate_master_extended_public_key,
};

verus! {

/// Law: Diffie-Hellman symmetry. For any two valid secret scalars, the
/// shared secret one party computes from its scalar and the other's point
/// equals, byte for byte, the one the other party computes from the opposite
/// sides of the exchange.
pub fn ecdh_symmetry(a: &SecretScalar, b: &SecretScalar) -> (r: ([u8; 32], [u8; 32]))
    ensures
        r.0@ == shared_secret_of(a@, point_of_scalar(b@)),
        r.1@ == shared_secret_of(b@, point_of_scalar(a@)),
        r.0@ == r.1@,
{
    let point_a = point_from_scalar(a.bytes_ref());
    let point_b = point_from_scalar(b.bytes_ref());
    let secret_ab = ecdh_shared_secret(a.bytes_ref(), &point_b);
    let secret_ba = ecdh_shared_secret(b.bytes_ref(), &point_a);
    (secret_ab, secret_ba)
}

/// Law: change-key agreement. When the sender's change-output derivation
/// succeeds, the receiver's independent recomputation from the sender's
/// point and its own scalar succeeds and yields the same point; and the two
/// sides' relationship seeds agree unconditionally.
pub fn change_key_agreement(p_sender: &SecretScalar, p_receiver: &SecretScalar) -> (r: (
    Result<(PublicPoint, [u8; 32]), KeyError>,
    Result<PublicPoint, KeyError>,
))
    ensures
        r.0 is Ok ==> r.1 is Ok,
        r.0 is Ok ==> r.1->Ok_0@ == r.0->Ok_0.0@,
        relationship_seed_of(shared_secret_of(p_sender@, point_of_scalar(p_receiver@)))
            == relationship_seed_of(shared_secret_of(p_receiver@, point_of_scalar(p_sender@))),
{
    let sender_point = p_sender.public_point();
    let receiver_point = p_receiver.public_point();
    let _shared = ecdh_shared_secret(p_sender.bytes_ref(), receiver_point.bytes_ref());
    let sender_out = generate_change_output_script(p_sender, &receiver_point);
    let recomputed = recompute_change_point(&sender_point, p_receiver);
    (sender_out, recomputed)
}

/// Law: master-key duality. The public point of the master extended private
/// key `p_receiver + seed` is the master extended public key
/// `P_receiver + seed * G`, and the two derivations succeed together.
pub fn master_key_duality(relationship_seed: &[u8; 32], p_receiver: &SecretScalar) -> (r: (
    Result<SecretScalar, KeyError>,
    Result<PublicPoint, KeyError>,
))
    ensures
        r.0 is Ok <==> master_private_of(p_receiver@, relationship_seed@) is Some,
        r.0 is Ok ==> Some(r.0->Ok_0@) == master_private_of(p_receiver@, relationship_seed@),
        r.0 is Ok ==> r.1 is Ok,
        r.0 is Ok ==> point_of_scalar(r.0->Ok_0@) == r.1->Ok_0@,
{
    let receiver_point = p_receiver.public_point();
    let master_pub = generate_master_extended_public_key(relationship_seed, &receiver_point);
    match scalar_tweak_add(p_receiver.bytes_ref(), relationship_seed) {
        Some(m) => {
            let _dual = point_from_scalar(&m);
            (Ok(SecretScalar::from_valid_bytes(m)), master_pub)
        },
        None => (Err(KeyError::InvalidTweak), master_pub),
    }
}

/// Law: keystream cross-equality. For one relationship seed and one draw
/// count, the receiver's watch list and the sender's send list are the same
/// ordered list of points, index for index.
pub fn keystream_cross_equality(
    p_receiver: &SecretScalar,
    relationship_seed: &[u8; 32],
    count: usize,
) -> (r: (Result<Vec<PublicPoint>, KeyError>, Result<Vec<PublicPoint>, KeyError>))
    ensures
        r.0 is Ok ==> r.1 is Ok,
        r.0 is Ok ==> r.0->Ok_0@.len() == count && r.1->Ok_0@.len() == count,
        r.0 is Ok ==> forall|i: int|
            0 <= i < count ==> #[trigger] r.0->Ok_0@[i]@ == r.1->Ok_0@[i]@,
{
    let receiver_point = p_receiver.public_point();
    let watch = watch_address_points(p_receiver, relationship_seed, count);
    let send = derive_send_addresses(relationship_seed, &receiver_point, count);
    proof {
        if watch is Ok {
            assert forall|i: u64| i < count implies #[trigger] send_point(
                receiver_point@,
                relationship_seed@,
                i,
            ) is Some by {
                assert(Some(watch->Ok_0@[i as int]@) == send_point(
                    point_of_scalar(p_receiver@),
                    relationship_seed@,
                    i,
                ));
            }
            assert forall|i: int| 0 <= i < count implies #[trigger] watch->Ok_0@[i]@
                == send->Ok_0@[i]@ by {
                let iu = i as u64;
                assert(Some(watch->Ok_0@[iu as int]@) == send_point(
                    point_of_scalar(p_receiver@),
                    relationship_seed@,
                    iu,
                ));
                assert(Some(send->Ok_0@[iu as int]@) == send_point(
                    receiver_point@,
                    relationship_seed@,
                    iu,
                ));
            }
        }
    }
    (watch, send)
}

/// Law: determinism. The change-output derivation is a function of its
/// inputs: two invocations on the same inputs return the same outcome, byte
/// for byte. Every derivation of this crate is pinned by its contract to a
/// spec-level function of its inputs in the same way.
pub fn change_output_deterministic(
    p_sender: &SecretScalar,
    receiver_pub_key: &PublicPoint,
) -> (r: (
    Result<(PublicPoint, [u8; 32]), KeyError>,
    Result<(PublicPoint, [u8; 32]), KeyError>,
))
    ensures
        r.0 is Ok <==> r.1 is Ok,
        r.0 is Ok ==> r.0->Ok_0.0@ == r.1->Ok_0.0@ && r.0->Ok_0.1@ == r.1->Ok_0.1@,
        r.0 is Err ==> r.0->Err_0 == r.1->Err_0,
{
    let first = generate_change_output_script(p_sender, receiver_pub_key);
    let second = generate_change_output_script(p_sender, receiver_pub_key);
    (first, second)
}

/// Law: the keystream is restartable. Re-seeding with the same relationship
/// seed and drawing the same count reproduces the identical address list.
pub fn watch_points_deterministic(
    p_receiver: &SecretScalar,
    relationship_seed: &[u8; 32],
    count: usize,
) -> (r: (Result<Vec<PublicPoint>, KeyError>, Result<Vec<PublicPoint>, KeyError>))
    ensures
        r.0 is Ok <==> r.1 is Ok,
        r.0 is Ok ==> r.0->Ok_0@.len() == count && r.1->Ok_0@.len() == count,
        r.0 is Ok ==> forall|i: int|
            0 <= i < count ==> #[trigger] r.0->Ok_0@[i]@ == r.1->Ok_0@[i]@,
{
    let first = watch_address_points(p_receiver, relationship_seed, count);
    let second = watch_address_points(p_receiver, relationship_seed, count);
    proof {
        if first is Ok {
            assert forall|i: int| 0 <= i < count implies #[trigger] first->Ok_0@[i]@
                == second->Ok_0@[i]@ by {
                let iu = i as u64;
                assert(Some(first->Ok_0@[iu as int]@) == crate::model::watch_point(
                    p_receiver@,
                    relationship_seed@,
                    iu,
                ));
                assert(Some(second->Ok_0@[iu as int]@) == crate::model::watch_point(
                    p_receiver@,
                    relationship_seed@,
                    iu,
                ));
            }
        }
    }
    (first, second)
}

/// Law: tamper detection. When the sender's derivation succeeded and the
/// change key handed to the receiver differs at all from the sender's change
/// point, the receiver's master-key derivation reports `VerificationFailed`;
/// handed the genuine point, it never reports that.
pub fn tamper_detection(
    p_sender: &SecretScalar,
    p_receiver: &SecretScalar,
    published_change_key: &PublicPoint,
) -> (r: (Result<(PublicPoint, [u8; 32]), KeyError>, Result<SecretScalar, KeyError>))
    ensures
        r.0 is Ok && published_change_key@ != r.0->Ok_0.0@ ==> r.1 == Err::<
            SecretScalar,
            KeyError,
        >(KeyError::VerificationFailed),
        r.0 is Ok && published_change_key@ == r.0->Ok_0.0@ ==> r.1 != Err::<
            SecretScalar,
            KeyError,
        >(KeyError::VerificationFailed),
{
    let sender_point = p_sender.public_point();
    let receiver_point = p_receiver.public_point();
    let _shared = ecdh_shared_secret(p_sender.bytes_ref(), receiver_point.bytes_ref());
    let sender_out = generate_change_output_script(p_sender, &receiver_point);
    let master = generate_master_extended_private_key(
        published_change_key,
        &sender_point,
        p_receiver,
    );
    (sender_out, master)
}

/// Law: a byte string that differs from another in even one position is a
/// different byte string; a single mutated byte of a published change key is
/// therefore enough to trip the receiver's verification.
pub proof fn lemma_single_byte_tamper(original: Seq<u8>, tampered: Seq<u8>, i: int)
    requires
        original.len() == tampered.len(),
        0 <= i < original.len(),
        original[i] != tampered[i],
    ensures
        original != tampered,
{
}

} // verus!
