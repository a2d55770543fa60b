//! The receiver role: change-key verification, the master extended private
//! key, and the watch-address keystream.

use vstd::prelude::*;

use crate::ec::{
    hmac_sha256_bytes, point_from_scalar, point_of_scalar, point_tweak_add, scalar_tweak_add,
};
use crate::keys::{KeyError, PublicPoint, SecretScalar};
use crate::model::{
    master_private_of, recomputed_change_point, relationship_seed_of, send_point, shared_secret_of,
    u64_be_bytes, watch_point, watch_scalar,
};
use crate::subsecrets::derive_sub_secrets;

verus! {

/// Recomputes the change point `offset * G + P_sender` from the receiver's
/// side of the shared secret. Equality with the published change key is the
/// protocol's authentication check.
pub fn recompute_change_point(
    sender_pub_key: &PublicPoint,
    receiver_secret_key: &SecretScalar,
) -> (r: Result<PublicPoint, KeyError>)
    ensures
        r is Ok <==> recomputed_change_point(sender_pub_key@, receiver_secret_key@) is Some,
        r is Ok ==> Some(r->Ok_0@) == recomputed_change_point(
            sender_pub_key@,
            receiver_secret_key@,
        ),
        r is Err ==> r->Err_0 == KeyError::InvalidTweak,
{
    let (offset, _seed) = derive_sub_secrets(receiver_secret_key, sender_pub_key);
    match point_tweak_add(sender_pub_key.bytes_ref(), &offset) {
        Some(p) => Ok(PublicPoint::from_valid_bytes(p)),
        None => Err(KeyError::InvalidTweak),
    }
}

/// Verifies the published change key and derives the master extended private
/// key `p_receiver + seed`.
///
/// Recomputes the shared secret from the receiver's side, recomputes the
/// change point, and demands that it equal the published one; a mismatch is
/// the distinguishable `VerificationFailed`, and nothing further is derived
/// from the unverified relationship. On success the master key signs for
/// every future address via additive tweaks.
pub fn generate_master_extended_private_key(
    published_change_key: &PublicPoint,
    sender_pub_key: &PublicPoint,
    receiver_secret_key: &SecretScalar,
) -> (r: Result<SecretScalar, KeyError>)
    ensures
        ({
            let rc = recomputed_change_point(sender_pub_key@, receiver_secret_key@);
            let m = master_private_of(
                receiver_secret_key@,
                relationship_seed_of(shared_secret_of(receiver_secret_key@, sender_pub_key@)),
            );
            &&& (r is Ok <==> (rc == Some(published_change_key@) && m is Some))
            &&& (r is Ok ==> Some(r->Ok_0@) == m)
            &&& (r == Err::<SecretScalar, KeyError>(KeyError::VerificationFailed) <==> (rc is Some
                && rc->0 != published_change_key@))
            &&& (r == Err::<SecretScalar, KeyError>(KeyError::InvalidTweak) <==> (rc is None || (rc
                == Some(published_change_key@) && m is None)))
        }),
{
    let recomputed = match recompute_change_point(sender_pub_key, receiver_secret_key) {
        Ok(p) => p,
        Err(e) => {
            return Err(e);
        },
    };
    if !recomputed.eq_point(published_change_key) {
        return Err(KeyError::VerificationFailed);
    }
    let (_offset, seed) = derive_sub_secrets(receiver_secret_key, sender_pub_key);
    match scalar_tweak_add(receiver_secret_key.bytes_ref(), &seed) {
        Some(m) => Ok(SecretScalar::from_valid_bytes(m)),
        None => Err(KeyError::InvalidTweak),
    }
}

/// Derives `count` future address keys from the secret side: the receiver's
/// scalar plus draw i of the keystream, times G. Index order is address
/// order, and re-seeding with the same relationship seed reproduces the same
/// list. Each point also equals the public-side derivation from the
/// receiver's point, which is what lets the sender watch the same addresses.
pub fn watch_address_points(
    receiver_secret_key: &SecretScalar,
    relationship_seed: &[u8; 32],
    count: usize,
) -> (r: Result<Vec<PublicPoint>, KeyError>)
    ensures
        r is Ok <==> (forall|i: u64|
            i < count ==> #[trigger] watch_scalar(receiver_secret_key@, relationship_seed@, i)
                is Some),
        r is Ok ==> r->Ok_0@.len() == count,
        r is Ok ==> forall|i: u64|
            i < count ==> Some(r->Ok_0@[i as int]@) == #[trigger] watch_point(
                receiver_secret_key@,
                relationship_seed@,
                i,
            ),
        r is Ok ==> forall|i: u64|
            i < count ==> Some(r->Ok_0@[i as int]@) == #[trigger] send_point(
                point_of_scalar(receiver_secret_key@),
                relationship_seed@,
                i,
            ),
        r is Err ==> r->Err_0 == KeyError::InvalidTweak,
{
    let mut out: Vec<PublicPoint> = Vec::new();
    let mut i: usize = 0;
    while i < count
        invariant
            i <= count,
            out@.len() == i,
            forall|j: u64|
                j < i ==> #[trigger] watch_scalar(receiver_secret_key@, relationship_seed@, j)
                    is Some,
            forall|j: u64|
                j < i ==> Some(out@[j as int]@) == #[trigger] watch_point(
                    receiver_secret_key@,
                    relationship_seed@,
                    j,
                ),
            forall|j: u64|
                j < i ==> Some(out@[j as int]@) == #[trigger] send_point(
                    point_of_scalar(receiver_secret_key@),
                    relationship_seed@,
                    j,
                ),
        decreases count - i,
    {
        let counter = u64_be_bytes(i as u64);
        let off = hmac_sha256_bytes(relationship_seed.as_slice(), counter.as_slice());
        let tweaked = match scalar_tweak_add(receiver_secret_key.bytes_ref(), &off) {
            Some(t) => t,
            None => {
                proof {
                    assert(watch_scalar(receiver_secret_key@, relationship_seed@, i as u64)
                        is None);
                }
                return Err(KeyError::InvalidTweak);
            },
        };
        let point_bytes = point_from_scalar(&tweaked);
        out.push(PublicPoint::from_valid_bytes(point_bytes));
        i += 1;
    }
    Ok(out)
}

/// Verifies the published change key as in the master-key derivation, then
/// derives `count` watch addresses from the relationship seed. Nothing is
/// derived when verification fails.
pub fn derive_watch_addresses(
    published_change_key: &PublicPoint,
    sender_pub_key: &PublicPoint,
    receiver_secret_key: &SecretScalar,
    count: usize,
) -> (r: Result<Vec<PublicPoint>, KeyError>)
    ensures
        ({
            let rc = recomputed_change_point(sender_pub_key@, receiver_secret_key@);
            let seed = relationship_seed_of(
                shared_secret_of(receiver_secret_key@, sender_pub_key@),
            );
            &&& (r is Ok <==> (rc == Some(published_change_key@) && (forall|i: u64|
                i < count ==> #[trigger] watch_scalar(receiver_secret_key@, seed, i) is Some)))
            &&& (r is Ok ==> r->Ok_0@.len() == count)
            &&& (r is Ok ==> forall|i: u64|
                i < count ==> Some(r->Ok_0@[i as int]@) == #[trigger] watch_point(
                    receiver_secret_key@,
                    seed,
                    i,
                ))
            &&& (r == Err::<Vec<PublicPoint>, KeyError>(KeyError::VerificationFailed) <==> (rc
                is Some && rc->0 != published_change_key@))
            &&& (r == Err::<Vec<PublicPoint>, KeyError>(KeyError::InvalidTweak) <==> (rc is None
                || (rc == Some(published_change_key@) && !(forall|i: u64|
                i < count ==> #[trigger] watch_scalar(receiver_secret_key@, seed, i) is Some))))
        }),
{
    let recomputed = match recompute_change_point(sender_pub_key, receiver_secret_key) {
        Ok(p) => p,
        Err(e) => {
            return Err(e);
        },
    };
    if !recomputed.eq_point(published_change_key) {
        return Err(KeyError::VerificationFailed);
    }
    let (_offset, seed) = derive_sub_secrets(receiver_secret_key, sender_pub_key);
    watch_address_points(receiver_secret_key, &seed, count)
}

} // verus!
