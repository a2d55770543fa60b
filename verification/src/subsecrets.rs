//! Shared-secret and sub-secret derivation: the logic both roles share.
//!
//! One party's secret scalar and the counterparty's point determine the
//! shared ECDH secret; from it the two domain-separated sub-secrets are
//! derived, one blinding the change key and one seeding the address
//! keystream. Key validity is carried by the argument types, so the
//! derivation cannot fail.

use vstd::prelude::*;

use crate::constants::{CHANGE_KEY_CONSTANT, RELATIONSHIP_SEED_CONSTANT};
use crate::ec::{ecdh_shared_secret, hmac_sha256_bytes};
use crate::keys::{PublicPoint, SecretScalar};
use crate::model::{change_offset_of, relationship_seed_of, shared_secret_of, u64_be_bytes};

verus! {

/// Derives the change-key offset and the relationship seed from one side of
/// the ECDH exchange. Pure: both values are functions of the two keys alone.
pub fn derive_sub_secrets(secret_key: &SecretScalar, peer_pub_key: &PublicPoint) -> (r: (
    [u8; 32],
    [u8; 32],
))
    ensures
        r.0@ == change_offset_of(shared_secret_of(secret_key@, peer_pub_key@)),
        r.1@ == relationship_seed_of(shared_secret_of(secret_key@, peer_pub_key@)),
{
    let shared = ecdh_shared_secret(secret_key.bytes_ref(), peer_pub_key.bytes_ref());
    let change_label = u64_be_bytes(CHANGE_KEY_CONSTANT);
    let offset = hmac_sha256_bytes(change_label.as_slice(), shared.as_slice());
    let seed_label = u64_be_bytes(RELATIONSHIP_SEED_CONSTANT);
    let seed = hmac_sha256_bytes(seed_label.as_slice(), shared.as_slice());
    (offset, seed)
}

} // verus!
