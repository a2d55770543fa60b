//! The mathematical model of the derivation protocol.
//!
//! Every derivation of the crate is pinned, in its `ensures`, to one of the
//! spec functions below, all of which are built from the primitive
//! vocabulary of `ec`. A `None` anywhere in the pipeline marks the one
//! failure the curve can inflict: a derived tweak that falls outside the
//! scalar field or a sum that degenerates.

use vstd::prelude::*;

use crate::constants::{CHANGE_KEY_CONSTANT, RELATIONSHIP_SEED_CONSTANT};
use crate::ec::{
    ecdh_bytes, hmac_sha256, point_add_scalar, point_of_scalar, scalar_add, tweak_in_range,
};

verus! {

/// The big-endian bytes of a 64-bit integer.
pub open spec fn u64_be_seq(x: u64) -> Seq<u8> {
    seq![
        ((x >> 56) & 0xff) as u8,
        ((x >> 48) & 0xff) as u8,
        ((x >> 40) & 0xff) as u8,
        ((x >> 32) & 0xff) as u8,
        ((x >> 24) & 0xff) as u8,
        ((x >> 16) & 0xff) as u8,
        ((x >> 8) & 0xff) as u8,
        (x & 0xff) as u8,
    ]
}

/// The shared secret one side computes from its scalar and the peer's point.
pub open spec fn shared_secret_of(secret: Seq<u8>, peer_point: Seq<u8>) -> Seq<u8> {
    ecdh_bytes(secret, peer_point)
}

/// The change-key offset derived from a shared secret.
pub open spec fn change_offset_of(shared: Seq<u8>) -> Seq<u8> {
    hmac_sha256(u64_be_seq(CHANGE_KEY_CONSTANT), shared)
}

/// The relationship seed derived from a shared secret.
pub open spec fn relationship_seed_of(shared: Seq<u8>) -> Seq<u8> {
    hmac_sha256(u64_be_seq(RELATIONSHIP_SEED_CONSTANT), shared)
}

/// The sender's tweaked secret scalar offset + p_sender, from which the
/// change point is derived; None when the offset cannot serve as a tweak.
pub open spec fn sender_change_scalar(p_sender: Seq<u8>, receiver_point: Seq<u8>) -> Option<
    Seq<u8>,
> {
    let off = change_offset_of(shared_secret_of(p_sender, receiver_point));
    if tweak_in_range(off) {
        scalar_add(p_sender, off)
    } else {
        None
    }
}

/// The change point P_change = (offset + p_sender)*G as the sender derives it.
pub open spec fn sender_change_point(p_sender: Seq<u8>, receiver_point: Seq<u8>) -> Option<
    Seq<u8>,
> {
    match sender_change_scalar(p_sender, receiver_point) {
        Some(s) => Some(point_of_scalar(s)),
        None => None,
    }
}

/// The change point offset*G + P_sender as the receiver recomputes it from
/// the sender's point and its own scalar.
pub open spec fn recomputed_change_point(sender_point: Seq<u8>, p_receiver: Seq<u8>) -> Option<
    Seq<u8>,
> {
    let off = change_offset_of(shared_secret_of(p_receiver, sender_point));
    if tweak_in_range(off) {
        point_add_scalar(sender_point, off)
    } else {
        None
    }
}

/// The master extended private key p_receiver + seed.
pub open spec fn master_private_of(p_receiver: Seq<u8>, seed: Seq<u8>) -> Option<Seq<u8>> {
    if tweak_in_range(seed) {
        scalar_add(p_receiver, seed)
    } else {
        None
    }
}

/// The master extended public key P_receiver + seed*G.
pub open spec fn master_public_of(receiver_point: Seq<u8>, seed: Seq<u8>) -> Option<Seq<u8>> {
    if tweak_in_range(seed) {
        point_add_scalar(receiver_point, seed)
    } else {
        None
    }
}

/// Draw i of the deterministic keystream seeded with the relationship seed:
/// the HMAC of the draw index under the seed, used byte for byte as the key.
pub open spec fn keystream_offset(seed: Seq<u8>, i: u64) -> Seq<u8> {
    hmac_sha256(seed, u64_be_seq(i))
}

/// The receiver's address scalar p_receiver + offset_i for draw i.
pub open spec fn watch_scalar(p_receiver: Seq<u8>, seed: Seq<u8>, i: u64) -> Option<Seq<u8>> {
    let off = keystream_offset(seed, i);
    if tweak_in_range(off) {
        scalar_add(p_receiver, off)
    } else {
        None
    }
}

/// The receiver's address point (p_receiver + offset_i)*G for draw i.
pub open spec fn watch_point(p_receiver: Seq<u8>, seed: Seq<u8>, i: u64) -> Option<Seq<u8>> {
    match watch_scalar(p_receiver, seed, i) {
        Some(s) => Some(point_of_scalar(s)),
        None => None,
    }
}

/// The sender's address point offset_i*G + P_receiver for draw i.
pub open spec fn send_point(receiver_point: Seq<u8>, seed: Seq<u8>, i: u64) -> Option<Seq<u8>> {
    let off = keystream_offset(seed, i);
    if tweak_in_range(off) {
        point_add_scalar(receiver_point, off)
    } else {
        None
    }
}

/// The big-endian bytes of a 64-bit integer, as executable code.
pub fn u64_be_bytes(x: u64) -> (r: Vec<u8>)
    ensures
        r@ == u64_be_seq(x),
{
    proof {
        assert((x >> 56) & 0xff < 256 && (x >> 48) & 0xff < 256 && (x >> 40) & 0xff < 256 && (x
            >> 32) & 0xff < 256 && (x >> 24) & 0xff < 256 && (x >> 16) & 0xff < 256 && (x >> 8)
            & 0xff < 256 && x & 0xff < 256) by (bit_vector);
    }
    let mut v: Vec<u8> = Vec::new();
    v.push(((x >> 56) & 0xff) as u8);
    v.push(((x >> 48) & 0xff) as u8);
    v.push(((x >> 40) & 0xff) as u8);
    v.push(((x >> 32) & 0xff) as u8);
    v.push(((x >> 24) & 0xff) as u8);
    v.push(((x >> 16) & 0xff) as u8);
    v.push(((x >> 8) & 0xff) as u8);
    v.push((x & 0xff) as u8);
    proof {
        assert(v@ =~= u64_be_seq(x));
    }
    v
}

} // verus!
