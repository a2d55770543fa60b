//! Protocol-wide domain-separation constants.
//!
//! Two distinct labels, each used (in big-endian byte form) as the HMAC key
//! that derives one sub-secret from the shared ECDH secret. Their values are
//! fixed by the protocol version; that they differ is what makes the change
//! offset and the relationship seed independent.

use vstd::prelude::*;

verus! {

/// Label under which the change-key offset is derived from the shared secret.
pub const CHANGE_KEY_CONSTANT: u64 = 1;

/// Label under which the relationship seed is derived from the shared secret.
pub const RELATIONSHIP_SEED_CONSTANT: u64 = 2;

} // verus!
