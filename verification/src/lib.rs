//! Reusable taproot addresses.
//!
//! A two-party, non-interactive key-derivation protocol: a sender and a
//! receiver who exchange one transaction derive a shared stream of future
//! one-time receiving public keys, each side by independent computation
//! over the same elliptic-curve Diffie-Hellman secret.

pub mod constants;
pub mod ec;
pub mod keys;
pub mod model;
pub mod receiver;
pub mod sender;
pub mod subsecrets;
pub mod laws;
