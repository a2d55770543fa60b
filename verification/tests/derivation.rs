//! End-to-end derivation tests: one full sender/receiver relationship.

use std::cmp::Ordering;

use reusable_taproot::keys::{KeyError, PublicPoint, SecretScalar};
use reusable_taproot::receiver::{derive_watch_addresses, generate_master_extended_private_key};
use reusable_taproot::sender::{
    derive_send_addresses, generate_change_output_script, generate_master_extended_public_key,
};

fn random_secret() -> SecretScalar {
    loop {
        let bytes: [u8; 32] = rand::random();
        if let Ok(s) = SecretScalar::from_bytes(bytes) {
            return s;
        }
    }
}

#[test]
fn test_receiver_sender_same_destinations() {
    let sender_secret_key = random_secret();
    let sender_pub_key = sender_secret_key.public_point();
    let receiver_secret_key = random_secret();
    let receiver_pub_key = receiver_secret_key.public_point();

    let (p_change_sender, relationship_seed) =
        generate_change_output_script(&sender_secret_key, &receiver_pub_key).unwrap();

    let master_xpub =
        generate_master_extended_public_key(&relationship_seed, &receiver_pub_key).unwrap();

    let master_xpriv = generate_master_extended_private_key(
        &p_change_sender,
        &sender_pub_key,
        &receiver_secret_key,
    )
    .unwrap();

    let receiver_master_xpub = secp256k1::PublicKey::from_secret_key(
        &secp256k1::SecretKey::from_secret_bytes(master_xpriv.secret_bytes()).unwrap(),
    );
    let master_xpub_point =
        secp256k1::PublicKey::from_byte_array_compressed(master_xpub.to_bytes()).unwrap();
    assert_eq!(receiver_master_xpub.cmp(&master_xpub_point), Ordering::Equal);
}

#[test]
fn scenario_full_relationship() {
    let sender_secret = random_secret();
    let sender_pub = sender_secret.public_point();
    let receiver_secret = random_secret();
    let receiver_pub = receiver_secret.public_point();

    // The sender derives the change output and the relationship seed.
    let (p_change, seed) =
        generate_change_output_script(&sender_secret, &receiver_pub).unwrap();

    // The receiver verifies the change key and derives the master private key.
    let master_priv =
        generate_master_extended_private_key(&p_change, &sender_pub, &receiver_secret).unwrap();

    // The master public key matches the master private key's point.
    let master_pub = generate_master_extended_public_key(&seed, &receiver_pub).unwrap();
    assert_eq!(master_priv.public_point().to_bytes(), master_pub.to_bytes());

    // Five draws on each side: two lists, pairwise equal in order.
    let watch = derive_watch_addresses(&p_change, &sender_pub, &receiver_secret, 5).unwrap();
    let send = derive_send_addresses(&seed, &receiver_pub, 5).unwrap();
    assert_eq!(watch.len(), 5);
    assert_eq!(send.len(), 5);
    for i in 0..5 {
        assert_eq!(watch[i].to_bytes(), send[i].to_bytes());
    }

    // The draws are independent: five distinct addresses, none the base key.
    for i in 0..5 {
        assert_ne!(watch[i].to_bytes(), receiver_pub.to_bytes());
        for j in 0..i {
            assert_ne!(watch[i].to_bytes(), watch[j].to_bytes());
        }
    }

    // The blinding changed the keys it touched.
    assert_ne!(p_change.to_bytes(), sender_pub.to_bytes());
    assert_ne!(master_pub.to_bytes(), receiver_pub.to_bytes());
}

#[test]
fn derivations_are_deterministic() {
    let sender_secret = random_secret();
    let receiver_secret = random_secret();
    let sender_pub = sender_secret.public_point();
    let receiver_pub = receiver_secret.public_point();

    let (pc1, seed1) = generate_change_output_script(&sender_secret, &receiver_pub).unwrap();
    let (pc2, seed2) = generate_change_output_script(&sender_secret, &receiver_pub).unwrap();
    assert_eq!(pc1.to_bytes(), pc2.to_bytes());
    assert_eq!(seed1, seed2);

    let w1 = derive_watch_addresses(&pc1, &sender_pub, &receiver_secret, 3).unwrap();
    let w2 = derive_watch_addresses(&pc2, &sender_pub, &receiver_secret, 3).unwrap();
    for i in 0..3 {
        assert_eq!(w1[i].to_bytes(), w2[i].to_bytes());
    }
}

#[test]
fn tampered_change_key_is_rejected() {
    let sender_secret = random_secret();
    let sender_pub = sender_secret.public_point();
    let receiver_secret = random_secret();
    let receiver_pub = receiver_secret.public_point();

    let (p_change, _seed) =
        generate_change_output_script(&sender_secret, &receiver_pub).unwrap();

    // Flipping the parity byte of the compressed encoding keeps it a valid
    // point (the negation) but a different one: a single mutated byte.
    let mut tampered_bytes = p_change.to_bytes();
    tampered_bytes[0] = if tampered_bytes[0] == 2 { 3 } else { 2 };
    let tampered = PublicPoint::from_bytes(tampered_bytes).unwrap();

    let err = match generate_master_extended_private_key(&tampered, &sender_pub, &receiver_secret)
    {
        Err(e) => e,
        Ok(_) => panic!("verification must fail on a tampered change key"),
    };
    assert_eq!(err, KeyError::VerificationFailed);

    // No keystream is derived from an unverified relationship either.
    let err = derive_watch_addresses(&tampered, &sender_pub, &receiver_secret, 5).unwrap_err();
    assert_eq!(err, KeyError::VerificationFailed);
}

#[test]
fn public_point_of_one_is_the_base_point() {
    let mut one = [0u8; 32];
    one[31] = 1;
    let scalar = SecretScalar::from_bytes(one).unwrap();
    let base = [
        0x02, 0x79, 0xBE, 0x66, 0x7E, 0xF9, 0xDC, 0xBB, 0xAC, 0x55, 0xA0, 0x62, 0x95, 0xCE,
        0x87, 0x0B, 0x07, 0x02, 0x9B, 0xFC, 0xDB, 0x2D, 0xCE, 0x28, 0xD9, 0x59, 0xF2, 0x81,
        0x5B, 0x16, 0xF8, 0x17, 0x98,
    ];
    assert_eq!(scalar.public_point().to_bytes(), base);
}
