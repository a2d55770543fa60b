//! The laws on concrete key material, and the error taxonomy.

use reusable_taproot::keys::{KeyError, PublicPoint, SecretScalar};
use reusable_taproot::laws::{
    change_key_agreement, change_output_deterministic, ecdh_symmetry, keystream_cross_equality,
    master_key_duality, tamper_detection, watch_points_deterministic,
};
use reusable_taproot::sender::generate_master_extended_public_key;

fn random_secret() -> SecretScalar {
    loop {
        let bytes: [u8; 32] = rand::random();
        if let Ok(s) = SecretScalar::from_bytes(bytes) {
            return s;
        }
    }
}

#[test]
fn ecdh_symmetry_holds() {
    let a = random_secret();
    let b = random_secret();
    let (ab, ba) = ecdh_symmetry(&a, &b);
    assert_eq!(ab, ba);
}

#[test]
fn change_key_agreement_holds() {
    let sender = random_secret();
    let receiver = random_secret();
    let (sender_out, recomputed) = change_key_agreement(&sender, &receiver);
    let (p_change, _seed) = sender_out.unwrap();
    assert_eq!(recomputed.unwrap().to_bytes(), p_change.to_bytes());
}

#[test]
fn master_key_duality_holds() {
    let receiver = random_secret();
    let seed: [u8; 32] = random_secret().secret_bytes();
    let (master_priv, master_pub) = master_key_duality(&seed, &receiver);
    let master_priv = master_priv.unwrap();
    assert_eq!(
        master_priv.public_point().to_bytes(),
        master_pub.unwrap().to_bytes()
    );
}

#[test]
fn keystream_cross_equality_holds() {
    let receiver = random_secret();
    let seed: [u8; 32] = random_secret().secret_bytes();
    let (watch, send) = keystream_cross_equality(&receiver, &seed, 5);
    let watch = watch.unwrap();
    let send = send.unwrap();
    assert_eq!(watch.len(), 5);
    assert_eq!(send.len(), 5);
    for i in 0..5 {
        assert_eq!(watch[i].to_bytes(), send[i].to_bytes());
    }
}

#[test]
fn change_output_derivation_is_deterministic() {
    let sender = random_secret();
    let receiver_pub = random_secret().public_point();
    let (first, second) = change_output_deterministic(&sender, &receiver_pub);
    let (pc1, seed1) = first.unwrap();
    let (pc2, seed2) = second.unwrap();
    assert_eq!(pc1.to_bytes(), pc2.to_bytes());
    assert_eq!(seed1, seed2);
}

#[test]
fn keystream_is_restartable() {
    let receiver = random_secret();
    let seed: [u8; 32] = random_secret().secret_bytes();
    let (first, second) = watch_points_deterministic(&receiver, &seed, 4);
    let first = first.unwrap();
    let second = second.unwrap();
    assert_eq!(first.len(), 4);
    for i in 0..4 {
        assert_eq!(first[i].to_bytes(), second[i].to_bytes());
    }
}

#[test]
fn tamper_detection_law_holds() {
    let sender = random_secret();
    let receiver = random_secret();

    // A key from an unrelated relationship can never pass verification.
    let unrelated = random_secret().public_point();
    let (sender_out, master) = tamper_detection(&sender, &receiver, &unrelated);
    let (p_change, _seed) = sender_out.unwrap();
    assert_ne!(p_change.to_bytes(), unrelated.to_bytes());
    let err = match master {
        Err(e) => e,
        Ok(_) => panic!("verification must fail on an unrelated change key"),
    };
    assert_eq!(err, KeyError::VerificationFailed);

    // The genuine change key passes.
    let (sender_out, master) = tamper_detection(&sender, &receiver, &p_change);
    assert!(sender_out.is_ok());
    assert!(master.is_ok());
}

#[test]
fn invalid_scalar_is_rejected() {
    // Zero, and anything at or above the curve order, is out of range.
    for bytes in [[0u8; 32], [0xFFu8; 32]] {
        let err = match SecretScalar::from_bytes(bytes) {
            Err(e) => e,
            Ok(_) => panic!("an out-of-range scalar must be rejected"),
        };
        assert_eq!(err, KeyError::InvalidScalar);
    }
}

#[test]
fn invalid_point_is_rejected() {
    assert_eq!(
        PublicPoint::from_bytes([0xFFu8; 33]).unwrap_err(),
        KeyError::InvalidPoint
    );
    assert_eq!(
        PublicPoint::from_bytes([0u8; 33]).unwrap_err(),
        KeyError::InvalidPoint
    );
}

#[test]
fn out_of_range_seed_is_an_invalid_tweak() {
    let receiver_pub = random_secret().public_point();
    // A seed at or above the curve order cannot serve as a tweak.
    let err = generate_master_extended_public_key(&[0xFFu8; 32], &receiver_pub).unwrap_err();
    assert_eq!(err, KeyError::InvalidTweak);
}

#[test]
fn points_compare_by_value() {
    let p = random_secret().public_point();
    let q = random_secret().public_point();
    let p_again = PublicPoint::from_bytes(p.to_bytes()).unwrap();
    assert!(p.eq_point(&p_again));
    assert!(!p.eq_point(&q));
}
