use ursa_key_utils::{
    generate_keypair, generate_keypair_with_secret_key, generate_keypair_with_seed,
    keypair_from_raw, KeyError, KeyKind, Sha512PrivateKey, Sha512PublicKey,
};

#[test]
fn test_default_keys_generation() {
    let (public_key, private_key) = generate_keypair().expect("Failed to generate key pair.");
    assert!(!&public_key.to_vec().is_empty());
    assert!(!&private_key.to_vec().is_empty());
}

#[test]
fn test_default_keys_generation_with_seed() {
    let (public_key, private_key) =
        generate_keypair_with_seed(vec![1, 2, 3]).expect("Failed to generate key pair.");
    assert!(!&public_key.to_vec().is_empty());
    assert!(!&private_key.to_vec().is_empty());
}

#[test]
fn test_default_keys_generation_with_secret_key() {
    let (public_key, private_key) =
        generate_keypair_with_secret_key(vec![128; 64]).expect("Failed to generate key pair.");
    assert!(!&public_key.to_vec().is_empty());
    assert!(!&private_key.to_vec().is_empty());
}

#[test]
fn public_key_round_trip() {
    let bytes: Vec<u8> = (0..32u8).collect();
    let key = Sha512PublicKey::try_from(&bytes).unwrap();
    assert_eq!(key.to_vec(), bytes);
}

#[test]
fn private_key_round_trip() {
    let bytes: Vec<u8> = (100..164u8).collect();
    let key = Sha512PrivateKey::try_from(&bytes).unwrap();
    assert_eq!(key.to_vec(), bytes);
}

#[test]
fn public_key_rejects_wrong_lengths() {
    for len in [0usize, 1, 31, 33, 64] {
        let bytes = vec![7u8; len];
        assert_eq!(
            Sha512PublicKey::try_from(&bytes),
            Err(KeyError::LengthMismatch { expected: 32, actual: len, key_kind: KeyKind::Public })
        );
    }
}

#[test]
fn private_key_rejects_wrong_lengths() {
    for len in [0usize, 32, 63, 65, 128] {
        let bytes = vec![7u8; len];
        assert_eq!(
            Sha512PrivateKey::try_from(&bytes),
            Err(KeyError::LengthMismatch { expected: 64, actual: len, key_kind: KeyKind::Private })
        );
    }
}

#[test]
fn seeded_generation_is_deterministic() {
    let (p1, s1) = generate_keypair_with_seed(vec![1, 2, 3]).unwrap();
    let (p2, s2) = generate_keypair_with_seed(vec![1, 2, 3]).unwrap();
    assert_eq!(p1.to_vec(), p2.to_vec());
    assert_eq!(s1.to_vec(), s2.to_vec());
    assert_eq!(p1.to_vec().len(), 32);
    assert_eq!(p2.to_vec().len(), 32);
}

#[test]
fn seeded_generation_depends_on_seed() {
    let (p1, _) = generate_keypair_with_seed(vec![1, 2, 3]).unwrap();
    let (p2, _) = generate_keypair_with_seed(vec![4, 5, 6]).unwrap();
    assert_ne!(p1.to_vec(), p2.to_vec());
}

#[test]
fn seeded_generation_accepts_empty_seed() {
    let (p, s) = generate_keypair_with_seed(vec![]).unwrap();
    assert_eq!(p.to_vec().len(), 32);
    assert_eq!(s.to_vec().len(), 64);
}

#[test]
fn default_generation_differs_between_calls() {
    let (p1, s1) = generate_keypair().unwrap();
    let (p2, s2) = generate_keypair().unwrap();
    assert_ne!(p1.to_vec(), p2.to_vec());
    assert_ne!(s1.to_vec(), s2.to_vec());
}

#[test]
fn generated_keys_have_fixed_lengths() {
    let (p, s) = generate_keypair().unwrap();
    assert_eq!(p.to_vec().len(), 32);
    assert_eq!(s.to_vec().len(), 64);
}

#[test]
fn secret_key_derivation_keeps_the_secret() {
    let (p, s) = generate_keypair_with_secret_key(vec![128; 64]).unwrap();
    assert_eq!(p.to_vec().len(), 32);
    assert_eq!(s.to_vec(), vec![128u8; 64]);
    assert_eq!(p.to_vec(), vec![128u8; 32]);
}

#[test]
fn secret_key_derivation_is_consistent() {
    let (p1, _) = generate_keypair_with_secret_key(vec![128; 64]).unwrap();
    let (p2, _) = generate_keypair_with_secret_key(vec![128; 64]).unwrap();
    assert_eq!(p1.to_vec(), p2.to_vec());
}

#[test]
fn secret_key_derivation_of_generated_key() {
    let (p, s) = generate_keypair_with_seed(vec![9, 9]).unwrap();
    let (p2, s2) = generate_keypair_with_secret_key(s.to_vec()).unwrap();
    assert_eq!(p.to_vec(), p2.to_vec());
    assert_eq!(s.to_vec(), s2.to_vec());
    assert_eq!(&s.to_vec()[32..], &p.to_vec()[..]);
}

#[test]
fn secret_key_of_wrong_length_fails_generation() {
    let r = generate_keypair_with_secret_key(vec![1, 2, 3]);
    assert!(matches!(r, Err(KeyError::GenerationFailed { .. })));
    if let Err(KeyError::GenerationFailed { cause }) = r {
        assert!(cause.starts_with("KeyGenError("));
    }
}

#[test]
fn raw_keypair_with_right_lengths() {
    let public: Vec<u8> = (0..32u8).collect();
    let private: Vec<u8> = (0..64u8).rev().collect();
    let (p, s) = keypair_from_raw(&public, &private).unwrap();
    assert_eq!(p.to_vec(), public);
    assert_eq!(s.to_vec(), private);
}

#[test]
fn raw_keypair_with_short_public_key() {
    let r = keypair_from_raw(&vec![0u8; 31], &vec![0u8; 10]);
    assert_eq!(
        r,
        Err(KeyError::LengthMismatch { expected: 32, actual: 31, key_kind: KeyKind::Public })
    );
}

#[test]
fn raw_keypair_with_long_private_key() {
    let r = keypair_from_raw(&vec![0u8; 32], &vec![0u8; 65]);
    assert_eq!(
        r,
        Err(KeyError::LengthMismatch { expected: 64, actual: 65, key_kind: KeyKind::Private })
    );
}

#[test]
fn default_private_key_ends_with_public_key() {
    let (p, s) = generate_keypair().unwrap();
    assert_eq!(&s.to_vec()[32..], &p.to_vec()[..]);
}

#[test]
fn default_public_key_is_derived_from_secret() {
    let (p, s) = generate_keypair().unwrap();
    let (p2, s2) = generate_keypair_with_secret_key(s.to_vec()).unwrap();
    assert_eq!(p.to_vec(), p2.to_vec());
    assert_eq!(s.to_vec(), s2.to_vec());
}

#[test]
fn failed_secret_derivations_report_the_same_cause() {
    let r1 = generate_keypair_with_secret_key(vec![5; 10]);
    let r2 = generate_keypair_with_secret_key(vec![5; 10]);
    assert!(matches!(r1, Err(KeyError::GenerationFailed { .. })));
    assert_eq!(r1, r2);
}
