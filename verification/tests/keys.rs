use akd_watch::crypto::{key_id_string, SigningKey, VerifyingKey};
use akd_watch::epoch_signature::VerifyError;
use akd_watch::storage::signing_keys::{
    InMemorySigningKeyRepository, InMemoryVerifyingKeyRepository, KeyState, SigningKeyRepository,
    SigningKeyRepositoryError, VerifyingKeyRepository,
};
use akd_watch::{Ciphersuite, Epoch, EpochSignature, EpochSignatureV1};
use ed25519_dalek::Signer;
use std::collections::HashSet;

const LONG_KEY_LIFETIME: i64 = 3_600_000;
const SHORT_KEY_LIFETIME: i64 = 1;

fn sleep_millis(millis: u64) {
    let start = std::time::Instant::now();
    while start.elapsed() < std::time::Duration::from_millis(millis) {}
}

#[test]
fn test_new_repository_has_initial_key() {
    let mut repo = InMemorySigningKeyRepository::new(LONG_KEY_LIFETIME);
    let key = repo.get_current_signing_key().unwrap();

    // Should have a valid key
    assert!(!key.is_expired());
    // Should start with no expired keys
    assert_eq!(repo.get_expired_keys_count(), 0);
}

#[test]
fn test_get_current_signing_key_returns_same_key_when_not_expired() {
    let mut repo = InMemorySigningKeyRepository::new(LONG_KEY_LIFETIME);

    let key1 = repo.get_current_signing_key().unwrap();
    let key2 = repo.get_current_signing_key().unwrap();

    // Should return the same key
    assert_eq!(key1.key_id(), key2.key_id());
}

#[test]
fn test_get_current_signing_key_rotates_expired_key() {
    // Create repo with very short key lifetime
    let mut repo = InMemorySigningKeyRepository::new(SHORT_KEY_LIFETIME);

    let key1 = repo.get_current_signing_key().unwrap();

    // Wait for key to expire
    sleep_millis(10);

    let key2 = repo.get_current_signing_key().unwrap();

    // Should get a different key
    assert_ne!(key1.key_id(), key2.key_id());
    assert!(!key2.is_expired_at(key2.created_at()));
}

#[test]
fn test_expired_key_moved_to_expired_keys() {
    let mut repo = InMemorySigningKeyRepository::new(SHORT_KEY_LIFETIME);

    let key1 = repo.key_state().current_signing_key();
    let key1_id = key1.key_id();

    // Initially should have no expired keys
    assert_eq!(repo.get_expired_keys_count(), 0);

    // Wait for key to expire
    sleep_millis(10);

    let _key2 = repo.get_current_signing_key().unwrap();

    // Should now have one expired key
    assert_eq!(repo.get_expired_keys_count(), 1);
    let expired_key_ids = repo.get_expired_key_ids();
    assert!(expired_key_ids.contains(&key1_id));
}

#[test]
fn test_force_key_rotation() {
    let mut repo = InMemorySigningKeyRepository::new(LONG_KEY_LIFETIME);

    let key1 = repo.get_current_signing_key().unwrap();
    let key1_id = key1.key_id();

    // Initially should have no expired keys
    assert_eq!(repo.get_expired_keys_count(), 0);

    // Force rotation
    let result = repo.force_key_rotation();
    assert!(result.is_ok());

    let key2 = repo.get_current_signing_key().unwrap();

    // Should have a different key
    assert_ne!(key1_id, key2.key_id());
    assert!(!key2.is_expired());

    // Should now have one expired key
    assert_eq!(repo.get_expired_keys_count(), 1);
    let expired_key_ids = repo.get_expired_key_ids();
    assert!(expired_key_ids.contains(&key1_id));

    // Both keys should be available in verifying key repository
    let verifying_repo = repo.verifying_key_repository().unwrap();
    let old_verifying_key = verifying_repo.get_verifying_key(key1_id).unwrap();
    let current_verifying_key = verifying_repo.get_verifying_key(key2.key_id()).unwrap();
    assert!(old_verifying_key.is_some());
    assert!(current_verifying_key.is_some());
}

#[test]
fn test_multiple_rotations_accumulate_expired_keys() {
    let mut repo = InMemorySigningKeyRepository::new(LONG_KEY_LIFETIME);

    let mut key_ids = Vec::new();

    // Collect initial key
    let initial_key = repo.get_current_signing_key().unwrap();
    key_ids.push(initial_key.key_id());

    // Force multiple rotations
    for _ in 0..3 {
        repo.force_key_rotation().unwrap();
        let current_key = repo.get_current_signing_key().unwrap();
        key_ids.push(current_key.key_id());
    }

    // Should have 4 unique keys (initial + 3 rotations)
    let unique_keys: HashSet<_> = key_ids.iter().collect();
    assert_eq!(unique_keys.len(), 4);

    // Should have 3 expired keys (all but the current one)
    assert_eq!(repo.get_expired_keys_count(), 3);
    let expired_key_ids = repo.get_expired_key_ids();
    assert_eq!(expired_key_ids.len(), 3);

    // All expired keys should be the first 3 keys
    for &key_id in &key_ids[..3] {
        assert!(
            expired_key_ids.contains(&key_id),
            "Key {} should be in expired keys",
            key_id
        );
    }

    // All keys (current + expired) should be available in verifying key repository
    let verifying_repo = repo.verifying_key_repository().unwrap();
    for &key_id in &key_ids {
        let verifying_key = verifying_repo.get_verifying_key(key_id).unwrap();
        assert!(
            verifying_key.is_some(),
            "Key {} should be available for verification",
            key_id
        );
    }
}

#[test]
fn test_verifying_key_repository_contains_current_and_expired_keys() {
    let mut repo = InMemorySigningKeyRepository::new(LONG_KEY_LIFETIME);

    let key1 = repo.get_current_signing_key().unwrap();
    let key1_id = key1.key_id();

    repo.force_key_rotation().unwrap();

    let key2 = repo.get_current_signing_key().unwrap();
    let key2_id = key2.key_id();

    let verifying_repo = repo.verifying_key_repository().unwrap();

    // Both keys should be available for verification
    let verifying_key1 = verifying_repo.get_verifying_key(key1_id).unwrap();
    let verifying_key2 = verifying_repo.get_verifying_key(key2_id).unwrap();

    assert!(verifying_key1.is_some());
    assert!(verifying_key2.is_some());
    assert_eq!(verifying_key1.unwrap().key_id, key1_id);
    assert_eq!(verifying_key2.unwrap().key_id, key2_id);
}

#[test]
fn test_verifying_key_repository_returns_none_for_unknown_key() {
    let repo = InMemorySigningKeyRepository::new(LONG_KEY_LIFETIME);
    let verifying_repo = repo.verifying_key_repository().unwrap();

    let unknown_key_id = uuid::Uuid::new_v4().to_u128_le();
    let result = verifying_repo.get_verifying_key(unknown_key_id).unwrap();

    assert!(result.is_none());
}

#[test]
fn test_automatic_rotation_vs_forced_rotation() {
    let mut repo = InMemorySigningKeyRepository::new(SHORT_KEY_LIFETIME);

    let key1 = repo.key_state().current_signing_key();

    // Wait for automatic expiration
    sleep_millis(10);

    // This should trigger automatic rotation
    let key2 = repo.get_current_signing_key().unwrap();
    assert_ne!(key1.key_id(), key2.key_id());

    // This should trigger forced rotation
    repo.force_key_rotation().unwrap();
    let key3 = repo.key_state().current_signing_key();
    assert_ne!(key2.key_id(), key3.key_id());

    // All three keys should be different
    assert_ne!(key1.key_id(), key2.key_id());
    assert_ne!(key2.key_id(), key3.key_id());
    assert_ne!(key1.key_id(), key3.key_id());
}

#[test]
fn generated_key_lives_for_its_lifetime() {
    let key = SigningKey::generate_at([3u8; 32], 77, 1_000, 500);
    assert_eq!(key.key_id(), 77);
    assert_eq!(key.created_at(), 1_000);
    assert_eq!(key.not_after_date(), 1_500);
    assert_eq!(key.signing_key(), [3u8; 32]);
    assert!(!key.is_expired_at(1_500));
    assert!(key.is_expired_at(1_501));
    let capped = SigningKey::generate_at([3u8; 32], 77, i64::MAX - 1, 500);
    assert_eq!(capped.not_after_date(), i64::MAX);
    let mut expiring = key;
    expiring.expire_at(1_200);
    assert_eq!(expiring.not_after_date(), 1_200);
    assert!(expiring.is_expired_at(1_201));
    let rebuilt = SigningKey::new([3u8; 32], 77, 1_000, 1_500);
    assert_eq!(rebuilt.not_after_date(), 1_500);
}

#[test]
fn a_key_made_at_an_instant_starts_there() {
    let key = SigningKey::generate_from(5_000, 250);
    assert_eq!(key.created_at(), 5_000);
    assert_eq!(key.not_after_date(), 5_250);
    let other = SigningKey::generate_from(5_000, 250);
    assert_ne!(key.key_id(), other.key_id());
    assert_ne!(key.signing_key(), other.signing_key());
}

#[test]
fn a_forced_rotation_ends_the_old_key_where_the_new_one_begins() {
    let mut repo = InMemorySigningKeyRepository::new(LONG_KEY_LIFETIME);
    let first = repo.key_state().current_signing_key();
    repo.force_key_rotation().unwrap();
    let retired = repo.key_state().expired_keys();
    let current = repo.key_state().current_signing_key();
    assert_eq!(retired.len(), 1);
    assert_eq!(retired[0].key_id(), first.key_id());
    assert_eq!(retired[0].not_after_date(), current.created_at());
    assert_eq!(current.not_after_date(), current.created_at() + LONG_KEY_LIFETIME);
}

#[test]
fn verifying_key_is_the_public_half() {
    let secret = [9u8; 32];
    let key = SigningKey::generate_at(secret, 5, 10, 10);
    let verifying = key.verifying_key().unwrap();
    let expected = ed25519_dalek::SigningKey::from_bytes(&secret)
        .verifying_key()
        .to_bytes();
    assert_eq!(verifying.verifying_key, expected);
    assert_ne!(verifying.verifying_key, secret);
    assert_eq!(verifying.key_id, 5);
    assert_eq!(verifying.not_before, 10);
}

#[test]
fn signatures_are_ed25519_signatures() {
    let secret = [11u8; 32];
    let key = SigningKey::generate_at(secret, 5, 10, 10);
    let signature = key.sign(b"message");
    let expected = ed25519_dalek::SigningKey::from_bytes(&secret)
        .sign(b"message")
        .to_bytes();
    assert_eq!(signature, expected);
    let verifying = key.verifying_key().unwrap();
    assert!(verifying.accepts(b"message", &signature));
    assert!(!verifying.accepts(b"massage", &signature));
    let mut flipped = signature;
    flipped[10] ^= 1;
    assert!(!verifying.accepts(b"message", &flipped));
    let other = SigningKey::generate_at([12u8; 32], 6, 10, 10)
        .verifying_key()
        .unwrap();
    assert!(!other.accepts(b"message", &signature));
}

#[test]
fn key_ids_are_written_like_uuids() {
    let id = 0xd8d7d6d5d4d3d2d1c2c1b2b1a4a3a2a1u128;
    assert_eq!(key_id_string(id), "a1a2a3a4-b1b2-c1c2-d1d2-d3d4d5d6d7d8");
    assert_eq!(
        key_id_string(id),
        uuid::Uuid::from_u128_le(id).hyphenated().to_string()
    );
}

#[test]
fn rotation_refuses_an_identifier_in_use() {
    let first = SigningKey::generate_at([1u8; 32], 1, 0, 100);
    let second = SigningKey::generate_at([2u8; 32], 2, 50, 100);
    let clash = SigningKey::generate_at([3u8; 32], 1, 60, 100);
    let mut state = KeyState::new(first);
    assert!(state.holds_id(1));
    assert!(!state.holds_id(2));
    state.rotate_with(second, 50).unwrap();
    assert_eq!(state.current_signing_key().key_id(), 2);
    let retired = state.expired_keys();
    assert_eq!(retired.len(), 1);
    assert_eq!(retired[0].key_id(), 1);
    assert_eq!(retired[0].not_after_date(), 50);
    match state.rotate_with(clash, 60) {
        Err(SigningKeyRepositoryError::KeyIdInUse(id)) => assert_eq!(id, 1),
        other => panic!("expected KeyIdInUse, got {:?}", other.map_err(|e| e.to_string())),
    }
    assert_eq!(state.current_signing_key().key_id(), 2);
    assert_eq!(state.expired_keys().len(), 1);
    let keys = state.to_verifying_keys().unwrap();
    assert_eq!(keys.len(), 2);
    assert_eq!(keys[0].key_id, 1);
    assert_eq!(keys[1].key_id, 2);
}

#[test]
fn current_key_at_rotates_only_when_expired() {
    let first = SigningKey::generate_at([1u8; 32], 1, 0, 100);
    let fresh = SigningKey::generate_at([2u8; 32], 2, 150, 100);
    let mut repo = InMemorySigningKeyRepository::with_state(KeyState::new(first), 100);
    let key = repo.current_signing_key_at(100, fresh).unwrap();
    assert_eq!(key.key_id(), 1);
    assert_eq!(repo.get_expired_keys_count(), 0);
    let key = repo.current_signing_key_at(101, fresh).unwrap();
    assert_eq!(key.key_id(), 2);
    assert_eq!(repo.get_expired_key_ids(), vec![1]);
    assert_eq!(repo.key_state().expired_keys()[0].not_after_date(), 101);
}

#[test]
fn verifying_repository_holds_the_later_key_of_two() {
    let older = VerifyingKey { verifying_key: [1u8; 32], key_id: 7, not_before: 1 };
    let newer = VerifyingKey { verifying_key: [2u8; 32], key_id: 7, not_before: 2 };
    let other = VerifyingKey { verifying_key: [3u8; 32], key_id: 8, not_before: 3 };
    let repo = InMemoryVerifyingKeyRepository::new(vec![older, other, newer]);
    assert_eq!(repo.get_verifying_key(7).unwrap().unwrap().not_before, 2);
    assert_eq!(repo.get_verifying_key(8).unwrap().unwrap().not_before, 3);
    assert!(repo.get_verifying_key(9).unwrap().is_none());
    assert_eq!(repo.list_keys().unwrap().len(), 3);
}

#[test]
fn verification_reports_each_failure() {
    let key = SigningKey::generate_at([4u8; 32], 42, 0, 1_000);
    let signature = EpochSignature::sign_at("ns", Epoch::new(9), [1u8; 32], &key, 123).unwrap();
    let EpochSignature::V1(good) = signature.clone();
    assert_eq!(good.ciphersuite, Ciphersuite::ProtobufEd25519);
    assert_eq!(good.namespace, "ns");
    assert_eq!(good.timestamp, 123);
    assert_eq!(good.epoch, Epoch::new(9));
    assert_eq!(good.digest, vec![1u8; 32]);
    assert_eq!(good.signature.len(), 64);
    assert_eq!(good.key_id, 42);
    assert_eq!(signature.signing_key_id(), 42);
    assert_eq!(signature.epoch(), Epoch::new(9));
    assert_eq!(signature.digest(), vec![1u8; 32]);
    assert_eq!(signature.digest_hex(), "01".repeat(32));
    assert_eq!(signature.epoch_root_hash().unwrap(), [1u8; 32]);

    let repo = InMemoryVerifyingKeyRepository::new(vec![key.verifying_key().unwrap()]);
    assert!(signature.verify(&repo).is_ok());

    let empty = InMemoryVerifyingKeyRepository::new(vec![]);
    match signature.verify(&empty) {
        Err(VerifyError::VerifyingKeyNotFound(id)) => assert_eq!(id, 42),
        other => panic!("expected VerifyingKeyNotFound, got {:?}", other),
    }

    let tampered = EpochSignature::V1(EpochSignatureV1 { epoch: Epoch::new(10), ..good.clone() });
    assert!(matches!(
        tampered.verify(&repo),
        Err(VerifyError::SignatureVerificationFailed)
    ));

    let mut bits = good.signature.clone();
    bits[0] ^= 1;
    let flipped = EpochSignature::V1(EpochSignatureV1 { signature: bits, ..good.clone() });
    assert!(matches!(
        flipped.verify(&repo),
        Err(VerifyError::SignatureVerificationFailed)
    ));

    let short = EpochSignature::V1(EpochSignatureV1 {
        signature: good.signature[..63].to_vec(),
        ..good.clone()
    });
    match short.verify(&repo) {
        Err(VerifyError::SignatureLengthError { expected, actual }) => {
            assert_eq!((expected, actual), (64, 63))
        }
        other => panic!("expected SignatureLengthError, got {:?}", other),
    }
    assert_eq!(
        short.verify(&repo).unwrap_err().to_string(),
        "Signature length error: expected 64, got 63"
    );

    let unknown = EpochSignature::V1(EpochSignatureV1 {
        ciphersuite: Ciphersuite::Unknown(5),
        ..good.clone()
    });
    assert!(matches!(
        unknown.verify(&repo),
        Err(VerifyError::SerializationError(_))
    ));

    let short_digest = EpochSignature::V1(EpochSignatureV1 { digest: vec![1, 2], ..good.clone() });
    assert_eq!(short_digest.epoch_root_hash().unwrap_err().actual, 2);

    let bincode_suite = {
        let message = akd_watch::EpochSignedMessage {
            ciphersuite: Ciphersuite::BincodeEd25519,
            namespace: "ns".to_string(),
            timestamp: 123,
            epoch: Epoch::new(9),
            digest: vec![1u8; 32],
        };
        let bytes = message.to_vec().unwrap();
        EpochSignature::V1(EpochSignatureV1 {
            ciphersuite: Ciphersuite::BincodeEd25519,
            signature: key.sign(&bytes).to_vec(),
            ..good.clone()
        })
    };
    assert!(bincode_suite.verify(&repo).is_ok());
}

#[test]
fn signing_takes_the_present_second() {
    let key = SigningKey::generate(60_000);
    let info = akd_watch::NamespaceInfo {
        configuration: akd_watch::AkdConfiguration::TestConfiguration,
        name: "ns".to_string(),
        log_directory: "test".to_string(),
        last_verified_epoch: None,
        starting_epoch: Epoch::new(1),
        status: akd_watch::NamespaceStatus::Online,
    };
    let before = chrono::Utc::now().timestamp();
    let signature = EpochSignature::sign(info, Epoch::new(1), [0u8; 32], &key).unwrap();
    let after = chrono::Utc::now().timestamp();
    let EpochSignature::V1(v1) = signature.clone();
    assert!(before <= v1.timestamp && v1.timestamp <= after);
    assert!(before > 1_600_000_000);
    let made = SigningKey::generate(1_000);
    let millis = chrono::Utc::now().timestamp_millis();
    assert!(made.created_at() <= millis && millis - made.created_at() < 10_000);
    assert_eq!(made.not_after_date(), made.created_at() + 1_000);
    assert!(signature
        .verify_with_key(&key.verifying_key().unwrap())
        .is_ok());
}

#[test]
fn a_key_is_drawn_again_only_while_its_id_is_held() {
    let max_draws: usize = akd_watch::storage::signing_keys::MAX_KEY_DRAWS;
    let key = SigningKey::generate_at([7u8; 32], 11, 1_000, 60_000);
    let state = KeyState::new(key);
    assert_eq!(max_draws, 8);
    assert!(state.draws_again(11, 1));
    assert!(state.draws_again(11, max_draws - 1));
    assert!(!state.draws_again(11, max_draws));
    assert!(!state.draws_again(12, 1));
    let fresh = state.draw_fresh(5_000, 60_000);
    assert_ne!(fresh.key_id(), 11);
    assert_eq!(fresh.created_at(), 5_000);
    assert_eq!(fresh.not_after_date(), 65_000);
}
