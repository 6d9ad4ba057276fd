use akd_watch::crypto::SigningKey;
use akd_watch::storage::namespaces::{InMemoryNamespaceRepository, NamespaceRepository};
use akd_watch::storage::signatures::{InMemorySignatureStorage, SignatureRepository};
use akd_watch::storage::signing_keys::{InMemoryVerifyingKeyRepository, VerifyingKeyRepositoryError};
use akd_watch::web::{
    audit_query_handler, info_handler, list_namespaces_handler, namespace_query_handler,
    ApiError, KeyInfo, ServerConfiguration, SignatureResponse,
};
use akd_watch::{
    AkdConfiguration, Ciphersuite, Epoch, EpochSignature, NamespaceInfo, NamespaceStatus,
};

fn stores() -> Vec<(String, InMemorySignatureStorage)> {
    let key = SigningKey::generate_at([1u8; 32], 0xd8d7d6d5d4d3d2d1c2c1b2b1a4a3a2a1, 0, 10);
    let mut storage = InMemorySignatureStorage::new();
    storage
        .set_signature(
            &5,
            EpochSignature::sign_at("ns", Epoch::new(5), [0xAB; 32], &key, 1_700_000_000).unwrap(),
        )
        .unwrap();
    vec![("other".to_string(), InMemorySignatureStorage::new()), ("ns".to_string(), storage)]
}

#[test]
fn audit_query_shows_the_signature() {
    let response = audit_query_handler(&stores(), "ns", "5").unwrap().unwrap();
    assert_eq!(response.version, 1);
    assert_eq!(response.ciphersuite, Ciphersuite::ProtobufEd25519);
    assert_eq!(response.namespace, "ns");
    assert_eq!(response.timestamp, 1_700_000_000);
    assert_eq!(response.epoch, Epoch::new(5));
    assert_eq!(response.digest, "ab".repeat(32));
    assert_eq!(response.signature.len(), 128);
    assert_eq!(response.key_id, "a1a2a3a4-b1b2-c1c2-d1d2-d3d4d5d6d7d8");
    assert!(audit_query_handler(&stores(), "ns", "6").unwrap().is_none());
    assert!(audit_query_handler(&stores(), "other", "5").unwrap().is_none());
}

#[test]
fn audit_query_refuses_bad_requests() {
    match audit_query_handler(&stores(), "ns", "five") {
        Err(ApiError::BadRequest(message)) => assert_eq!(message, "epoch is not an integer"),
        other => panic!("expected BadRequest, got {:?}", other),
    }
    match audit_query_handler(&stores(), "nobody", "5") {
        Err(ApiError::BadRequest(message)) => assert_eq!(message, "namespace nobody not found"),
        other => panic!("expected BadRequest, got {:?}", other),
    }
    match audit_query_handler(&stores(), "nobody", "x") {
        Err(ApiError::BadRequest(message)) => assert_eq!(message, "epoch is not an integer"),
        other => panic!("expected BadRequest, got {:?}", other),
    }
}

#[test]
fn errors_become_answers() {
    assert_eq!(ApiError::NotFound.into_response(), (404, "Not found".to_string()));
    assert_eq!(
        ApiError::BadRequest("why".to_string()).into_response(),
        (400, "why".to_string())
    );
    assert_eq!(
        ApiError::Internal.into_response(),
        (500, "Internal server error".to_string())
    );
    assert_eq!(ApiError::BadRequest("why".to_string()).to_string(), "Bad request: why");
}

#[test]
fn namespaces_are_shown_as_recorded() {
    let mut repo = InMemoryNamespaceRepository::new();
    let info = NamespaceInfo {
        configuration: AkdConfiguration::WhatsAppV1Configuration,
        name: "ns".to_string(),
        log_directory: "https://example.com".to_string(),
        last_verified_epoch: Some(Epoch::new(3)),
        starting_epoch: Epoch::new(1),
        status: NamespaceStatus::Online,
    };
    repo.add_namespace(info).unwrap();
    let found = namespace_query_handler(&repo, "ns").unwrap().unwrap();
    assert_eq!(found.last_verified_epoch, Some(Epoch::new(3)));
    assert!(namespace_query_handler(&repo, "nobody").unwrap().is_none());
    assert_eq!(list_namespaces_handler(&repo).unwrap().len(), 1);
}

#[test]
fn keys_are_shown_in_hexadecimal() {
    let key = SigningKey::generate_at([1u8; 32], 7, 1_700_000_000_999, 10)
        .verifying_key()
        .unwrap();
    let info = KeyInfo::from(&key);
    assert_eq!(info.public_key, hex::encode(key.verifying_key));
    assert_eq!(info.key_id, uuid::Uuid::from_u128_le(7).to_string());
    assert_eq!(info.not_before, 1_700_000_000);
    let early = akd_watch::crypto::VerifyingKey { not_before: -1, ..key };
    assert_eq!(KeyInfo::from(&early).not_before, u64::MAX);

    let listed = ServerConfiguration::of_listing(Ok(vec![early, key]));
    assert_eq!(listed.keys.len(), 2);
    assert_eq!(listed.keys[1], info);
    let failed = ServerConfiguration::of_listing(Err(VerifyingKeyRepositoryError::IoError(
        "gone".to_string(),
    )));
    assert!(failed.keys.is_empty());

    let repo = InMemoryVerifyingKeyRepository::new(vec![key, early]);
    let shown = info_handler(&repo);
    assert_eq!(shown.keys.len(), 2);
    assert_eq!(shown.keys[0], info);

    let signature = EpochSignature::sign_at(
        "ns",
        Epoch::new(5),
        [1u8; 32],
        &SigningKey::generate_at([1u8; 32], 7, 0, 10),
        -1,
    )
    .unwrap();
    assert_eq!(SignatureResponse::from(signature).timestamp, u64::MAX);
}
