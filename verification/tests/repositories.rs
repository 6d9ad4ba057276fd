use akd_watch::crypto::SigningKey;
use akd_watch::storage::namespaces::{
    InMemoryNamespaceRepository, NamespaceRepository, NamespaceRepositoryError,
};
use akd_watch::storage::signatures::{
    FilesystemSignatureStorage, InMemorySignatureStorage, SignatureRepository,
    SignatureRepositoryError,
};
use akd_watch::{AkdConfiguration, Epoch, EpochSignature, NamespaceInfo, NamespaceStatus};

fn namespace(name: &str, last: Option<u64>) -> NamespaceInfo {
    NamespaceInfo {
        configuration: AkdConfiguration::TestConfiguration,
        name: name.to_string(),
        log_directory: "test".to_string(),
        last_verified_epoch: last.map(Epoch::new),
        starting_epoch: Epoch::new(1),
        status: NamespaceStatus::Online,
    }
}

#[test]
fn namespace_repository_follows_its_contract() {
    let mut repo = InMemoryNamespaceRepository::new();
    assert!(repo.get_namespace_info("a").unwrap().is_none());
    assert!(repo.list_namespaces().unwrap().is_empty());

    repo.add_namespace(namespace("a", None)).unwrap();
    repo.add_namespace(namespace("b", Some(3))).unwrap();
    match repo.add_namespace(namespace("a", Some(9))) {
        Err(NamespaceRepositoryError::NamespaceAlreadyExists(name)) => assert_eq!(name, "a"),
        other => panic!("expected NamespaceAlreadyExists, got {:?}", other),
    }
    assert_eq!(repo.get_namespace_info("a").unwrap().unwrap().last_verified_epoch, None);

    repo.update_namespace(namespace("a", Some(5))).unwrap();
    assert_eq!(
        repo.get_namespace_info("a").unwrap().unwrap().last_verified_epoch,
        Some(Epoch::new(5))
    );
    assert_eq!(
        repo.get_namespace_info("b").unwrap().unwrap().last_verified_epoch,
        Some(Epoch::new(3))
    );
    match repo.update_namespace(namespace("c", None)) {
        Err(NamespaceRepositoryError::NamespaceNotFound(name)) => assert_eq!(name, "c"),
        other => panic!("expected NamespaceNotFound, got {:?}", other),
    }
    assert_eq!(
        repo.update_namespace(namespace("c", None)).unwrap_err().to_string(),
        "Namespace not found: c"
    );

    let mut names: Vec<String> = repo
        .list_namespaces()
        .unwrap()
        .into_iter()
        .map(|info| info.name)
        .collect();
    names.sort();
    assert_eq!(names, vec!["a".to_string(), "b".to_string()]);

    repo.remove_namespace("a").unwrap();
    assert!(repo.get_namespace_info("a").unwrap().is_none());
    assert!(repo.get_namespace_info("b").unwrap().is_some());
    match repo.remove_namespace("a") {
        Err(NamespaceRepositoryError::NamespaceNotFound(name)) => assert_eq!(name, "a"),
        other => panic!("expected NamespaceNotFound, got {:?}", other),
    }
    assert_eq!(repo.list_namespaces().unwrap().len(), 1);
    let copy = repo.clone();
    assert_eq!(copy.list_namespaces().unwrap().len(), 1);
}

#[test]
fn namespace_info_updates() {
    let info = namespace("a", None);
    let updated = info.update_last_verified_epoch(Epoch::new(4));
    assert_eq!(updated.last_verified_epoch, Some(Epoch::new(4)));
    assert_eq!(updated.name, "a");
    assert_eq!(updated.status, NamespaceStatus::Online);
    let lost = info.update_status(NamespaceStatus::SignatureLost);
    assert_eq!(lost.status, NamespaceStatus::SignatureLost);
    assert_eq!(lost.last_verified_epoch, None);
    assert!(info.is_active());
    assert!(!lost.is_active());
    assert!(NamespaceStatus::Initialization.is_active());
    assert!(!NamespaceStatus::Disabled.is_active());
    assert!(!NamespaceStatus::SignatureVerificationFailed.is_active());
    assert!(NamespaceStatus::SignatureLost.is_sticky());
    assert!(NamespaceStatus::SignatureVerificationFailed.is_sticky());
    assert!(!NamespaceStatus::Disabled.is_sticky());
}

#[test]
fn signature_set_then_get() {
    let key = SigningKey::generate_at([1u8; 32], 1, 0, 1000);
    let first = EpochSignature::sign_at("ns", Epoch::new(4), [1u8; 32], &key, 10).unwrap();
    let second = EpochSignature::sign_at("ns", Epoch::new(4), [2u8; 32], &key, 11).unwrap();
    let mut storage = InMemorySignatureStorage::new();
    assert!(!storage.has_signature(&4).unwrap());
    assert!(storage.get_signature(&4).unwrap().is_none());

    storage.set_signature(&4, first.clone()).unwrap();
    assert!(storage.has_signature(&4).unwrap());
    assert!(!storage.has_signature(&5).unwrap());
    assert_eq!(storage.get_signature(&4).unwrap().unwrap().digest(), vec![1u8; 32]);

    storage.set_signature(&4, first).unwrap();
    assert_eq!(storage.get_signature(&4).unwrap().unwrap().digest(), vec![1u8; 32]);

    storage.set_signature(&4, second).unwrap();
    assert_eq!(storage.get_signature(&4).unwrap().unwrap().digest(), vec![2u8; 32]);
    assert!(storage.get_signature(&3).unwrap().is_none());
}

#[test]
fn signature_files_are_laid_out_by_epoch() {
    let storage = FilesystemSignatureStorage::new("/data/signatures/ns".to_string());
    assert_eq!(storage.root_path(), "/data/signatures/ns");
    assert_eq!(storage.epoch_path(&42), "/data/signatures/ns/42");
    assert_eq!(storage.epoch_sig_path(&42), "/data/signatures/ns/42/sig");
    assert_eq!(
        storage.signature_path_if(&42, true),
        Some("/data/signatures/ns/42/sig".to_string())
    );
    assert_eq!(storage.signature_path_if(&42, false), None);
    assert_eq!(storage.get_existing_signature_path(&42), None);

    let key = SigningKey::generate_at([1u8; 32], 1, 0, 1000);
    let signature = EpochSignature::sign_at("ns", Epoch::new(42), [1u8; 32], &key, 10).unwrap();
    let content = FilesystemSignatureStorage::file_content(&signature);
    assert_eq!(content, signature.encode());
    let read = FilesystemSignatureStorage::signature_of_content(&content).unwrap();
    assert_eq!(read.digest(), vec![1u8; 32]);
    assert_eq!(read.signing_key_id(), 1);
    assert!(matches!(
        FilesystemSignatureStorage::signature_of_content(&content[..10]),
        Err(SignatureRepositoryError::BincodeDecodeError(_))
    ));
}
