use akd_watch::auditor_app::{init_signature_storage, populate_namespace_repository, PopulateError};
use akd_watch::config::{
    AkdConfigurationType, AuditorConfig, ConfigNamespaceStatus, NamespaceConfig,
    NamespaceStorageConfig, SignatureStorageConfig, SigningConfig, VerifyingConfig,
};
use akd_watch::crypto::SigningKey;
use akd_watch::storage::namespaces::{
    FileNamespaceRepository, InMemoryNamespaceRepository, NamespaceRepository, NamespaceStorage,
};
use akd_watch::storage::signatures::{SignatureRepository, SignatureStorage};
use akd_watch::storage::signing_keys::{
    FileSigningKeyRepository, FileVerifyingKeyRepository, KeyState, SigningKeyRepository,
    SigningKeyStorage, VerifyingKeyRepository, VerifyingKeyStorage,
};
use akd_watch::{AkdConfiguration, Epoch, NamespaceInfo, NamespaceStatus};

fn configured(name: &str, start: u64, status: ConfigNamespaceStatus) -> NamespaceConfig {
    NamespaceConfig {
        name: name.to_string(),
        configuration_type: AkdConfigurationType::WhatsAppV1,
        log_directory: format!("https://example.com/{name}"),
        starting_epoch: start,
        status,
    }
}

fn recorded(name: &str, start: u64, last: Option<u64>, status: NamespaceStatus) -> NamespaceInfo {
    NamespaceInfo {
        configuration: AkdConfiguration::WhatsAppV1Configuration,
        name: name.to_string(),
        log_directory: format!("https://example.com/{name}"),
        last_verified_epoch: last.map(Epoch::new),
        starting_epoch: Epoch::new(start),
        status,
    }
}

#[test]
fn populate_adds_updates_and_leaves_alone() {
    let mut repo = InMemoryNamespaceRepository::new();
    repo.add_namespace(recorded("same", 1, Some(4), NamespaceStatus::Online)).unwrap();
    repo.add_namespace(recorded("disabled", 1, Some(4), NamespaceStatus::Online)).unwrap();
    repo.add_namespace(recorded("lost", 1, Some(4), NamespaceStatus::SignatureLost)).unwrap();
    repo.add_namespace(recorded("restarted", 1, Some(4), NamespaceStatus::Online)).unwrap();
    repo.add_namespace(recorded("untouched", 1, Some(9), NamespaceStatus::Disabled)).unwrap();

    let configs = vec![
        configured("same", 1, ConfigNamespaceStatus::Online),
        configured("disabled", 1, ConfigNamespaceStatus::Disabled),
        configured("lost", 1, ConfigNamespaceStatus::Online),
        configured("restarted", 10, ConfigNamespaceStatus::Online),
        configured("new", 7, ConfigNamespaceStatus::Disabled),
    ];
    populate_namespace_repository(&mut repo, &configs).unwrap();

    let get = |name: &str| repo.get_namespace_info(name).unwrap().unwrap();
    assert_eq!(get("same").status, NamespaceStatus::Online);
    assert_eq!(get("same").last_verified_epoch, Some(Epoch::new(4)));
    assert_eq!(get("disabled").status, NamespaceStatus::Disabled);
    assert_eq!(get("disabled").last_verified_epoch, Some(Epoch::new(4)));
    assert_eq!(get("lost").status, NamespaceStatus::SignatureLost);
    assert_eq!(get("restarted").last_verified_epoch, None);
    assert_eq!(get("restarted").starting_epoch, Epoch::new(10));
    assert_eq!(get("new").status, NamespaceStatus::Disabled);
    assert_eq!(get("new").starting_epoch, Epoch::new(7));
    assert_eq!(get("new").last_verified_epoch, None);
    assert_eq!(get("untouched").last_verified_epoch, Some(Epoch::new(9)));
    assert_eq!(repo.list_namespaces().unwrap().len(), 6);
}

#[test]
fn populate_refuses_a_namespace_configured_twice() {
    let mut repo = InMemoryNamespaceRepository::new();
    let configs = vec![
        configured("twice", 1, ConfigNamespaceStatus::Online),
        configured("twice", 2, ConfigNamespaceStatus::Online),
    ];
    match populate_namespace_repository(&mut repo, &configs) {
        Err(PopulateError::AddFailed { name, .. }) => assert_eq!(name, "twice"),
        other => panic!("expected AddFailed, got {:?}", other),
    }
    // What was added before the failure stays.
    assert_eq!(
        repo.get_namespace_info("twice").unwrap().unwrap().starting_epoch,
        Epoch::new(1)
    );
    let mut repo = InMemoryNamespaceRepository::new();
    let error = populate_namespace_repository(&mut repo, &configs).unwrap_err();
    assert_eq!(
        error.to_string(),
        "Failed to add namespace twice: Namespace already exists: twice"
    );
}

fn auditor_config(storage: SignatureStorageConfig) -> AuditorConfig {
    AuditorConfig {
        sleep_seconds: 30,
        namespaces: vec![
            configured("a", 1, ConfigNamespaceStatus::Online),
            configured("b", 1, ConfigNamespaceStatus::Online),
        ],
        namespace_storage: NamespaceStorageConfig::InMemory,
        signing: SigningConfig::default(),
        signature_storage: storage,
    }
}

#[test]
fn signature_stores_follow_the_configuration() {
    let stores = init_signature_storage(&auditor_config(SignatureStorageConfig::File), "/data/sigs")
        .unwrap();
    assert_eq!(stores.len(), 2);
    assert_eq!(stores[0].0, "a");
    assert_eq!(stores[1].0, "b");
    match &stores[1].1 {
        SignatureStorage::Filesystem(files) => assert_eq!(files.root_path(), "/data/sigs/b"),
        _ => panic!("expected storage in files"),
    }

    let stores =
        init_signature_storage(&auditor_config(SignatureStorageConfig::InMemory), "").unwrap();
    assert_eq!(stores.len(), 2);
    match &stores[0].1 {
        SignatureStorage::InMemory(memory) => assert!(!memory.has_signature(&1).unwrap()),
        _ => panic!("expected storage in memory"),
    }

    let azure = SignatureStorageConfig::Azure {
        account_name: "a".to_string(),
        container_name: "c".to_string(),
        connection_string: Some("s".to_string()),
    };
    let error = init_signature_storage(&auditor_config(azure), "/data").err().unwrap();
    assert_eq!(
        error.to_string(),
        "Azure storage not yet implemented for signature storage"
    );
}

#[test]
fn configuration_builds_the_stores() {
    let mut repo = NamespaceStorageConfig::InMemory.build_namespace_storage("/data");
    assert!(matches!(repo, NamespaceStorage::InMemory(_)));
    repo.add_namespace(recorded("a", 1, None, NamespaceStatus::Online)).unwrap();
    repo.add_namespace(recorded("b", 1, None, NamespaceStatus::Online)).unwrap();

    let stores = SignatureStorageConfig::File
        .build_signature_storage(&repo, "/data")
        .unwrap();
    let mut paths: Vec<String> = stores
        .iter()
        .map(|(name, store)| match store {
            SignatureStorage::Filesystem(files) => format!("{name}:{}", files.root_path()),
            SignatureStorage::InMemory(_) => panic!("expected storage in files"),
        })
        .collect();
    paths.sort();
    assert_eq!(paths, vec!["a:/data/signatures/a", "b:/data/signatures/b"]);
    assert_eq!(
        SignatureStorageConfig::InMemory
            .build_signature_storage(&repo, "/data")
            .unwrap()
            .len(),
        2
    );
    let azure = SignatureStorageConfig::Azure {
        account_name: "a".to_string(),
        container_name: "c".to_string(),
        connection_string: None,
    };
    assert!(azure.build_signature_storage(&repo, "/data").is_err());

    match NamespaceStorageConfig::File.build_namespace_storage("/data") {
        NamespaceStorage::File(file) => {
            assert_eq!(file.file_path(), "/data/namespaces.json");
            assert!(file.list_namespaces().unwrap().is_empty());
        }
        _ => panic!("expected storage in a file"),
    }
    match (SigningConfig { key_lifetime_seconds: 60 }).build_signing_key_storage("/data") {
        SigningKeyStorage::File(keys) => {
            assert_eq!(keys.directory(), "/data/keys");
            assert!(keys.has_unsaved_changes());
        }
        _ => panic!("expected keys in files"),
    }
    match (VerifyingConfig {}).build_verifying_key_storage("/data/keys").unwrap() {
        VerifyingKeyStorage::File(keys) => {
            assert_eq!(keys.path(), "/data/keys/keys_verifying.json");
            assert!(keys.list_keys().unwrap().is_empty());
        }
        _ => panic!("expected keys in a file"),
    }
}

#[test]
fn file_namespace_repository_tracks_what_is_unsaved() {
    let loaded = vec![
        recorded("a", 1, Some(2), NamespaceStatus::Online),
        recorded("b", 1, None, NamespaceStatus::Online),
        recorded("a", 1, Some(3), NamespaceStatus::Online),
    ];
    let mut repo = FileNamespaceRepository::with_namespaces("/data/state.json".to_string(), loaded);
    assert_eq!(repo.file_path(), "/data/state.json");
    assert_eq!(repo.temporary_file_path(), "/data/state.json.tmp");
    assert!(!repo.has_unsaved_changes());
    assert_eq!(repo.list_namespaces().unwrap().len(), 2);
    assert_eq!(
        repo.get_namespace_info("a").unwrap().unwrap().last_verified_epoch,
        Some(Epoch::new(3))
    );

    assert!(repo.update_namespace(recorded("c", 1, None, NamespaceStatus::Online)).is_err());
    assert!(!repo.has_unsaved_changes());
    repo.update_namespace(recorded("b", 1, Some(8), NamespaceStatus::Online)).unwrap();
    assert!(repo.has_unsaved_changes());
    repo.mark_saved();
    assert!(!repo.has_unsaved_changes());
    repo.remove_namespace("a").unwrap();
    assert!(repo.has_unsaved_changes());
    assert!(repo.get_namespace_info("a").unwrap().is_none());

    let fresh = FileNamespaceRepository::new("/data/state.json".to_string());
    assert!(fresh.list_namespaces().unwrap().is_empty());
    assert!(!fresh.has_unsaved_changes());
}

#[test]
fn file_key_repository_tracks_what_is_unsaved() {
    assert_eq!(FileSigningKeyRepository::key_directory("/data"), "/data/keys");
    assert_eq!(
        FileSigningKeyRepository::signing_key_path("/data/keys"),
        "/data/keys/keys.json"
    );
    assert_eq!(
        FileSigningKeyRepository::verifying_key_path("/data/keys"),
        "/data/keys/keys_verifying.json"
    );

    let now = chrono::Utc::now().timestamp_millis();
    let state = KeyState::new(SigningKey::generate_at([1u8; 32], 1, now, 3_600_000));
    let mut repo = FileSigningKeyRepository::with_state("/data", state, 3_600_000);
    assert!(repo.has_unsaved_changes());
    repo.mark_saved();
    assert_eq!(repo.get_current_signing_key().unwrap().key_id(), 1);
    assert!(!repo.has_unsaved_changes());

    let rotated = repo.rotate_signing_key().unwrap();
    assert_ne!(rotated.key_id(), 1);
    assert!(repo.has_unsaved_changes());
    assert_eq!(repo.key_state().expired_keys().len(), 1);
    assert_eq!(repo.key_state().current_signing_key().key_id(), rotated.key_id());
    let keys = repo.verifying_key_repository().unwrap();
    assert!(keys.get_verifying_key(1).unwrap().is_some());
    assert!(keys.get_verifying_key(rotated.key_id()).unwrap().is_some());

    repo.mark_saved();
    repo.force_key_rotation().unwrap();
    assert!(repo.has_unsaved_changes());
    assert_eq!(repo.key_state().expired_keys().len(), 2);

    let expired = KeyState::new(SigningKey::generate_at([2u8; 32], 2, 0, 1));
    let mut repo = FileSigningKeyRepository::with_state("/data", expired, 3_600_000);
    repo.mark_saved();
    let current = repo.get_current_signing_key().unwrap();
    assert_ne!(current.key_id(), 2);
    assert!(repo.has_unsaved_changes());
}

#[test]
fn file_verifying_keys_are_read_again_on_a_miss() {
    let first = SigningKey::generate_at([1u8; 32], 1, 0, 10).verifying_key().unwrap();
    let second = SigningKey::generate_at([2u8; 32], 2, 0, 10).verifying_key().unwrap();
    let mut repo = FileVerifyingKeyRepository::new("/data/keys/keys_verifying.json".to_string());
    assert!(repo.needs_reload(1));
    repo.populate_in_memory_map(vec![first]);
    assert!(!repo.needs_reload(1));
    assert!(repo.needs_reload(2));
    assert!(repo.get_verifying_key_from_memory(2).is_none());
    repo.populate_in_memory_map(vec![first, second]);
    assert_eq!(repo.get_verifying_key_from_memory(2).unwrap().key_id, 2);
    assert_eq!(repo.get_verifying_key(1).unwrap().unwrap().verifying_key, first.verifying_key);
}

#[test]
fn a_name_that_is_configured_twice_is_added_once() {
    let mut repo = InMemoryNamespaceRepository::new();
    repo.add_namespace(recorded("a", 1, Some(4), NamespaceStatus::Online)).unwrap();

    // Distinct names over a repository in memory: nothing can fail.
    populate_namespace_repository(
        &mut repo,
        &vec![
            configured("a", 1, ConfigNamespaceStatus::Disabled),
            configured("b", 1, ConfigNamespaceStatus::Online),
        ],
    )
    .unwrap();
    assert_eq!(repo.list_namespaces().unwrap().len(), 2);

    // The second "c" is not recorded when the call begins, so it is added
    // again, and refused.
    match populate_namespace_repository(
        &mut repo,
        &vec![
            configured("c", 1, ConfigNamespaceStatus::Online),
            configured("c", 2, ConfigNamespaceStatus::Online),
        ],
    ) {
        Err(e @ PopulateError::AddFailed { .. }) => {
            assert!(e.to_string().starts_with("Failed to add namespace c: "))
        }
        other => panic!("expected AddFailed, got {:?}", other),
    }
    let kept = repo.get_namespace_info("c").unwrap().unwrap();
    assert_eq!(kept.starting_epoch, Epoch::new(1));
    assert_eq!(repo.list_namespaces().unwrap().len(), 3);
}
