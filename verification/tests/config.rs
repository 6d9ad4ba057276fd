use akd_watch::config::{
    default_key_lifetime_seconds, default_sleep_seconds, validate_directory,
    validate_directory_with, AkdConfigurationType, AuditorConfig, ConfigNamespaceStatus,
    NamespaceConfig, NamespaceStorageConfig, SignatureStorageConfig, SigningConfig,
    VerifyingConfig,
};
use akd_watch::{AkdConfiguration, NamespaceInfo, NamespaceStatus};

#[test]
fn test_namespace_config_conversion() {
    let namespace_config = NamespaceConfig {
        name: "test".to_string(),
        configuration_type: AkdConfigurationType::WhatsAppV1,
        log_directory: "logs/test".to_string(),
        starting_epoch: 5,
        status: ConfigNamespaceStatus::Online,
    };

    // Test with no existing namespace info (should use starting_epoch)
    let (namespace_info, status_changed) = namespace_config.to_namespace_info(None).unwrap();
    assert_eq!(namespace_info.name, "test");
    assert_eq!(namespace_info.last_verified_epoch, None); // No existing info, so None
    assert_eq!(namespace_info.starting_epoch, 5u64.into());
    assert!(!status_changed); // New namespace, so no change

    // Test with existing namespace info (should preserve existing last_verified_epoch)
    let existing_info = NamespaceInfo {
        configuration: AkdConfiguration::WhatsAppV1Configuration,
        name: "test".to_string(),
        log_directory: "logs/test".to_string(),
        last_verified_epoch: Some(10u64.into()),
        starting_epoch: 5u64.into(),
        status: NamespaceStatus::Online,
    };

    let (namespace_info, status_changed) = namespace_config
        .to_namespace_info(Some(&existing_info))
        .unwrap();
    assert_eq!(namespace_info.name, "test");
    assert_eq!(namespace_info.last_verified_epoch, Some(10u64.into())); // Should preserve existing value
    assert!(!status_changed); // Both Online, no change
}

#[test]
fn test_strong_typing() {
    // Test that AkdConfigurationType enum works correctly
    let whatsapp_config = NamespaceConfig {
        name: "test".to_string(),
        configuration_type: AkdConfigurationType::WhatsAppV1,
        log_directory: "logs/test".to_string(),
        starting_epoch: 0,
        status: ConfigNamespaceStatus::Online,
    };

    let (namespace_info, _) = whatsapp_config.to_namespace_info(None).unwrap();
    assert!(matches!(
        namespace_info.configuration,
        AkdConfiguration::WhatsAppV1Configuration
    ));

    let bitwarden_config = NamespaceConfig {
        name: "test".to_string(),
        configuration_type: AkdConfigurationType::BitwardenV1,
        log_directory: "logs/test".to_string(),
        starting_epoch: 0,
        status: ConfigNamespaceStatus::Disabled,
    };

    let (namespace_info, _) = bitwarden_config.to_namespace_info(None).unwrap();
    assert!(matches!(
        namespace_info.configuration,
        AkdConfiguration::BitwardenV1Configuration
    ));
    assert!(matches!(namespace_info.status, NamespaceStatus::Disabled));
}

#[test]
fn test_status_transitions() {
    let disabled_config = NamespaceConfig {
        name: "test".to_string(),
        configuration_type: AkdConfigurationType::WhatsAppV1,
        log_directory: "logs/test".to_string(),
        starting_epoch: 0,
        status: ConfigNamespaceStatus::Disabled,
    };

    // Test: Online -> Disabled (should change)
    let online_existing = NamespaceInfo {
        configuration: AkdConfiguration::WhatsAppV1Configuration,
        name: "test".to_string(),
        log_directory: "logs/test".to_string(),
        last_verified_epoch: Some(5u64.into()),
        starting_epoch: 1u64.into(),
        status: NamespaceStatus::Online,
    };

    let (info, changed) = disabled_config
        .to_namespace_info(Some(&online_existing))
        .unwrap();
    assert!(matches!(info.status, NamespaceStatus::Disabled));
    assert!(
        changed,
        "Should detect status change from Online to Disabled"
    );

    // Test: Initialization -> Disabled (should change)
    let init_existing = NamespaceInfo {
        configuration: AkdConfiguration::WhatsAppV1Configuration,
        name: "test".to_string(),
        log_directory: "logs/test".to_string(),
        last_verified_epoch: Some(5u64.into()),
        starting_epoch: 1u64.into(),
        status: NamespaceStatus::Initialization,
    };

    let (info, changed) = disabled_config
        .to_namespace_info(Some(&init_existing))
        .unwrap();
    assert!(matches!(info.status, NamespaceStatus::Disabled));
    assert!(
        changed,
        "Should detect status change from Initialization to Disabled"
    );

    // Test: SignatureLost -> should NOT change (preserve error state)
    let error_existing = NamespaceInfo {
        configuration: AkdConfiguration::WhatsAppV1Configuration,
        name: "test".to_string(),
        log_directory: "logs/test".to_string(),
        last_verified_epoch: Some(5u64.into()),
        starting_epoch: 1u64.into(),
        status: NamespaceStatus::SignatureLost,
    };

    let (info, changed) = disabled_config
        .to_namespace_info(Some(&error_existing))
        .unwrap();
    assert!(matches!(info.status, NamespaceStatus::SignatureLost));
    assert!(!changed, "Should NOT change error states");

    // Test: SignatureVerificationFailed -> should NOT change (preserve error state)
    let verification_error_existing = NamespaceInfo {
        configuration: AkdConfiguration::WhatsAppV1Configuration,
        name: "test".to_string(),
        log_directory: "logs/test".to_string(),
        last_verified_epoch: Some(5u64.into()),
        starting_epoch: 1u64.into(),
        status: NamespaceStatus::SignatureVerificationFailed,
    };

    let (info, changed) = disabled_config
        .to_namespace_info(Some(&verification_error_existing))
        .unwrap();
    assert!(matches!(
        info.status,
        NamespaceStatus::SignatureVerificationFailed
    ));
    assert!(!changed, "Should NOT change error states");
}

#[test]
fn test_resolve_status_transition() {
    // Test new namespace (None existing status)
    let (status, changed) =
        NamespaceConfig::resolve_status_transition(&ConfigNamespaceStatus::Online, None);
    assert!(matches!(status, NamespaceStatus::Online));
    assert!(!changed, "New namespace should not count as changed");

    let (status, changed) =
        NamespaceConfig::resolve_status_transition(&ConfigNamespaceStatus::Disabled, None);
    assert!(matches!(status, NamespaceStatus::Disabled));
    assert!(!changed, "New namespace should not count as changed");

    // Test error states are preserved
    let (status, changed) = NamespaceConfig::resolve_status_transition(
        &ConfigNamespaceStatus::Online,
        Some(&NamespaceStatus::SignatureLost),
    );
    assert!(matches!(status, NamespaceStatus::SignatureLost));
    assert!(!changed, "Error states should never be changed");

    let (status, changed) = NamespaceConfig::resolve_status_transition(
        &ConfigNamespaceStatus::Disabled,
        Some(&NamespaceStatus::SignatureVerificationFailed),
    );
    assert!(matches!(
        status,
        NamespaceStatus::SignatureVerificationFailed
    ));
    assert!(!changed, "Error states should never be changed");

    // Test normal status transitions
    let (status, changed) = NamespaceConfig::resolve_status_transition(
        &ConfigNamespaceStatus::Disabled,
        Some(&NamespaceStatus::Online),
    );
    assert!(matches!(status, NamespaceStatus::Disabled));
    assert!(changed, "Online -> Disabled should be detected as change");

    let (status, changed) = NamespaceConfig::resolve_status_transition(
        &ConfigNamespaceStatus::Online,
        Some(&NamespaceStatus::Disabled),
    );
    assert!(matches!(status, NamespaceStatus::Online));
    assert!(changed, "Disabled -> Online should be detected as change");

    let (status, changed) = NamespaceConfig::resolve_status_transition(
        &ConfigNamespaceStatus::Disabled,
        Some(&NamespaceStatus::Initialization),
    );
    assert!(matches!(status, NamespaceStatus::Disabled));
    assert!(
        changed,
        "Initialization -> Disabled should be detected as change"
    );

    // Test no change scenarios
    let (status, changed) = NamespaceConfig::resolve_status_transition(
        &ConfigNamespaceStatus::Online,
        Some(&NamespaceStatus::Online),
    );
    assert!(matches!(status, NamespaceStatus::Online));
    assert!(
        !changed,
        "Online -> Online should not be detected as change"
    );

    let (status, changed) = NamespaceConfig::resolve_status_transition(
        &ConfigNamespaceStatus::Disabled,
        Some(&NamespaceStatus::Disabled),
    );
    assert!(matches!(status, NamespaceStatus::Disabled));
    assert!(
        !changed,
        "Disabled -> Disabled should not be detected as change"
    );
}

#[test]
fn test_storage_config_validation() {
    // Test InMemory - should always be valid
    let inmemory = SignatureStorageConfig::InMemory;
    assert!(inmemory.validate("data_dir").is_ok());

    // Test File with valid directory that exists
    let file_valid = SignatureStorageConfig::File;
    let directory = "/tmp"; // /tmp
    assert!(file_valid.validate(directory).is_ok());

    // Test File with empty directory
    let file_empty = SignatureStorageConfig::File;
    let directory = "";
    let result = file_empty.validate(directory);
    assert!(result.is_err());
    assert!(result.unwrap_err().to_string().contains("cannot be empty"));

    // Test File with non-existent directory
    let file_nonexistent = SignatureStorageConfig::File;
    let directory = "/this/directory/should/not/exist/hopefully/12345";
    let result = file_nonexistent.validate(directory);
    assert!(result.is_err());
    assert!(result.unwrap_err().to_string().contains("does not exist"));

    // Test Azure with connection string in config
    let azure_with_conn = SignatureStorageConfig::Azure {
        account_name: "test".to_string(),
        container_name: "test".to_string(),
        connection_string: Some("DefaultEndpointsProtocol=https;AccountName=test;".to_string()),
    };
    let directory = "this/shouldn't/matter";
    assert!(azure_with_conn.validate(directory).is_ok());

    // Test Azure without connection string (should fail)
    let azure_no_conn = SignatureStorageConfig::Azure {
        account_name: "test".to_string(),
        container_name: "test".to_string(),
        connection_string: None,
    };
    let result = azure_no_conn.validate(directory);
    assert!(result.is_err());
    assert!(
        result
            .unwrap_err()
            .to_string()
            .contains("requires connection_string")
    );
}

#[test]
fn stale_last_verified_epoch_is_reset() {
    let config = NamespaceConfig {
        name: "test".to_string(),
        configuration_type: AkdConfigurationType::WhatsAppV1,
        log_directory: "logs/test".to_string(),
        starting_epoch: 20,
        status: ConfigNamespaceStatus::Online,
    };
    let existing = NamespaceInfo {
        configuration: AkdConfiguration::WhatsAppV1Configuration,
        name: "test".to_string(),
        log_directory: "logs/old".to_string(),
        last_verified_epoch: Some(19u64.into()),
        starting_epoch: 1u64.into(),
        status: NamespaceStatus::Online,
    };
    let (info, changed) = config.to_namespace_info(Some(&existing)).unwrap();
    assert_eq!(info.last_verified_epoch, None);
    assert_eq!(info.starting_epoch, 20u64.into());
    assert_eq!(info.log_directory, "logs/test");
    assert!(changed);

    let at_start = NamespaceInfo {
        last_verified_epoch: Some(20u64.into()),
        ..existing.clone()
    };
    let (info, changed) = config.to_namespace_info(Some(&at_start)).unwrap();
    assert_eq!(info.last_verified_epoch, Some(20u64.into()));
    assert!(!changed);

    assert_eq!(
        NamespaceConfig::resolve_last_verified_epoch(5, None),
        (None, false)
    );
    assert_eq!(
        NamespaceConfig::resolve_last_verified_epoch(5, Some(4u64.into())),
        (None, true)
    );
    assert_eq!(
        NamespaceConfig::resolve_last_verified_epoch(5, Some(5u64.into())),
        (Some(5u64.into()), false)
    );
}

#[test]
fn sticky_status_survives_with_stale_epoch() {
    let config = NamespaceConfig {
        name: "test".to_string(),
        configuration_type: AkdConfigurationType::WhatsAppV1,
        log_directory: "logs/test".to_string(),
        starting_epoch: 20,
        status: ConfigNamespaceStatus::Online,
    };
    let existing = NamespaceInfo {
        configuration: AkdConfiguration::WhatsAppV1Configuration,
        name: "test".to_string(),
        log_directory: "logs/test".to_string(),
        last_verified_epoch: Some(3u64.into()),
        starting_epoch: 1u64.into(),
        status: NamespaceStatus::SignatureLost,
    };
    let (info, changed) = config.to_namespace_info(Some(&existing)).unwrap();
    assert_eq!(info.status, NamespaceStatus::SignatureLost);
    assert_eq!(info.last_verified_epoch, None);
    assert!(changed);
}

#[test]
fn directory_validation_messages() {
    let error = validate_directory_with("", "Signing key directory", true, true).unwrap_err();
    assert_eq!(error.to_string(), "Signing key directory cannot be empty");
    let error = validate_directory_with("/x", "Signing key directory", false, false).unwrap_err();
    assert_eq!(error.to_string(), "Signing key directory does not exist: /x");
    let error = validate_directory_with("/x", "Signing key directory", true, false).unwrap_err();
    assert_eq!(error.to_string(), "Signing key directory is not a directory: /x");
    assert!(validate_directory_with("/x", "Signing key directory", true, true).is_ok());

    assert!(validate_directory("/tmp", "Signing key directory").is_ok());
    assert!(validate_directory("/this/does/not/exist/12345", "Keys").is_err());
    assert!(SigningConfig { key_lifetime_seconds: 1 }.validate("/tmp").is_ok());
    let error = VerifyingConfig {}.validate("").unwrap_err();
    assert_eq!(error.to_string(), "Verifying key directory cannot be empty");
}

#[test]
fn namespace_storage_validation() {
    assert!(NamespaceStorageConfig::InMemory.validate("").is_ok());
    assert!(NamespaceStorageConfig::File.validate("/tmp").is_ok());
    let error = NamespaceStorageConfig::File.validate("").unwrap_err();
    assert_eq!(error.to_string(), "Data directory cannot be empty");
    let error = NamespaceStorageConfig::File
        .validate_with("/nowhere", false)
        .unwrap_err();
    assert_eq!(error.to_string(), "Data directory does not exist: /nowhere");
    assert!(NamespaceStorageConfig::File.validate_with("/nowhere", true).is_ok());
}

#[test]
fn defaults_and_durations() {
    assert_eq!(default_sleep_seconds(), 30);
    assert_eq!(default_key_lifetime_seconds(), 2_592_000);
    assert_eq!(SigningConfig::default().key_lifetime_seconds, 2_592_000);
    assert_eq!(SigningConfig { key_lifetime_seconds: 3 }.key_lifetime_millis(), 3000);
    assert_eq!(
        SigningConfig { key_lifetime_seconds: i64::MAX }.key_lifetime_millis(),
        i64::MAX
    );
    let config = AuditorConfig {
        sleep_seconds: 30,
        namespaces: vec![],
        namespace_storage: NamespaceStorageConfig::InMemory,
        signing: SigningConfig::default(),
        signature_storage: SignatureStorageConfig::InMemory,
    };
    assert_eq!(config.sleep_duration(), 30_000);
    assert!(config.validate("/tmp").is_ok());
    assert!(config.validate_with("/data", true, true).is_ok());
    assert_eq!(
        config.validate_with("/data", true, false).unwrap_err().to_string(),
        "Signing key directory is not a directory: /data"
    );
    let files = AuditorConfig {
        namespace_storage: NamespaceStorageConfig::File,
        signature_storage: SignatureStorageConfig::File,
        ..config
    };
    assert_eq!(
        files.validate_with("/data", false, false).unwrap_err().to_string(),
        "Data directory does not exist: /data"
    );
    assert_eq!(
        files.validate_with("", true, true).unwrap_err().to_string(),
        "Data directory cannot be empty"
    );
    assert!(files.validate_with("/data", true, true).is_ok());
    assert_eq!(
        AuditorConfig { sleep_seconds: u64::MAX, ..files }.sleep_duration(),
        u64::MAX
    );
    assert_eq!(
        SignatureStorageConfig::signatures_directory("/data"),
        "/data/signatures"
    );
    assert_eq!(
        SignatureStorageConfig::namespace_signatures_directory("/data", "ns"),
        "/data/signatures/ns"
    );
}
