use akd_watch::akd_storage_factory::{AkdStorageFactory, AkdStorageImpl};
use akd_watch::{AkdConfiguration, NamespaceInfo, NamespaceStatus};

#[test]
fn test_factory_creates_whatsapp_storage() {
    let namespace = NamespaceInfo {
        name: "whatsapp".to_string(),
        configuration: AkdConfiguration::WhatsAppV1Configuration,
        log_directory: "https://d1tfr3x7n136ak.cloudfront.net/".to_string(),
        starting_epoch: 1000000.into(),
        status: NamespaceStatus::Online,
        last_verified_epoch: Some(1000000.into()),
    };

    let storage = AkdStorageFactory::create_storage(&namespace);
    assert!(matches!(storage, AkdStorageImpl::WhatsApp(_)));
    assert!(format!("{}", storage.to_string()).contains("WhatsApp"));
}

#[test]
fn test_factory_creates_test_storage() {
    let namespace = NamespaceInfo {
        name: "test".to_string(),
        configuration: AkdConfiguration::TestConfiguration,
        log_directory: "https://example.com/".to_string(),
        starting_epoch: 1000000.into(),
        status: NamespaceStatus::Online,
        last_verified_epoch: Some(1000000.into()),
    };

    let storage = AkdStorageFactory::create_storage(&namespace);
    assert!(matches!(storage, AkdStorageImpl::Test(_)));
    assert!(format!("{}", storage.to_string()).contains("Test"));
}

#[test]
fn factory_has_no_client_for_bitwarden() {
    let namespace = NamespaceInfo {
        name: "bw".to_string(),
        configuration: AkdConfiguration::BitwardenV1Configuration,
        log_directory: "https://example.com/".to_string(),
        starting_epoch: 0.into(),
        status: NamespaceStatus::Online,
        last_verified_epoch: None,
    };
    assert!(AkdStorageFactory::try_create_storage(&namespace).is_none());
    let whatsapp = NamespaceInfo {
        configuration: AkdConfiguration::WhatsAppV1Configuration,
        ..namespace.clone()
    };
    match AkdStorageFactory::try_create_storage(&whatsapp) {
        Some(AkdStorageImpl::WhatsApp(client)) => {
            assert_eq!(client.base_url(), "https://d1tfr3x7n136ak.cloudfront.net")
        }
        _ => panic!("expected the WhatsApp client"),
    }
}
