//! Chooses the client of a namespace's directory from its configuration.

use vstd::prelude::*;
use crate::akd_configurations::AkdConfiguration;
use crate::namespace_info::NamespaceInfo;
use crate::storage::test_akd_storage::TestAkdStorage;
use crate::storage::whatsapp_akd_storage::WhatsAppAkdStorage;

verus! {

/// The directory clients that exist.
#[derive(Debug)]
pub enum AkdStorageImpl {
    WhatsApp(WhatsAppAkdStorage),
    Test(TestAkdStorage),
}

impl AkdStorageImpl {
    pub fn to_string(&self) -> (text: String)
        ensures
            text@ == (match self {
                AkdStorageImpl::WhatsApp(_) => "WhatsApp AKD"@,
                AkdStorageImpl::Test(_) => "Test AKD Storage"@,
            }),
    {
        match self {
            AkdStorageImpl::WhatsApp(storage) => storage.to_string(),
            AkdStorageImpl::Test(storage) => storage.to_string(),
        }
    }
}

/// Makes directory clients.
pub struct AkdStorageFactory;

impl AkdStorageFactory {
    /// Whether a directory client exists for the configuration.
    pub open spec fn supports(configuration: AkdConfiguration) -> bool {
        configuration != AkdConfiguration::BitwardenV1Configuration
    }

    /// The directory client for a namespace, where one exists for its
    /// configuration.
    pub fn try_create_storage(namespace_info: &NamespaceInfo) -> (r: Option<AkdStorageImpl>)
        ensures
            match namespace_info.configuration {
                AkdConfiguration::WhatsAppV1Configuration => r matches Some(
                    AkdStorageImpl::WhatsApp(storage),
                ) && storage@ == crate::storage::whatsapp_akd_storage::WHATSAPP_BASE_URL@,
                AkdConfiguration::TestConfiguration => r matches Some(AkdStorageImpl::Test(_)),
                AkdConfiguration::BitwardenV1Configuration => r is None,
            },
    {
        match namespace_info.configuration {
            AkdConfiguration::WhatsAppV1Configuration => Some(
                AkdStorageImpl::WhatsApp(WhatsAppAkdStorage::new()),
            ),
            AkdConfiguration::TestConfiguration => Some(AkdStorageImpl::Test(TestAkdStorage::new())),
            AkdConfiguration::BitwardenV1Configuration => None,
        }
    }

    /// The directory client for a namespace whose configuration has one.
    pub fn create_storage(namespace_info: &NamespaceInfo) -> (storage: AkdStorageImpl)
        requires
            AkdStorageFactory::supports(namespace_info.configuration),
        ensures
            match namespace_info.configuration {
                AkdConfiguration::WhatsAppV1Configuration => storage matches AkdStorageImpl::WhatsApp(
                    client,
                ) && client@ == crate::storage::whatsapp_akd_storage::WHATSAPP_BASE_URL@,
                _ => storage is Test,
            },
    {
        match namespace_info.configuration {
            AkdConfiguration::WhatsAppV1Configuration => AkdStorageImpl::WhatsApp(
                WhatsAppAkdStorage::new(),
            ),
            _ => AkdStorageImpl::Test(TestAkdStorage::new()),
        }
    }
}

} // verus!
