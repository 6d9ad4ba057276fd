//! The configuration of the auditor, and how it is reconciled with what the
//! auditor has recorded.

use vstd::prelude::*;
use crate::akd_configurations::AkdConfiguration;
use crate::namespace_info::{NamespaceInfo, NamespaceInfoView, NamespaceStatus};
use crate::paths::{path_exists, path_is_dir};
use crate::storage::namespaces::{
    distinct_names, info_views, namespaces_by_name, FileNamespaceRepository,
    InMemoryNamespaceRepository, NamespaceRepository, NamespaceRepositoryError, NamespaceStorage,
};
use crate::storage::signatures::{
    FilesystemSignatureStorage, InMemorySignatureStorage, SignatureRepository, SignatureStorage,
};
use crate::storage::signing_keys::{
    FileSigningKeyRepository, FileVerifyingKeyRepository, SigningKeyStorage,
    VerifyingKeyStorage, KEYS_DIRECTORY, VERIFYING_KEYS_FILE,
};
use crate::versions::Epoch;

verus! {

/// Seconds that a worker sleeps between audit cycles unless told otherwise.
pub const DEFAULT_SLEEP_SECONDS: u64 = 30;

/// Seconds that a signing key lives unless told otherwise: 30 days.
pub const DEFAULT_KEY_LIFETIME_SECONDS: i64 = 60 * 60 * 24 * 30;

/// The configuration cannot be used; the payload says why.
#[derive(Debug)]
pub enum ConfigError {
    Message(String),
}

impl ConfigError {
    pub open spec fn message(self) -> Seq<char> {
        match self {
            ConfigError::Message(text) => text@,
        }
    }

    pub fn to_string(&self) -> (text: String)
        ensures
            text@ == self.message(),
    {
        match self {
            ConfigError::Message(text) => text.clone(),
        }
    }
}

impl ConfigError {
    /// Whether `r` reports what a check found: success where nothing is
    /// wrong, and else the finding as its message.
    pub open spec fn reports(r: Result<(), ConfigError>, verdict: Option<Seq<char>>) -> bool {
        match verdict {
            None => r is Ok,
            Some(message) => r matches Err(ConfigError::Message(text)) && text@ == message,
        }
    }
}

pub fn default_sleep_seconds() -> (seconds: u64)
    ensures
        seconds == DEFAULT_SLEEP_SECONDS,
{
    DEFAULT_SLEEP_SECONDS
}

pub fn default_key_lifetime_seconds() -> (seconds: i64)
    ensures
        seconds == DEFAULT_KEY_LIFETIME_SECONDS,
{
    DEFAULT_KEY_LIFETIME_SECONDS
}

/// What a check of a directory path finds, given what the file system says
/// of the path.
pub open spec fn directory_verdict(
    path: Seq<char>,
    path_name: Seq<char>,
    exists: bool,
    is_dir: bool,
) -> Option<Seq<char>> {
    if path.len() == 0 {
        Some(path_name + " cannot be empty"@)
    } else if !exists {
        Some(path_name + " does not exist: "@ + path)
    } else if !is_dir {
        Some(path_name + " is not a directory: "@ + path)
    } else {
        None
    }
}

/// Checks a directory path, given what the file system says of it: the
/// path must not be empty, and must name a directory that exists.
pub fn validate_directory_with(path: &str, path_name: &str, exists: bool, is_dir: bool) -> (r:
    Result<(), ConfigError>)
    ensures
        ConfigError::reports(r, directory_verdict(path@, path_name@, exists, is_dir)),
{
    if path.is_empty() {
        return Err(ConfigError::Message(crate::text::join(path_name, " cannot be empty")));
    }
    if !exists {
        let mut text = path_name.to_owned();
        text.append(" does not exist: ");
        text.append(path);
        return Err(ConfigError::Message(text));
    }
    if !is_dir {
        let mut text = path_name.to_owned();
        text.append(" is not a directory: ");
        text.append(path);
        return Err(ConfigError::Message(text));
    }
    Ok(())
}

/// Checks that a path names a directory that exists now.
pub fn validate_directory(path: &str, path_name: &str) -> (r: Result<(), ConfigError>)
    ensures
        path@.len() == 0 ==> (r matches Err(ConfigError::Message(text)) && text@ == path_name@
            + " cannot be empty"@),
        exists|exists: bool, is_dir: bool|
            ConfigError::reports(r, #[trigger] directory_verdict(path@, path_name@, exists, is_dir)),
{
    let exists = path_exists(path);
    let is_dir = path_is_dir(path);
    let r = validate_directory_with(path, path_name, exists, is_dir);
    assert(ConfigError::reports(r, directory_verdict(path@, path_name@, exists, is_dir)));
    r
}

/// What a check of a data directory finds, given whether it exists.
pub open spec fn data_directory_verdict(data_directory: Seq<char>, exists: bool) -> Option<
    Seq<char>,
> {
    if data_directory.len() == 0 {
        Some("Data directory cannot be empty"@)
    } else if !exists {
        Some("Data directory does not exist: "@ + data_directory)
    } else {
        None
    }
}

/// Checks a data directory, given whether it exists.
fn validate_data_directory_with(data_directory: &str, exists: bool) -> (r: Result<
    (),
    ConfigError,
>)
    ensures
        ConfigError::reports(r, data_directory_verdict(data_directory@, exists)),
{
    if data_directory.is_empty() {
        return Err(ConfigError::Message("Data directory cannot be empty".to_owned()));
    }
    if !exists {
        return Err(
            ConfigError::Message(
                crate::text::join("Data directory does not exist: ", data_directory),
            ),
        );
    }
    Ok(())
}

/// Where the state of the namespaces is kept.
#[derive(Clone, Copy, Debug, PartialEq, Eq, Structural)]
pub enum NamespaceStorageConfig {
    InMemory,
    File,
}

impl NamespaceStorageConfig {
    /// What `validate` finds, given whether the data directory exists.
    pub open spec fn verdict(self, data_directory: Seq<char>, exists: bool) -> Option<Seq<char>> {
        match self {
            NamespaceStorageConfig::InMemory => None,
            NamespaceStorageConfig::File => data_directory_verdict(data_directory, exists),
        }
    }

    /// Checks the configuration, given whether the data directory exists.
    pub fn validate_with(&self, data_directory: &str, exists: bool) -> (r: Result<(), ConfigError>)
        ensures
            ConfigError::reports(r, self.verdict(data_directory@, exists)),
    {
        match self {
            NamespaceStorageConfig::InMemory => Ok(()),
            NamespaceStorageConfig::File => validate_data_directory_with(data_directory, exists),
        }
    }

    /// Checks that the configuration is complete and usable now: storage in
    /// memory always is, storage in files needs a data directory that
    /// exists.
    pub fn validate(&self, data_directory: &str) -> (r: Result<(), ConfigError>)
        ensures
            self is InMemory ==> r is Ok,
            exists|exists: bool|
                ConfigError::reports(r, #[trigger] self.verdict(data_directory@, exists)),
    {
        let exists = path_exists(data_directory);
        let r = self.validate_with(data_directory, exists);
        assert(ConfigError::reports(r, self.verdict(data_directory@, exists)));
        r
    }
}

/// Name of the state file of the namespaces under the data directory.
pub const NAMESPACES_FILE: &'static str = "namespaces.json";

impl NamespaceStorageConfig {
    /// The state file of the namespaces under a data directory.
    pub fn state_file(data_directory: &str) -> (path: String)
        ensures
            path@ == data_directory@ + "/"@ + NAMESPACES_FILE@,
    {
        let mut path = data_directory.to_owned();
        path.append("/");
        path.append(NAMESPACES_FILE);
        path
    }

    /// The namespace repository that the configuration calls for, holding
    /// nothing yet. For storage in a file, what the state file holds is
    /// still to be read.
    pub fn build_namespace_storage(&self, data_directory: &str) -> (storage: NamespaceStorage)
        ensures
            storage.namespaces() == Map::<
                Seq<char>,
                crate::namespace_info::NamespaceInfoView,
            >::empty(),
            match self {
                NamespaceStorageConfig::File => storage matches NamespaceStorage::File(repo)
                    && repo.path() == data_directory@ + "/"@ + NAMESPACES_FILE@,
                NamespaceStorageConfig::InMemory => storage is InMemory,
            },
    {
        match self {
            NamespaceStorageConfig::File => NamespaceStorage::File(
                FileNamespaceRepository::new(NamespaceStorageConfig::state_file(data_directory)),
            ),
            NamespaceStorageConfig::InMemory => NamespaceStorage::InMemory(
                InMemoryNamespaceRepository::new(),
            ),
        }
    }
}

/// Where the signatures are kept.
#[derive(Debug)]
pub enum SignatureStorageConfig {
    InMemory,
    File,
    /// Reserved; no such storage exists yet.
    Azure { account_name: String, container_name: String, connection_string: Option<String> },
}

impl SignatureStorageConfig {
    /// What `validate` finds, given whether the data directory exists.
    pub open spec fn verdict(self, data_directory: Seq<char>, exists: bool) -> Option<Seq<char>> {
        match self {
            SignatureStorageConfig::InMemory => None,
            SignatureStorageConfig::File => data_directory_verdict(data_directory, exists),
            SignatureStorageConfig::Azure { connection_string, .. } => if connection_string
                is None {
                Some("Azure storage requires connection_string in config"@)
            } else {
                None
            },
        }
    }

    /// Checks the configuration, given whether the data directory exists.
    pub fn validate_with(&self, data_directory: &str, exists: bool) -> (r: Result<(), ConfigError>)
        ensures
            ConfigError::reports(r, self.verdict(data_directory@, exists)),
    {
        match self {
            SignatureStorageConfig::InMemory => Ok(()),
            SignatureStorageConfig::File => validate_data_directory_with(data_directory, exists),
            SignatureStorageConfig::Azure { connection_string, .. } => {
                if connection_string.is_none() {
                    Err(
                        ConfigError::Message(
                            "Azure storage requires connection_string in config".to_owned(),
                        ),
                    )
                } else {
                    Ok(())
                }
            },
        }
    }

    /// Checks that the configuration is complete and usable now.
    pub fn validate(&self, data_directory: &str) -> (r: Result<(), ConfigError>)
        ensures
            self is InMemory ==> r is Ok,
            exists|exists: bool|
                ConfigError::reports(r, #[trigger] self.verdict(data_directory@, exists)),
    {
        let exists = path_exists(data_directory);
        let r = self.validate_with(data_directory, exists);
        assert(ConfigError::reports(r, self.verdict(data_directory@, exists)));
        r
    }

    /// The directory under the data directory that holds the signatures.
    pub fn signatures_directory(data_directory: &str) -> (path: String)
        ensures
            path@ == data_directory@ + "/signatures"@,
    {
        crate::text::join(data_directory, "/signatures")
    }

    /// The directory that holds the signatures of one namespace.
    pub fn namespace_signatures_directory(data_directory: &str, namespace: &str) -> (path: String)
        ensures
            path@ == data_directory@ + "/signatures"@ + "/"@ + namespace@,
    {
        let mut path = SignatureStorageConfig::signatures_directory(data_directory);
        path.append("/");
        path.append(namespace);
        path
    }
}

impl SignatureStorageConfig {
    /// Whether `store` is the signature store that this configuration calls
    /// for, for the namespace `namespace` under the data directory.
    pub open spec fn calls_for(
        self,
        data_directory: Seq<char>,
        namespace: Seq<char>,
        store: SignatureStorage,
    ) -> bool {
        match self {
            SignatureStorageConfig::File => store matches SignatureStorage::Filesystem(files)
                && files@ == data_directory + "/signatures"@ + "/"@ + namespace,
            SignatureStorageConfig::InMemory => store matches SignatureStorage::InMemory(memory)
                && memory.signatures() == Map::<
                u64,
                crate::epoch_signature::EpochSignatureView,
            >::empty(),
            SignatureStorageConfig::Azure { .. } => false,
        }
    }

    /// A signature store for every namespace that the repository holds: a
    /// directory of its own under the signatures directory for storage in
    /// files, an empty store for storage in memory. Storage that does not
    /// exist yet is refused.
    pub fn build_signature_storage<NR: NamespaceRepository>(
        &self,
        namespace_storage: &NR,
        data_directory: &str,
    ) -> (r: Result<Vec<(String, SignatureStorage)>, ConfigError>)
        ensures
            r matches Ok(stores) ==> {
                &&& !(self is Azure)
                &&& namespaces_by_name(
                    Seq::new(
                        stores@.len(),
                        |i: int| namespace_storage.namespaces()[stores@[i].0@],
                    ),
                ) == namespace_storage.namespaces()
                &&& forall|i: int|
                    0 <= i < stores@.len() ==> namespace_storage.namespaces().contains_key(
                        (#[trigger] stores@[i]).0@,
                    ) && self.calls_for(data_directory@, stores@[i].0@, stores@[i].1)
            },
            self is Azure ==> (r matches Err(ConfigError::Message(text)) && text@
                == "Azure storage not yet implemented for signature storage"@),
            !(self is Azure) && namespace_storage.dependable() ==> r is Ok,
            r matches Err(ConfigError::Message(text)) ==> self is Azure || exists|
                e: NamespaceRepositoryError,
            | text@ == "Failed to list namespaces: "@ + #[trigger] e.message(),
    {
        if let SignatureStorageConfig::Azure { .. } = self {
            return Err(
                ConfigError::Message(
                    "Azure storage not yet implemented for signature storage".to_owned(),
                ),
            );
        }
        let listing = namespace_storage.list_namespaces();
        let ghost listed = if listing is Ok {
            info_views(listing->Ok_0@)
        } else {
            Seq::empty()
        };
        let r = self.stores_of_listing(listing, data_directory);
        proof {
            if r is Ok {
                let stores = r->Ok_0;
                let held = namespace_storage.namespaces();
                assert forall|j: int| 0 <= j < stores@.len() implies held.contains_key(
                    (#[trigger] stores@[j]).0@,
                ) && held[stores@[j].0@] == listed[j] by {
                    crate::storage::namespaces::lemma_entry_named_of_entry(listed, j);
                }
                assert(Seq::new(stores@.len(), |i: int| held[stores@[i].0@]) =~= listed);
            }
        }
        r
    }

    /// The signature stores for what a namespace repository listed, one for
    /// every namespace, in the order of the listing: a directory of its own
    /// under the signatures directory for storage in files, an empty store
    /// for storage in memory. Storage that does not exist yet is refused,
    /// and so is a listing that failed.
    pub fn stores_of_listing(
        &self,
        listing: Result<Vec<NamespaceInfo>, NamespaceRepositoryError>,
        data_directory: &str,
    ) -> (r: Result<Vec<(String, SignatureStorage)>, ConfigError>)
        ensures
            self is Azure ==> (r matches Err(ConfigError::Message(text)) && text@
                == "Azure storage not yet implemented for signature storage"@),
            !(self is Azure) ==> match listing {
                Ok(listed) => r matches Ok(stores) && stores@.len() == listed@.len() && forall|
                    i: int,
                |
                    0 <= i < stores@.len() ==> (#[trigger] stores@[i]).0@ == listed@[i]@.name
                        && self.calls_for(data_directory@, stores@[i].0@, stores@[i].1),
                Err(e) => r matches Err(ConfigError::Message(text)) && text@
                    == "Failed to list namespaces: "@ + e.message(),
            },
    {
        if let SignatureStorageConfig::Azure { .. } = self {
            return Err(
                ConfigError::Message(
                    "Azure storage not yet implemented for signature storage".to_owned(),
                ),
            );
        }
        let namespaces = match listing {
            Ok(namespaces) => namespaces,
            Err(e) => {
                return Err(
                    ConfigError::Message(
                        crate::text::join("Failed to list namespaces: ", e.to_string().as_str()),
                    ),
                );
            },
        };
        let mut stores: Vec<(String, SignatureStorage)> = Vec::new();
        let mut i: usize = 0;
        while i < namespaces.len()
            invariant
                i <= namespaces@.len(),
                !(self is Azure),
                stores@.len() == i,
                forall|j: int|
                    0 <= j < i ==> (#[trigger] stores@[j]).0@ == namespaces@[j]@.name
                        && self.calls_for(data_directory@, stores@[j].0@, stores@[j].1),
            decreases namespaces@.len() - i,
        {
            let namespace = &namespaces[i];
            let store = match self {
                SignatureStorageConfig::File => SignatureStorage::Filesystem(
                    FilesystemSignatureStorage::new(
                        SignatureStorageConfig::namespace_signatures_directory(
                            data_directory,
                            namespace.name.as_str(),
                        ),
                    ),
                ),
                _ => SignatureStorage::InMemory(InMemorySignatureStorage::new()),
            };
            stores.push((namespace.name.clone(), store));
            i = i + 1;
        }
        Ok(stores)
    }
}

/// How signing keys are made.
#[derive(Clone, Copy, Debug, PartialEq, Eq, Structural)]
pub struct SigningConfig {
    /// Lifetime of a key, in seconds.
    pub key_lifetime_seconds: i64,
}

impl SigningConfig {
    /// Checks that the directory of the signing keys exists now.
    pub fn validate(&self, data_directory: &str) -> (r: Result<(), ConfigError>)
        ensures
            exists|exists: bool, is_dir: bool|
                ConfigError::reports(r, #[trigger] directory_verdict(
                    data_directory@,
                    "Signing key directory"@,
                    exists,
                    is_dir,
                )),
    {
        validate_directory(data_directory, "Signing key directory")
    }

    /// The lifetime of a key in milliseconds, kept within what can be
    /// represented.
    pub fn key_lifetime_millis(&self) -> (millis: i64)
        ensures
            millis == (if self.key_lifetime_seconds * 1000 > i64::MAX {
                i64::MAX
            } else if self.key_lifetime_seconds * 1000 < i64::MIN {
                i64::MIN
            } else {
                (self.key_lifetime_seconds * 1000) as i64
            }),
    {
        if self.key_lifetime_seconds > i64::MAX / 1000 {
            i64::MAX
        } else if self.key_lifetime_seconds < i64::MIN / 1000 {
            i64::MIN
        } else {
            self.key_lifetime_seconds * 1000
        }
    }
}

impl SigningConfig {
    /// The signing key repository under a data directory, with a fresh
    /// current key. What the key files hold, if they exist, is still to be
    /// read.
    pub fn build_signing_key_storage(&self, data_directory: &str) -> (storage: SigningKeyStorage)
        ensures
            storage matches SigningKeyStorage::File(repo) && repo.location() == data_directory@
                + "/"@ + KEYS_DIRECTORY@ && repo.unsaved(),
    {
        SigningKeyStorage::File(
            FileSigningKeyRepository::new(data_directory, self.key_lifetime_millis()),
        )
    }
}

impl Default for SigningConfig {
    fn default() -> (config: SigningConfig)
        ensures
            config.key_lifetime_seconds == DEFAULT_KEY_LIFETIME_SECONDS,
    {
        SigningConfig { key_lifetime_seconds: DEFAULT_KEY_LIFETIME_SECONDS }
    }
}

/// What a reader of verifying keys needs to know: nothing but where they
/// are.
#[derive(Clone, Copy, Debug, PartialEq, Eq, Structural)]
pub struct VerifyingConfig {}

impl VerifyingConfig {
    /// Checks that the directory of the verifying keys exists now.
    pub fn validate(&self, data_directory: &str) -> (r: Result<(), ConfigError>)
        ensures
            exists|exists: bool, is_dir: bool|
                ConfigError::reports(r, #[trigger] directory_verdict(
                    data_directory@,
                    "Verifying key directory"@,
                    exists,
                    is_dir,
                )),
    {
        validate_directory(data_directory, "Verifying key directory")
    }
}

impl VerifyingConfig {
    /// The repository of the verifying keys under a data directory. What
    /// the file of verifying keys holds is still to be read.
    pub fn build_verifying_key_storage(&self, data_directory: &str) -> (r: Result<
        VerifyingKeyStorage,
        ConfigError,
    >)
        ensures
            r matches Ok(VerifyingKeyStorage::File(repo)) && repo.location() == data_directory@
                + "/"@ + VERIFYING_KEYS_FILE@ && repo@.len() == 0,
    {
        Ok(
            VerifyingKeyStorage::File(
                FileVerifyingKeyRepository::new(
                    FileSigningKeyRepository::verifying_key_path(data_directory),
                ),
            ),
        )
    }
}

/// The directory configurations that can be configured.
#[derive(Clone, Copy, Debug, PartialEq, Eq, Structural)]
pub enum AkdConfigurationType {
    WhatsAppV1,
    BitwardenV1,
}

impl AkdConfigurationType {
    pub open spec fn configuration(self) -> AkdConfiguration {
        match self {
            AkdConfigurationType::WhatsAppV1 => AkdConfiguration::WhatsAppV1Configuration,
            AkdConfigurationType::BitwardenV1 => AkdConfiguration::BitwardenV1Configuration,
        }
    }
}

/// The statuses that can be configured.
#[derive(Clone, Copy, Debug, PartialEq, Eq, Structural)]
pub enum ConfigNamespaceStatus {
    Online,
    Disabled,
}

impl ConfigNamespaceStatus {
    pub open spec fn status(self) -> NamespaceStatus {
        match self {
            ConfigNamespaceStatus::Online => NamespaceStatus::Online,
            ConfigNamespaceStatus::Disabled => NamespaceStatus::Disabled,
        }
    }
}

/// The status of a namespace after the configuration has been read, and
/// whether that changes what is recorded. A new namespace takes the
/// configured status, which counts as no change. A failure status stays,
/// whatever is configured. Any other status gives way to the configured
/// one.
pub open spec fn reconciled_status(
    config_status: ConfigNamespaceStatus,
    existing_status: Option<NamespaceStatus>,
) -> (NamespaceStatus, bool) {
    match existing_status {
        None => (config_status.status(), false),
        Some(current) => if current.sticky() {
            (current, false)
        } else {
            (config_status.status(), current != config_status.status())
        },
    }
}

/// The last verified epoch of a namespace after the configuration has been
/// read, and whether it changes what is recorded. A last verified epoch
/// before the configured starting epoch is dropped.
pub open spec fn reconciled_last_verified_epoch(
    config_starting_epoch: u64,
    existing_last_verified_epoch: Option<Epoch>,
) -> (Option<Epoch>, bool) {
    match existing_last_verified_epoch {
        Some(epoch) => if epoch@ >= config_starting_epoch {
            (Some(epoch), false)
        } else {
            (None, true)
        },
        None => (None, false),
    }
}

/// The mathematical value of a `NamespaceConfig`.
pub struct NamespaceConfigView {
    pub name: Seq<char>,
    pub configuration_type: AkdConfigurationType,
    pub log_directory: Seq<char>,
    pub starting_epoch: u64,
    pub status: ConfigNamespaceStatus,
}

impl NamespaceConfigView {
    /// The namespace that the configuration describes, given what is
    /// recorded of it, and whether the record has to be brought up to date.
    pub open spec fn reconciled(self, existing: Option<NamespaceInfoView>) -> (
        NamespaceInfoView,
        bool,
    ) {
        let existing_status = match existing {
            Some(info) => Some(info.status),
            None => None,
        };
        let existing_last = match existing {
            Some(info) => info.last_verified_epoch,
            None => None,
        };
        let (status, status_changed) = reconciled_status(self.status, existing_status);
        let (last_verified_epoch, last_changed) = reconciled_last_verified_epoch(
            self.starting_epoch,
            existing_last,
        );
        (
            NamespaceInfoView {
                configuration: self.configuration_type.configuration(),
                name: self.name,
                log_directory: self.log_directory,
                last_verified_epoch: last_verified_epoch,
                starting_epoch: Epoch(self.starting_epoch),
                status: status,
            },
            status_changed || last_changed,
        )
    }
}

/// One namespace as it is configured.
#[derive(Debug)]
pub struct NamespaceConfig {
    pub name: String,
    pub configuration_type: AkdConfigurationType,
    /// Where the directory publishes its proofs.
    pub log_directory: String,
    /// The first epoch that is audited.
    pub starting_epoch: u64,
    pub status: ConfigNamespaceStatus,
}

impl View for NamespaceConfig {
    type V = NamespaceConfigView;

    open spec fn view(&self) -> NamespaceConfigView {
        NamespaceConfigView {
            name: self.name@,
            configuration_type: self.configuration_type,
            log_directory: self.log_directory@,
            starting_epoch: self.starting_epoch,
            status: self.status,
        }
    }
}

impl Clone for NamespaceConfig {
    fn clone(&self) -> (copy: NamespaceConfig)
        ensures
            copy@ == self@,
    {
        NamespaceConfig {
            name: self.name.clone(),
            configuration_type: self.configuration_type,
            log_directory: self.log_directory.clone(),
            starting_epoch: self.starting_epoch,
            status: self.status,
        }
    }
}

impl NamespaceConfig {
    /// The namespace that the configuration describes, given what is
    /// recorded of it, and whether the record has to be brought up to date.
    /// A namespace that is new is no change.
    pub fn to_namespace_info(&self, existing_namespace_info: Option<&NamespaceInfo>) -> (r: Result<
        (NamespaceInfo, bool),
        ConfigError,
    >)
        ensures
            r matches Ok((info, changed)) && (info@, changed) == self@.reconciled(
                match existing_namespace_info {
                    Some(existing) => Some(existing@),
                    None => None,
                },
            ),
    {
        let configuration = match self.configuration_type {
            AkdConfigurationType::WhatsAppV1 => AkdConfiguration::WhatsAppV1Configuration,
            AkdConfigurationType::BitwardenV1 => AkdConfiguration::BitwardenV1Configuration,
        };
        let existing_status = match existing_namespace_info {
            Some(info) => Some(&info.status),
            None => None,
        };
        let (status, status_changed) = NamespaceConfig::resolve_status_transition(
            &self.status,
            existing_status,
        );
        let existing_last_verified_epoch = match existing_namespace_info {
            Some(info) => info.last_verified_epoch,
            None => None,
        };
        let (last_verified_epoch, last_verified_epoch_changed) =
            NamespaceConfig::resolve_last_verified_epoch(
            self.starting_epoch,
            existing_last_verified_epoch,
        );
        let namespace_info = NamespaceInfo {
            configuration,
            name: self.name.clone(),
            log_directory: self.log_directory.clone(),
            last_verified_epoch,
            starting_epoch: Epoch(self.starting_epoch),
            status,
        };
        Ok((namespace_info, status_changed || last_verified_epoch_changed))
    }

    /// The status after the configuration has been read, and whether it
    /// changes what is recorded.
    pub fn resolve_status_transition(
        config_status: &ConfigNamespaceStatus,
        existing_status: Option<&NamespaceStatus>,
    ) -> (r: (NamespaceStatus, bool))
        ensures
            r == reconciled_status(
                *config_status,
                match existing_status {
                    Some(status) => Some(*status),
                    None => None,
                },
            ),
    {
        let desired_status = match config_status {
            ConfigNamespaceStatus::Online => NamespaceStatus::Online,
            ConfigNamespaceStatus::Disabled => NamespaceStatus::Disabled,
        };
        match existing_status {
            None => (desired_status, false),
            Some(current_status) => {
                if current_status.is_sticky() {
                    (*current_status, false)
                } else {
                    let changed = *current_status != desired_status;
                    (desired_status, changed)
                }
            },
        }
    }

    /// The last verified epoch after the configuration has been read, and
    /// whether it changes what is recorded.
    pub fn resolve_last_verified_epoch(
        config_starting_epoch: u64,
        existing_last_verified_epoch: Option<Epoch>,
    ) -> (r: (Option<Epoch>, bool))
        ensures
            r == reconciled_last_verified_epoch(
                config_starting_epoch,
                existing_last_verified_epoch,
            ),
    {
        match existing_last_verified_epoch {
            Some(epoch) => {
                if epoch.0 >= config_starting_epoch {
                    (Some(epoch), false)
                } else {
                    (None, true)
                }
            },
            None => (None, false),
        }
    }
}

/// A failure status that is recorded stays, whatever is configured, and is
/// no change.
pub proof fn lemma_failure_status_is_kept(
    config: NamespaceConfigView,
    existing: NamespaceInfoView,
)
    requires
        existing.status.sticky(),
    ensures
        config.reconciled(Some(existing)).0.status == existing.status,
        reconciled_status(config.status, Some(existing.status)) == (existing.status, false),
{
}

/// A last verified epoch before the configured starting epoch is dropped,
/// which is a change; and what a reconciliation yields always has its last
/// verified epoch, if any, at or after its starting epoch.
pub proof fn lemma_stale_epoch_is_dropped(
    config: NamespaceConfigView,
    existing: Option<NamespaceInfoView>,
)
    ensures
        config.reconciled(existing).0.well_formed(),
        (existing matches Some(info) && info.last_verified_epoch matches Some(last) && last@
            < config.starting_epoch) ==> config.reconciled(existing).0.last_verified_epoch is None
            && config.reconciled(existing).1,
        existing is None ==> !config.reconciled(existing).1,
{
}

/// The configuration of the auditor.
#[derive(Debug)]
pub struct AuditorConfig {
    /// Seconds to sleep between audit cycles.
    pub sleep_seconds: u64,
    pub namespaces: Vec<NamespaceConfig>,
    pub namespace_storage: NamespaceStorageConfig,
    pub signing: SigningConfig,
    pub signature_storage: SignatureStorageConfig,
}

impl AuditorConfig {
    /// What `validate` finds, given what the file system says of the data
    /// directory: the first finding of the namespace storage, the signature
    /// storage and the signing configuration, in this order.
    pub open spec fn verdict(self, data_directory: Seq<char>, exists: bool, is_dir: bool) -> Option<
        Seq<char>,
    > {
        if self.namespace_storage.verdict(data_directory, exists) is Some {
            self.namespace_storage.verdict(data_directory, exists)
        } else if self.signature_storage.verdict(data_directory, exists) is Some {
            self.signature_storage.verdict(data_directory, exists)
        } else {
            directory_verdict(data_directory, "Signing key directory"@, exists, is_dir)
        }
    }

    /// Checks the storage and signing configuration, given what the file
    /// system says of the data directory.
    pub fn validate_with(&self, data_directory: &str, exists: bool, is_dir: bool) -> (r: Result<
        (),
        ConfigError,
    >)
        ensures
            ConfigError::reports(r, self.verdict(data_directory@, exists, is_dir)),
    {
        match self.namespace_storage.validate_with(data_directory, exists) {
            Ok(()) => {},
            Err(e) => {
                return Err(e);
            },
        }
        match self.signature_storage.validate_with(data_directory, exists) {
            Ok(()) => {},
            Err(e) => {
                return Err(e);
            },
        }
        validate_directory_with(data_directory, "Signing key directory", exists, is_dir)
    }

    /// Checks the storage and signing configuration against the data
    /// directory as it is now.
    pub fn validate(&self, data_directory: &str) -> (r: Result<(), ConfigError>)
        ensures
            exists|exists: bool, is_dir: bool|
                ConfigError::reports(r, #[trigger] self.verdict(data_directory@, exists, is_dir)),
    {
        let exists = path_exists(data_directory);
        let is_dir = path_is_dir(data_directory);
        let r = self.validate_with(data_directory, exists, is_dir);
        assert(ConfigError::reports(r, self.verdict(data_directory@, exists, is_dir)));
        r
    }

    /// The time to sleep between audit cycles, in milliseconds, kept within
    /// what can be represented.
    pub fn sleep_duration(&self) -> (millis: u64)
        ensures
            millis == (if self.sleep_seconds * 1000 > u64::MAX {
                u64::MAX
            } else {
                (self.sleep_seconds * 1000) as u64
            }),
    {
        if self.sleep_seconds > u64::MAX / 1000 {
            u64::MAX
        } else {
            self.sleep_seconds * 1000
        }
    }
}

} // verus!
