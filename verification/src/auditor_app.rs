//! What the auditor sets up before it starts its workers: the record of
//! every configured namespace, and a signature store for each of them.

use vstd::prelude::*;
use crate::config::{
    AuditorConfig, ConfigError, NamespaceConfig, NamespaceConfigView, SignatureStorageConfig,
};
use crate::namespace_info::{NamespaceInfo, NamespaceInfoView};
use crate::storage::namespaces::{
    distinct_names, entry_named, info_views, lemma_entry_named_absent,
    lemma_entry_named_of_entry, namespaces_by_name, NamespaceRepository, NamespaceRepositoryError,
};
use crate::storage::signatures::{
    FilesystemSignatureStorage, InMemorySignatureStorage, SignatureRepository, SignatureStorage,
};

verus! {

/// Why the record of the configured namespaces could not be set up.
#[derive(Debug)]
pub enum PopulateError {
    /// The configuration of the named namespace cannot be used.
    Configuration { name: String, reason: ConfigError },
    /// The named namespace could not be added.
    AddFailed { name: String, error: NamespaceRepositoryError },
    /// The named namespace could not be brought up to date.
    UpdateFailed { name: String, error: NamespaceRepositoryError },
}

impl PopulateError {
    pub open spec fn message(self) -> Seq<char> {
        match self {
            PopulateError::Configuration { name, reason } =>
                "Configuration error for namespace "@ + name@ + ": "@ + reason.message(),
            PopulateError::AddFailed { name, error } => "Failed to add namespace "@ + name@
                + ": "@ + error.message(),
            PopulateError::UpdateFailed { name, error } => "Failed to update namespace "@ + name@
                + ": "@ + error.message(),
        }
    }

    pub fn to_string(&self) -> (text: String)
        ensures
            text@ == self.message(),
    {
        match self {
            PopulateError::Configuration { name, reason } => {
                let mut text = "Configuration error for namespace ".to_owned();
                text.append(name.as_str());
                text.append(": ");
                text.append(reason.to_string().as_str());
                text
            },
            PopulateError::AddFailed { name, error } => {
                let mut text = "Failed to add namespace ".to_owned();
                text.append(name.as_str());
                text.append(": ");
                text.append(error.to_string().as_str());
                text
            },
            PopulateError::UpdateFailed { name, error } => {
                let mut text = "Failed to update namespace ".to_owned();
                text.append(name.as_str());
                text.append(": ");
                text.append(error.to_string().as_str());
                text
            },
        }
    }
}

/// What is recorded under a name, if anything.
pub open spec fn recorded(
    namespaces: Map<Seq<char>, NamespaceInfoView>,
    name: Seq<char>,
) -> Option<NamespaceInfoView> {
    if namespaces.contains_key(name) {
        Some(namespaces[name])
    } else {
        None
    }
}

/// The record after the first `upto` configured namespaces have been
/// reconciled with what was recorded at the start: a namespace that was not
/// recorded is added, one whose record has to change is replaced, and any
/// other is left alone.
pub open spec fn populated(
    initial: Map<Seq<char>, NamespaceInfoView>,
    configs: Seq<NamespaceConfigView>,
    upto: nat,
) -> Map<Seq<char>, NamespaceInfoView>
    decreases upto,
{
    if upto == 0 {
        initial
    } else {
        let before = populated(initial, configs, (upto - 1) as nat);
        let config = configs[upto - 1];
        let existing = recorded(initial, config.name);
        let (info, changed) = config.reconciled(existing);
        if existing is None || changed {
            before.insert(config.name, info)
        } else {
            before
        }
    }
}

/// Whether no two of the configured namespaces share a name.
pub open spec fn distinct_configured_names(configs: Seq<NamespaceConfigView>) -> bool {
    forall|i: int, j: int| 0 <= i < j < configs.len() ==> configs[i].name != configs[j].name
}

/// A name that is recorded after the first `upto` configured namespaces
/// have been reconciled was recorded at the start or is the name of one of
/// them.
pub proof fn lemma_populated_names(
    initial: Map<Seq<char>, NamespaceInfoView>,
    configs: Seq<NamespaceConfigView>,
    upto: nat,
    name: Seq<char>,
)
    requires
        upto <= configs.len(),
        populated(initial, configs, upto).contains_key(name),
    ensures
        initial.contains_key(name) || exists|j: int| 0 <= j < upto && configs[j].name == name,
    decreases upto,
{
    if upto > 0 {
        let config = configs[upto - 1];
        if config.name != name {
            lemma_populated_names(initial, configs, (upto - 1) as nat, name);
        }
    }
}

/// The values of a list of configured namespaces.
pub open spec fn config_views(configs: Seq<NamespaceConfig>) -> Seq<NamespaceConfigView> {
    configs.map_values(|config: NamespaceConfig| config@)
}

/// The position in a list of namespaces, none of which shares its name
/// with another, of the namespace of the given name.
fn find_named(listed: &Vec<NamespaceInfo>, name: &str) -> (r: Option<usize>)
    requires
        distinct_names(info_views(listed@)),
    ensures
        match r {
            Some(i) => i < listed@.len() && entry_named(info_views(listed@), name@) == Some(
                listed@[i as int]@,
            ),
            None => entry_named(info_views(listed@), name@) is None,
        },
{
    let ghost views = info_views(listed@);
    let mut i: usize = 0;
    while i < listed.len()
        invariant
            i <= listed@.len(),
            views == info_views(listed@),
            distinct_names(views),
            forall|j: int| 0 <= j < i ==> (#[trigger] views[j]).name != name@,
        decreases listed@.len() - i,
    {
        assert(views[i as int] == listed@[i as int]@);
        if crate::text::same_text(listed[i].name.as_str(), name) {
            proof {
                lemma_entry_named_of_entry(views, i as int);
            }
            return Some(i);
        }
        i = i + 1;
    }
    proof {
        lemma_entry_named_absent(views, name@);
    }
    None
}

/// Brings the record of the namespaces up to date with the configuration:
/// every configured namespace is reconciled with what was recorded of it
/// when the call began. On success the record is `populated` from what it
/// was.
pub fn populate_namespace_repository<T: NamespaceRepository>(
    namespace_repository: &mut T,
    namespaces: &Vec<NamespaceConfig>,
) -> (r: Result<(), PopulateError>)
    ensures
        r is Ok ==> final(namespace_repository).namespaces() == populated(
            old(namespace_repository).namespaces(),
            config_views(namespaces@),
            namespaces@.len(),
        ),
        r is Err ==> exists|upto: nat|
            upto < namespaces@.len() && final(namespace_repository).namespaces() == #[trigger] populated(
                old(namespace_repository).namespaces(),
                config_views(namespaces@),
                upto,
            ),
        r matches Err(e) ==> !(e is Configuration),
        final(namespace_repository).dependable() == old(namespace_repository).dependable(),
        old(namespace_repository).dependable() ==> (r matches Err(e) ==> (e
            matches PopulateError::AddFailed { error, .. } && error is NamespaceAlreadyExists)),
        old(namespace_repository).dependable() && distinct_configured_names(
            config_views(namespaces@),
        ) ==> r is Ok,
{
    let ghost initial = namespace_repository.namespaces();
    let ghost configs = config_views(namespaces@);
    let (existing_namespaces, listed) = match namespace_repository.list_namespaces() {
        Ok(listed) => (listed, true),
        Err(_) => (Vec::new(), false),
    };
    let mut i: usize = 0;
    while i < namespaces.len()
        invariant
            i <= namespaces@.len(),
            configs == config_views(namespaces@),
            initial == old(namespace_repository).namespaces(),
            namespace_repository.dependable() == old(namespace_repository).dependable(),
            old(namespace_repository).dependable() ==> listed,
            distinct_names(info_views(existing_namespaces@)),
            listed ==> namespaces_by_name(info_views(existing_namespaces@)) == initial,
            !listed ==> existing_namespaces@.len() == 0,
            !listed ==> forall|j: int| 0 <= j < i ==> !initial.contains_key(
                (#[trigger] configs[j]).name,
            ),
            initial.dom().subset_of(namespace_repository.namespaces().dom()),
            namespace_repository.namespaces() == populated(initial, configs, i as nat),
        decreases namespaces@.len() - i,
    {
        let ns_config = &namespaces[i];
        assert(configs[i as int] == ns_config@);
        let found = find_named(&existing_namespaces, ns_config.name.as_str());
        let existing_info = match found {
            Some(at) => Some(&existing_namespaces[at]),
            None => None,
        };
        let (namespace_info, changed) = match ns_config.to_namespace_info(existing_info) {
            Ok(reconciled) => reconciled,
            Err(e) => {
                assert(namespace_repository.namespaces() == populated(initial, configs, i as nat));
                return Err(PopulateError::Configuration { name: ns_config.name.clone(), reason: e });
            },
        };
        let ghost before = namespace_repository.namespaces();
        if existing_info.is_none() {
            match namespace_repository.add_namespace(namespace_info) {
                Ok(()) => {},
                Err(e) => {
                    assert(namespace_repository.namespaces() == populated(
                        initial,
                        configs,
                        i as nat,
                    ));
                    proof {
                        if old(namespace_repository).dependable() && distinct_configured_names(
                            configs,
                        ) {
                            assert(before.contains_key(ns_config@.name));
                            assert(!initial.contains_key(ns_config@.name));
                            lemma_populated_names(initial, configs, i as nat, ns_config@.name);
                            let j = choose|j: int| 0 <= j < i && configs[j].name == ns_config@.name;
                            assert(configs[j].name != configs[i as int].name);
                        }
                    }
                    return Err(PopulateError::AddFailed { name: ns_config.name.clone(), error: e });
                },
            }
            assert(!before.contains_key(ns_config@.name));
            assert(!initial.contains_key(ns_config@.name));
        } else if changed {
            match namespace_repository.update_namespace(namespace_info) {
                Ok(()) => {},
                Err(e) => {
                    assert(namespace_repository.namespaces() == populated(
                        initial,
                        configs,
                        i as nat,
                    ));
                    return Err(
                        PopulateError::UpdateFailed { name: ns_config.name.clone(), error: e },
                    );
                },
            }
        }
        i = i + 1;
    }
    Ok(())
}

/// The signature store that the configuration calls for, for one
/// namespace.
pub open spec fn configured_store(
    config: SignatureStorageConfig,
    directory: Seq<char>,
    namespace: Seq<char>,
    store: SignatureStorage,
) -> bool {
    match config {
        SignatureStorageConfig::File => store matches SignatureStorage::Filesystem(files)
            && files@ == directory + "/"@ + namespace,
        SignatureStorageConfig::InMemory => store matches SignatureStorage::InMemory(memory)
            && memory.signatures() == Map::<
            u64,
            crate::epoch_signature::EpochSignatureView,
        >::empty(),
        SignatureStorageConfig::Azure { .. } => false,
    }
}

/// A signature store for every configured namespace, in the order of the
/// configuration: a directory of its own under `directory` for storage in
/// files, an empty store for storage in memory. Storage that does not exist
/// yet is refused.
pub fn init_signature_storage(config: &AuditorConfig, directory: &str) -> (r: Result<
    Vec<(String, SignatureStorage)>,
    ConfigError,
>)
    ensures
        config.signature_storage is Azure ==> (r matches Err(ConfigError::Message(text)) && text@
            == "Azure storage not yet implemented for signature storage"@),
        !(config.signature_storage is Azure) ==> (r matches Ok(stores) && stores@.len()
            == config.namespaces@.len() && forall|i: int|
            0 <= i < stores@.len() ==> (#[trigger] stores@[i]).0@ == config.namespaces@[i]@.name
                && configured_store(
                config.signature_storage,
                directory@,
                config.namespaces@[i]@.name,
                stores@[i].1,
            )),
{
    let mut stores: Vec<(String, SignatureStorage)> = Vec::new();
    if let SignatureStorageConfig::Azure { .. } = &config.signature_storage {
        return Err(
            ConfigError::Message(
                "Azure storage not yet implemented for signature storage".to_owned(),
            ),
        );
    }
    let mut i: usize = 0;
    while i < config.namespaces.len()
        invariant
            i <= config.namespaces@.len(),
            !(config.signature_storage is Azure),
            stores@.len() == i,
            forall|j: int|
                0 <= j < i ==> (#[trigger] stores@[j]).0@ == config.namespaces@[j]@.name
                    && configured_store(
                    config.signature_storage,
                    directory@,
                    config.namespaces@[j]@.name,
                    stores@[j].1,
                ),
        decreases config.namespaces@.len() - i,
    {
        let ns_config = &config.namespaces[i];
        let store = match &config.signature_storage {
            SignatureStorageConfig::File => {
                let mut ns_directory = directory.to_owned();
                ns_directory.append("/");
                ns_directory.append(ns_config.name.as_str());
                SignatureStorage::Filesystem(FilesystemSignatureStorage::new(ns_directory))
            },
            _ => SignatureStorage::InMemory(InMemorySignatureStorage::new()),
        };
        stores.push((ns_config.name.clone(), store));
        i = i + 1;
    }
    Ok(stores)
}

} // verus!
