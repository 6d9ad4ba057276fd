//! What the read-only interface answers: it looks things up in the stores
//! and says what it found.

use vstd::prelude::*;
use crate::crypto::{key_id_string, key_id_text, VerifyingKey, VerifyingKeyView};
use crate::epoch_signature::{timestamp_bits, EpochSignature, EpochSignatureView};
use crate::namespace_info::NamespaceInfo;
use crate::storage::namespaces::{distinct_names, info_views, namespaces_by_name, NamespaceRepository};
use crate::storage::signatures::SignatureRepository;
use crate::storage::signing_keys::{
    keys_by_id, verifying_views, VerifyingKeyRepository, VerifyingKeyRepositoryError,
};
use crate::text::{hex, hex_string, parse_u64, parsed_u64};
use crate::versions::{Ciphersuite, Epoch, AUDIT_VERSION_ONE};

verus! {

/// Status code of an answer that found nothing.
pub const STATUS_NOT_FOUND: u16 = 404;

/// Status code of an answer to a request that makes no sense.
pub const STATUS_BAD_REQUEST: u16 = 400;

/// Status code of an answer that failed for no fault of the request.
pub const STATUS_INTERNAL_SERVER_ERROR: u16 = 500;

/// Why a request was not answered.
#[derive(Debug)]
pub enum ApiError {
    NotFound,
    BadRequest(String),
    Internal,
}

impl ApiError {
    pub open spec fn message(self) -> Seq<char> {
        match self {
            ApiError::NotFound => "Not found"@,
            ApiError::BadRequest(e) => "Bad request: "@ + e@,
            ApiError::Internal => "Internal server error"@,
        }
    }

    pub fn to_string(&self) -> (text: String)
        ensures
            text@ == self.message(),
    {
        match self {
            ApiError::NotFound => "Not found".to_owned(),
            ApiError::BadRequest(e) => crate::text::join("Bad request: ", e.as_str()),
            ApiError::Internal => "Internal server error".to_owned(),
        }
    }

    /// The status code and the body of the answer that reports the error.
    pub fn into_response(self) -> (r: (u16, String))
        ensures
            r.0 == (match self {
                ApiError::NotFound => STATUS_NOT_FOUND,
                ApiError::BadRequest(_) => STATUS_BAD_REQUEST,
                ApiError::Internal => STATUS_INTERNAL_SERVER_ERROR,
            }),
            r.1@ == (match self {
                ApiError::BadRequest(e) => e@,
                other => other.message(),
            }),
    {
        match self {
            ApiError::NotFound => (STATUS_NOT_FOUND, "Not found".to_owned()),
            ApiError::BadRequest(e) => (STATUS_BAD_REQUEST, e),
            ApiError::Internal => (STATUS_INTERNAL_SERVER_ERROR, "Internal server error".to_owned()),
        }
    }
}

impl EpochSignature {
    /// The number of the envelope's version.
    pub fn version_int(&self) -> (version: u32)
        ensures
            version == AUDIT_VERSION_ONE,
    {
        match self {
            EpochSignature::V1(_) => AUDIT_VERSION_ONE,
        }
    }
}

/// A signature as the interface shows it: the binary parts in hexadecimal,
/// the key identifier as text.
#[derive(Debug)]
pub struct SignatureResponse {
    pub version: u32,
    pub ciphersuite: Ciphersuite,
    pub namespace: String,
    pub timestamp: u64,
    pub epoch: Epoch,
    pub digest: String,
    pub signature: String,
    pub key_id: String,
}

impl SignatureResponse {
    /// Whether this is how the interface shows `signature`.
    pub open spec fn shows(self, signature: EpochSignatureView) -> bool {
        &&& self.version == AUDIT_VERSION_ONE
        &&& self.ciphersuite == signature.ciphersuite
        &&& self.namespace@ == signature.namespace
        &&& self.timestamp == timestamp_bits(signature.timestamp)
        &&& self.epoch@ == signature.epoch
        &&& self.digest@ == hex(signature.digest)
        &&& self.signature@ == hex(signature.signature)
        &&& self.key_id@ == key_id_text(signature.key_id)
    }

    pub fn from(signature: EpochSignature) -> (response: SignatureResponse)
        ensures
            response.shows(signature@),
    {
        let version = signature.version_int();
        match signature {
            EpochSignature::V1(sig) => SignatureResponse {
                version,
                ciphersuite: sig.ciphersuite,
                namespace: sig.namespace,
                timestamp: if sig.timestamp >= 0 {
                    sig.timestamp as u64
                } else {
                    u64::MAX - ((-(sig.timestamp + 1)) as u64)
                },
                epoch: sig.epoch,
                digest: hex_string(sig.digest.as_slice()),
                signature: hex_string(sig.signature.as_slice()),
                key_id: key_id_string(sig.key_id),
            },
        }
    }
}

/// A verifying key as the interface shows it.
#[derive(Clone, Debug, PartialEq, Eq, PartialOrd, Ord)]
pub struct KeyInfo {
    pub public_key: String,
    pub key_id: String,
    /// The second from which the key signs.
    pub not_before: u64,
}

impl KeyInfo {
    /// Whether this is how the interface shows `key`.
    pub open spec fn shows(self, key: VerifyingKeyView) -> bool {
        &&& self.public_key@ == hex(key.verifying_key)
        &&& self.key_id@ == key_id_text(key.key_id)
        &&& self.not_before == timestamp_bits((key.not_before as int / 1000) as i64)
    }

    pub fn from(key: &VerifyingKey) -> (info: KeyInfo)
        ensures
            info.shows(key@),
    {
        let not_before: u64 = if key.not_before >= 0 {
            (key.not_before as u64) / 1000
        } else {
            let below = ((-(key.not_before + 1)) as u64) / 1000;
            u64::MAX - below
        };
        KeyInfo {
            public_key: hex_string(key.verifying_key.as_slice()),
            key_id: key_id_string(key.key_id),
            not_before,
        }
    }
}

/// What the interface tells about the auditor itself.
#[derive(Debug)]
pub struct ServerConfiguration {
    pub keys: Vec<KeyInfo>,
}

/// The position of the entry of a namespace in a list of stores.
fn store_position<S>(stores: &Vec<(String, S)>, namespace: &str) -> (r: Option<usize>)
    ensures
        match r {
            Some(i) => i < stores@.len() && stores@[i as int].0@ == namespace@ && forall|j: int|
                0 <= j < i ==> (#[trigger] stores@[j]).0@ != namespace@,
            None => forall|j: int| 0 <= j < stores@.len() ==> (#[trigger] stores@[j]).0@
                != namespace@,
        },
{
    let mut i: usize = 0;
    while i < stores.len()
        invariant
            i <= stores@.len(),
            forall|j: int| 0 <= j < i ==> (#[trigger] stores@[j]).0@ != namespace@,
        decreases stores@.len() - i,
    {
        if crate::text::same_text(stores[i].0.as_str(), namespace) {
            return Some(i);
        }
        i = i + 1;
    }
    None
}

/// Answers the question for the signature of an epoch of a namespace. An
/// epoch that is no number and a namespace that has no store are bad
/// requests; a store that fails is an internal error; a signature that is
/// not there is no error.
pub fn audit_query_handler<S: SignatureRepository>(
    signature_storage: &Vec<(String, S)>,
    namespace: &str,
    epoch: &str,
) -> (r: Result<Option<SignatureResponse>, ApiError>)
    ensures
        parsed_u64(epoch@) is None ==> (r matches Err(ApiError::BadRequest(message)) && message@
            == "epoch is not an integer"@),
        parsed_u64(epoch@) is Some && (forall|j: int|
            0 <= j < signature_storage@.len() ==> (#[trigger] signature_storage@[j]).0@
                != namespace@) ==> (r matches Err(ApiError::BadRequest(message)) && message@
            == "namespace "@ + namespace@ + " not found"@),
        r matches Ok(found) ==> parsed_u64(epoch@) is Some && exists|i: int|
            0 <= i < signature_storage@.len() && (#[trigger] signature_storage@[i]).0@
                == namespace@ && (match found {
                Some(response) => signature_storage@[i].1.signatures().contains_key(
                    parsed_u64(epoch@)->0,
                ) && response.shows(
                    signature_storage@[i].1.signatures()[parsed_u64(epoch@)->0],
                ),
                None => !signature_storage@[i].1.signatures().contains_key(
                    parsed_u64(epoch@)->0,
                ),
            }),
        r matches Err(e) ==> !(e is NotFound),
        (forall|j: int|
            0 <= j < signature_storage@.len() ==> (#[trigger] signature_storage@[j]).1.dependable())
            ==> !(r matches Err(ApiError::Internal)),
{
    let epoch: u64 = match parse_u64(epoch) {
        Some(epoch) => epoch,
        None => {
            return Err(ApiError::BadRequest("epoch is not an integer".to_owned()));
        },
    };
    let at = match store_position(signature_storage, namespace) {
        Some(at) => at,
        None => {
            let mut message = "namespace ".to_owned();
            message.append(namespace);
            message.append(" not found");
            return Err(ApiError::BadRequest(message));
        },
    };
    match signature_storage[at].1.get_signature(&epoch) {
        Ok(Some(signature)) => Ok(Some(SignatureResponse::from(signature))),
        Ok(None) => Ok(None),
        Err(_) => Err(ApiError::Internal),
    }
}

/// Answers the question for a namespace: what is recorded of it, if
/// anything.
pub fn namespace_query_handler<NR: NamespaceRepository>(namespace_storage: &NR, namespace: &str) -> (r:
    Result<Option<NamespaceInfo>, ApiError>)
    ensures
        match r {
            Ok(Some(info)) => namespace_storage.namespaces().contains_key(namespace@)
                && namespace_storage.namespaces()[namespace@] == info@,
            Ok(None) => !namespace_storage.namespaces().contains_key(namespace@),
            Err(e) => e is Internal && !namespace_storage.dependable(),
        },
{
    match namespace_storage.get_namespace_info(namespace) {
        Ok(info) => Ok(info),
        Err(_) => Err(ApiError::Internal),
    }
}

/// Answers the question for all namespaces.
pub fn list_namespaces_handler<NR: NamespaceRepository>(namespace_storage: &NR) -> (r: Result<
    Vec<NamespaceInfo>,
    ApiError,
>)
    ensures
        match r {
            Ok(listed) => distinct_names(info_views(listed@)) && namespaces_by_name(
                info_views(listed@),
            ) == namespace_storage.namespaces(),
            Err(e) => e is Internal && !namespace_storage.dependable(),
        },
{
    match namespace_storage.list_namespaces() {
        Ok(namespaces) => Ok(namespaces),
        Err(_) => Err(ApiError::Internal),
    }
}

/// Answers the question for the auditor's keys. A repository that fails
/// shows no keys.
pub fn info_handler<V: VerifyingKeyRepository>(verifying_key_storage: &V) -> (configuration:
    ServerConfiguration)
    ensures
        (configuration.keys@.len() == 0 && !verifying_key_storage.dependable()) || exists|
            listed: Seq<VerifyingKey>,
        |
            {
                &&& keys_by_id(verifying_views(listed)) == verifying_key_storage.keys()
                &&& listed.len() == configuration.keys@.len()
                &&& forall|i: int|
                    0 <= i < listed.len() ==> (#[trigger] configuration.keys@[i]).shows(listed[i]@)
            },
{
    let listing = verifying_key_storage.list_keys();
    let ghost listed = if listing is Ok {
        listing->Ok_0@
    } else {
        Seq::empty()
    };
    let configuration = ServerConfiguration::of_listing(listing);
    proof {
        if configuration.keys@.len() != 0 || verifying_key_storage.dependable() {
            assert(keys_by_id(verifying_views(listed)) == verifying_key_storage.keys());
            assert(listed.len() == configuration.keys@.len());
        }
    }
    configuration
}

impl ServerConfiguration {
    /// What the interface tells of the keys, given what came of asking the
    /// repository for them: every key that was listed, in order, and no
    /// key where the repository failed.
    pub fn of_listing(listing: Result<Vec<VerifyingKey>, VerifyingKeyRepositoryError>) -> (
    configuration: ServerConfiguration)
        ensures
            match listing {
                Ok(listed) => configuration.keys@.len() == listed@.len() && forall|i: int|
                    0 <= i < listed@.len() ==> (#[trigger] configuration.keys@[i]).shows(
                        listed@[i]@,
                    ),
                Err(_) => configuration.keys@.len() == 0,
            },
    {
        let listed = match listing {
            Ok(listed) => listed,
            Err(_) => {
                return ServerConfiguration { keys: Vec::new() };
            },
        };
        let mut keys: Vec<KeyInfo> = Vec::new();
        let mut i: usize = 0;
        while i < listed.len()
            invariant
                i <= listed@.len(),
                keys@.len() == i,
                forall|j: int| 0 <= j < i ==> (#[trigger] keys@[j]).shows(listed@[j]@),
            decreases listed@.len() - i,
        {
            keys.push(KeyInfo::from(&listed[i]));
            i = i + 1;
        }
        ServerConfiguration { keys }
    }
}

} // verus!
