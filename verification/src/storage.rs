//! The stores that the auditor works on: namespaces, signatures and keys,
//! and the directory whose proofs it audits.

pub mod in_memory_queue;
pub mod namespaces;
pub mod signatures;
pub mod signing_keys;
pub mod test_akd_storage;
pub mod whatsapp_akd_storage;

use vstd::prelude::*;
use crate::audit_blob_name::{BlobNameView, SerializableAuditBlobName};
use crate::text::decimal;

verus! {

/// Why the directory of proofs could not be read.
#[derive(Debug)]
pub enum AkdProofDirectoryError {
    /// The request failed; the payload is the transport's message.
    ReqwestError(String),
    /// The key of a proof is not UTF-8.
    KeyNameParsingError,
    /// The listing is not well-formed XML; the payload is the parser's
    /// message.
    XmlParsingError(String),
    Custom(String),
}

impl AkdProofDirectoryError {
    pub open spec fn message(self) -> Seq<char> {
        match self {
            AkdProofDirectoryError::ReqwestError(e) => "AKD error: "@ + e@,
            AkdProofDirectoryError::KeyNameParsingError => "Key name parsing error"@,
            AkdProofDirectoryError::XmlParsingError(e) => "XML parsing error: "@ + e@,
            AkdProofDirectoryError::Custom(e) => "Custom error: "@ + e@,
        }
    }

    pub fn to_string(&self) -> (text: String)
        ensures
            text@ == self.message(),
    {
        match self {
            AkdProofDirectoryError::ReqwestError(e) => crate::text::join("AKD error: ", e.as_str()),
            AkdProofDirectoryError::KeyNameParsingError => "Key name parsing error".to_owned(),
            AkdProofDirectoryError::XmlParsingError(e) => crate::text::join(
                "XML parsing error: ",
                e.as_str(),
            ),
            AkdProofDirectoryError::Custom(e) => crate::text::join("Custom error: ", e.as_str()),
        }
    }
}

/// Why the name of the proof of an epoch could not be had.
#[derive(Debug)]
pub enum AkdProofNameError {
    AkdProofDirectoryError(AkdProofDirectoryError),
    /// What the directory lists for the epoch is no blob name.
    AuditBlobNameParsingError,
    /// The directory lists no proof for the epoch.
    ProofNotFound(u64),
}

impl AkdProofNameError {
    pub open spec fn message(self) -> Seq<char> {
        match self {
            AkdProofNameError::AkdProofDirectoryError(e) => e.message(),
            AkdProofNameError::AuditBlobNameParsingError => "AuditBlobName parsing error"@,
            AkdProofNameError::ProofNotFound(epoch) => "Proof not found for epoch "@ + decimal(
                epoch as nat,
            ),
        }
    }

    pub fn to_string(&self) -> (text: String)
        ensures
            text@ == self.message(),
    {
        match self {
            AkdProofNameError::AkdProofDirectoryError(e) => e.to_string(),
            AkdProofNameError::AuditBlobNameParsingError => "AuditBlobName parsing error".to_owned(),
            AkdProofNameError::ProofNotFound(epoch) => crate::text::join(
                "Proof not found for epoch ",
                crate::text::decimal_string(*epoch).as_str(),
            ),
        }
    }
}

/// A proof as the directory publishes it: its name and its bytes.
#[derive(Debug)]
pub struct AuditBlob {
    pub name: SerializableAuditBlobName,
    pub data: Vec<u8>,
}

/// The names that a directory with the listing `listed` gives to a poll
/// that begins at the epoch `first` and takes at most `limit` names: those
/// of the epochs from `first` on, in order, up to the first epoch that is
/// not listed.
pub open spec fn listed_run(listed: Map<u64, BlobNameView>, first: u64, limit: nat) -> Seq<
    BlobNameView,
>
    decreases limit,
{
    if limit == 0 || !listed.contains_key(first) {
        Seq::empty()
    } else if first == u64::MAX {
        seq![listed[first]]
    } else {
        seq![listed[first]] + listed_run(listed, (first + 1) as u64, (limit - 1) as nat)
    }
}

/// Where a listing lists every one of `limit` consecutive epochs from
/// `first` on, a poll that begins at `first` brings the names of all of
/// them, in order.
pub proof fn lemma_listed_run_is_whole(listed: Map<u64, BlobNameView>, first: u64, limit: nat)
    requires
        first + limit <= u64::MAX,
        forall|epoch: u64| first <= epoch < first + limit ==> #[trigger] listed.contains_key(epoch),
    ensures
        listed_run(listed, first, limit).len() == limit,
        forall|i: int|
            0 <= i < limit ==> #[trigger] listed_run(listed, first, limit)[i] == listed[(first
                + i) as u64],
    decreases limit,
{
    if limit > 0 {
        assert(listed.contains_key(first));
        lemma_listed_run_is_whole(listed, (first + 1) as u64, (limit - 1) as nat);
        let rest = listed_run(listed, (first + 1) as u64, (limit - 1) as nat);
        assert forall|i: int| 0 <= i < limit implies #[trigger] listed_run(listed, first, limit)[i]
            == listed[(first + i) as u64] by {
            if i > 0 {
                assert(listed_run(listed, first, limit)[i] == rest[i - 1]);
            }
        }
    }
}

/// A directory of append-only proofs. What a directory answers is not
/// trusted, so nothing is promised of it, unless the directory says what it
/// lists.
pub trait AkdStorage {
    /// The names that the directory lists, by epoch, where that is known.
    /// An implementation that answers from a listing of its own says what
    /// it is; of one that does not, nothing is known.
    open spec fn listing(&self) -> Option<Map<u64, BlobNameView>> {
        None
    }

    /// Whether the directory lists a proof for the epoch.
    fn has_proof(&self, epoch: &u64) -> (listed: bool)
        ensures
            self.listing() matches Some(names) ==> listed == names.contains_key(*epoch),
    ;

    /// The name of the proof that the directory lists for the epoch.
    fn get_proof_name(&self, epoch: &u64) -> (r: Result<
        SerializableAuditBlobName,
        AkdProofNameError,
    >)
        ensures
            self.listing() matches Some(names) ==> match r {
                Ok(name) => names.contains_key(*epoch) && names[*epoch] == name@,
                Err(_) => !names.contains_key(*epoch),
            },
    ;

    /// The proof of the given name.
    fn get_proof(&self, name: &SerializableAuditBlobName) -> Result<
        AuditBlob,
        AkdProofDirectoryError,
    >;
}

} // verus!
