//! A request to audit the proof that a directory announces under a name.

use vstd::prelude::*;
use crate::audit_blob_name::{parsed_blob_name, SerializableAuditBlobName};
use crate::namespace_info::{NamespaceInfo, NamespaceInfoView};
use crate::storage::AkdProofNameError;

verus! {

/// The mathematical value of an `AuditRequest`.
pub struct AuditRequestView {
    pub namespace: NamespaceInfoView,
    pub blob_name: Seq<char>,
}

/// A namespace and the name, as text, of a proof to audit for it.
#[derive(Debug)]
pub struct AuditRequest {
    pub namespace: NamespaceInfo,
    pub blob_name: String,
}

impl View for AuditRequest {
    type V = AuditRequestView;

    open spec fn view(&self) -> AuditRequestView {
        AuditRequestView { namespace: self.namespace@, blob_name: self.blob_name@ }
    }
}

impl Clone for AuditRequest {
    fn clone(&self) -> (copy: AuditRequest)
        ensures
            copy@ == self@,
    {
        AuditRequest { namespace: self.namespace.clone(), blob_name: self.blob_name.clone() }
    }
}

impl AuditRequest {
    /// The blob name that the request's text writes, as `akd` reads it. A
    /// text that is no blob name is refused.
    pub fn parse_blob_name(&self) -> (r: Result<SerializableAuditBlobName, AkdProofNameError>)
        ensures
            match parsed_blob_name(self@.blob_name) {
                Some(parts) => r matches Ok(name) && (
                    name.epoch,
                    name.previous_hash@,
                    name.current_hash@,
                ) == parts,
                None => r matches Err(AkdProofNameError::AuditBlobNameParsingError),
            },
    {
        match SerializableAuditBlobName::parse(self.blob_name.as_str()) {
            Some(name) => Ok(name),
            None => Err(AkdProofNameError::AuditBlobNameParsingError),
        }
    }
}

/// The values of a list of requests.
pub open spec fn request_views(requests: Seq<AuditRequest>) -> Seq<AuditRequestView> {
    requests.map_values(|request: AuditRequest| request@)
}

} // verus!
