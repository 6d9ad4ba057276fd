//! An independent auditor for auditable key directories: it follows the
//! append-only proofs that a directory publishes, checks that each one
//! extends the state it signed before, and signs what it has verified.

pub mod akd_configurations;
pub mod akd_storage_factory;
pub mod audit_blob_name;
pub mod audit_request;
pub mod auditor_app;
pub mod binary_format;
pub mod config;
pub mod crypto;
pub mod epoch_signature;
pub mod namespace_auditor;
pub mod namespace_info;
mod paths;
pub mod proto_format;
pub mod signature_codec;
pub mod storage;
pub mod text;
pub mod versions;
pub mod web;

pub use akd_configurations::{AkdConfiguration, BitwardenV1Label, TestLabel};
pub use audit_blob_name::SerializableAuditBlobName;
pub use audit_request::AuditRequest;
pub use epoch_signature::{
    EpochSignature, EpochSignatureV1, EpochSignedMessage, SerializationError, SignError,
    VerifyError,
};
pub use namespace_info::{NamespaceInfo, NamespaceInfoView, NamespaceStatus};
pub use versions::{AuditVersion, Ciphersuite, Epoch};
