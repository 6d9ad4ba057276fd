//! The name under which a directory announces the proof of an epoch.

use vstd::prelude::*;
use crate::text::{decimal, decimal_string, hex, hex_string};

verus! {

/// What `akd`'s reading of a blob name yields for a text: the epoch, the
/// previous root hash and the current root hash, or nothing where the text
/// is no blob name.
pub uninterp spec fn parsed_blob_name(name: Seq<char>) -> Option<(u64, Seq<u8>, Seq<u8>)>;

/// `TryFrom<&str>` of `akd::local_auditing::AuditBlobName`: the parts of
/// the name that the text writes, or `None` where `akd` refuses the text.
#[verifier::external_body]
fn akd_parse_blob_name(name: &str) -> (r: Option<SerializableAuditBlobName>)
    ensures
        match r {
            Some(parsed) => parsed_blob_name(name@) == Some(
                (parsed.epoch, parsed.previous_hash@, parsed.current_hash@),
            ),
            None => parsed_blob_name(name@) is None,
        },
{
    match akd::local_auditing::AuditBlobName::try_from(name) {
        Ok(parsed) => Some(
            SerializableAuditBlobName {
                epoch: parsed.epoch,
                previous_hash: parsed.previous_hash,
                current_hash: parsed.current_hash,
            },
        ),
        Err(_) => None,
    }
}

/// The text of a blob name: the epoch in decimal, then the previous and the
/// current root hash in hexadecimal, separated by slashes.
pub open spec fn blob_name_text(epoch: u64, previous_hash: Seq<u8>, current_hash: Seq<u8>) -> Seq<
    char,
> {
    decimal(epoch as nat) + "/"@ + hex(previous_hash) + "/"@ + hex(current_hash)
}

/// What a directory announces about the proof of an epoch. The directory
/// is not trusted, and neither is this name.
#[derive(Clone, Copy, Debug)]
pub struct SerializableAuditBlobName {
    pub epoch: u64,
    pub previous_hash: [u8; 32],
    pub current_hash: [u8; 32],
}

/// The mathematical value of a `SerializableAuditBlobName`.
pub struct BlobNameView {
    pub epoch: u64,
    pub previous_hash: Seq<u8>,
    pub current_hash: Seq<u8>,
}

impl View for SerializableAuditBlobName {
    type V = BlobNameView;

    open spec fn view(&self) -> BlobNameView {
        BlobNameView {
            epoch: self.epoch,
            previous_hash: self.previous_hash@,
            current_hash: self.current_hash@,
        }
    }
}

/// The values of a list of blob names.
pub open spec fn name_views(names: Seq<SerializableAuditBlobName>) -> Seq<BlobNameView> {
    names.map_values(|name: SerializableAuditBlobName| name@)
}

impl SerializableAuditBlobName {
    /// Reads a blob name from its text, as `akd` reads it.
    pub fn parse(name: &str) -> (r: Option<SerializableAuditBlobName>)
        ensures
            match r {
                Some(parsed) => parsed_blob_name(name@) == Some(
                    (parsed.epoch, parsed.previous_hash@, parsed.current_hash@),
                ),
                None => parsed_blob_name(name@) is None,
            },
    {
        akd_parse_blob_name(name)
    }

    /// The text of the name.
    pub fn to_string(&self) -> (text: String)
        ensures
            text@ == blob_name_text(self.epoch, self.previous_hash@, self.current_hash@),
    {
        let mut text = decimal_string(self.epoch);
        text.append("/");
        text.append(hex_string(self.previous_hash.as_slice()).as_str());
        text.append("/");
        text.append(hex_string(self.current_hash.as_slice()).as_str());
        text
    }
}

} // verus!
