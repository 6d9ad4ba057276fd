//! A directory for tests, which needs no network: it lists a proof for each
//! of the epochs 1 to 100. Both hashes of a proof's name are the epoch
//! number repeated 32 times, and the proof itself is empty.

use vstd::prelude::*;
use crate::audit_blob_name::{BlobNameView, SerializableAuditBlobName};
use crate::storage::{
    listed_run, AkdProofDirectoryError, AkdProofNameError, AkdStorage, AuditBlob,
};
use crate::text::{hex, hex_string};

verus! {

/// The last epoch for which the test directory lists a proof.
pub const LAST_TEST_EPOCH: u64 = 100;

/// The test directory.
#[derive(Clone, Copy, Debug)]
pub struct TestAkdStorage;

/// Whether the test directory lists a proof for the epoch.
pub open spec fn test_directory_lists(epoch: u64) -> bool {
    1 <= epoch <= LAST_TEST_EPOCH
}

/// The hash that the test directory gives for an epoch.
pub open spec fn test_hash(epoch: u64) -> Seq<u8> {
    Seq::new(32, |i: int| epoch as u8)
}

impl TestAkdStorage {
    pub fn new() -> TestAkdStorage {
        TestAkdStorage
    }

    /// The epoch number repeated 32 times.
    pub fn hash(epoch: u64) -> (digest: [u8; 32])
        requires
            epoch <= u8::MAX,
        ensures
            digest@ == test_hash(epoch),
    {
        let digest = [epoch as u8;32];
        assert(digest@ =~= test_hash(epoch));
        digest
    }

    /// The hash of an epoch in hexadecimal.
    pub fn hex(epoch: u64) -> (text: String)
        requires
            epoch <= u8::MAX,
        ensures
            text@ == hex(test_hash(epoch)),
    {
        hex_string(TestAkdStorage::hash(epoch).as_slice())
    }

    pub fn to_string(&self) -> (text: String)
        ensures
            text@ == "Test AKD Storage"@,
    {
        "Test AKD Storage".to_owned()
    }
}

impl Default for TestAkdStorage {
    fn default() -> TestAkdStorage {
        TestAkdStorage
    }
}

/// The name that the test directory lists for an epoch.
pub open spec fn test_name(epoch: u64) -> BlobNameView {
    BlobNameView { epoch, previous_hash: test_hash(epoch), current_hash: test_hash(epoch) }
}

impl AkdStorage for TestAkdStorage {
    open spec fn listing(&self) -> Option<Map<u64, BlobNameView>> {
        Some(Map::new(|epoch: u64| test_directory_lists(epoch), |epoch: u64| test_name(epoch)))
    }

    fn has_proof(&self, epoch: &u64) -> (listed: bool)
        ensures
            listed == test_directory_lists(*epoch),
    {
        *epoch > 0 && *epoch <= LAST_TEST_EPOCH
    }

    fn get_proof_name(&self, epoch: &u64) -> (r: Result<
        SerializableAuditBlobName,
        AkdProofNameError,
    >)
        ensures
            test_directory_lists(*epoch) ==> (r matches Ok(name) && name.epoch == *epoch
                && name.previous_hash@ == test_hash(*epoch) && name.current_hash@ == test_hash(
                *epoch,
            )),
            !test_directory_lists(*epoch) ==> (r matches Err(AkdProofNameError::ProofNotFound(e))
                && e == *epoch),
    {
        if self.has_proof(epoch) {
            Ok(
                SerializableAuditBlobName {
                    epoch: *epoch,
                    previous_hash: TestAkdStorage::hash(*epoch),
                    current_hash: TestAkdStorage::hash(*epoch),
                },
            )
        } else {
            Err(AkdProofNameError::ProofNotFound(*epoch))
        }
    }

    fn get_proof(&self, name: &SerializableAuditBlobName) -> (r: Result<
        AuditBlob,
        AkdProofDirectoryError,
    >)
        ensures
            test_directory_lists(name.epoch) ==> (r matches Ok(blob) && blob.name.epoch
                == name.epoch && blob.name.previous_hash@ == test_hash(name.epoch)
                && blob.name.current_hash@ == test_hash(name.epoch) && blob.data@.len() == 0),
            !test_directory_lists(name.epoch) ==> (r matches Err(
                AkdProofDirectoryError::Custom(message),
            ) && message@ == "No proof found for blob name: "@
                + crate::audit_blob_name::blob_name_text(
                name.epoch,
                name.previous_hash@,
                name.current_hash@,
            )),
    {
        if self.has_proof(&name.epoch) {
            Ok(
                AuditBlob {
                    name: SerializableAuditBlobName {
                        epoch: name.epoch,
                        previous_hash: TestAkdStorage::hash(name.epoch),
                        current_hash: TestAkdStorage::hash(name.epoch),
                    },
                    data: Vec::new(),
                },
            )
        } else {
            Err(
                AkdProofDirectoryError::Custom(
                    crate::text::join("No proof found for blob name: ", name.to_string().as_str()),
                ),
            )
        }
    }
}

/// A poll of the test directory that begins at a listed epoch and asks for
/// no more names than are listed from there on brings the names of that many
/// consecutive epochs.
pub proof fn lemma_test_directory_run(directory: TestAkdStorage, first: u64, limit: nat)
    requires
        1 <= first,
        first + limit <= LAST_TEST_EPOCH + 1,
    ensures
        directory.listing() matches Some(names) && listed_run(names, first, limit) == Seq::new(
            limit,
            |i: int| test_name((first + i) as u64),
        ),
    decreases limit,
{
    let names = directory.listing()->0;
    if limit > 0 {
        lemma_test_directory_run(directory, (first + 1) as u64, (limit - 1) as nat);
        assert(listed_run(names, first, limit) =~= Seq::new(
            limit,
            |i: int| test_name((first + i) as u64),
        ));
    } else {
        assert(listed_run(names, first, limit) =~= Seq::new(
            limit,
            |i: int| test_name((first + i) as u64),
        ));
    }
}

} // verus!
