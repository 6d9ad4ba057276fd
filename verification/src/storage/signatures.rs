//! The repository of signatures of one namespace, by epoch.

use std::collections::HashMap;
use vstd::prelude::*;
use crate::binary_format::DecodeError;
use crate::epoch_signature::{EpochSignature, EpochSignatureView};
use crate::paths::path_is_file;
use crate::signature_codec::{encoded_signature, parse_signature};
use crate::text::{decimal, decimal_string};

verus! {

/// Name of the file that holds the signature of an epoch.
pub const SIG_FILE_NAME: &'static str = "sig";

/// A file of the signature store could not be read or written.
#[derive(Debug)]
pub enum SignatureStorageFileError {
    /// The payload is the message of the failed operation.
    IoError(String),
}

impl SignatureStorageFileError {
    pub open spec fn message(self) -> Seq<char> {
        match self {
            SignatureStorageFileError::IoError(e) => "IO error: "@ + e@,
        }
    }

    pub fn to_string(&self) -> (text: String)
        ensures
            text@ == self.message(),
    {
        match self {
            SignatureStorageFileError::IoError(e) => crate::text::join("IO error: ", e.as_str()),
        }
    }
}

/// Why a signature repository failed.
#[derive(Debug)]
pub enum SignatureRepositoryError {
    SignatureStorageFileError(SignatureStorageFileError),
    /// What is stored for the epoch is not a signature.
    BincodeDecodeError(DecodeError),
}

impl SignatureRepositoryError {
    pub open spec fn message(self) -> Seq<char> {
        match self {
            SignatureRepositoryError::SignatureStorageFileError(e) => e.message(),
            SignatureRepositoryError::BincodeDecodeError(e) =>
                "Bincode deserialization error: "@ + e.message(),
        }
    }

    pub fn to_string(&self) -> (text: String)
        ensures
            text@ == self.message(),
    {
        match self {
            SignatureRepositoryError::SignatureStorageFileError(e) => e.to_string(),
            SignatureRepositoryError::BincodeDecodeError(e) => crate::text::join(
                "Bincode deserialization error: ",
                e.to_string().as_str(),
            ),
        }
    }
}

/// The signatures of one namespace, by epoch. A failed call leaves the
/// repository as it was.
pub trait SignatureRepository {
    /// The signatures that the repository holds. An implementation says
    /// what they are; of one that does not, nothing is known.
    open spec fn signatures(&self) -> Map<u64, EpochSignatureView> {
        arbitrary()
    }

    /// Whether no call of the repository ever fails. An implementation of
    /// which that is true says so; of one that does not, it is not known.
    open spec fn dependable(&self) -> bool {
        false
    }

    fn has_signature(&self, epoch: &u64) -> (r: Result<bool, SignatureRepositoryError>)
        ensures
            r matches Ok(held) ==> held == self.signatures().contains_key(*epoch),
            self.dependable() ==> r is Ok,
    ;

    fn get_signature(&self, epoch: &u64) -> (r: Result<
        Option<EpochSignature>,
        SignatureRepositoryError,
    >)
        ensures
            r matches Ok(found) ==> match found {
                Some(signature) => self.signatures().contains_key(*epoch)
                    && self.signatures()[*epoch] == signature@,
                None => !self.signatures().contains_key(*epoch),
            },
            self.dependable() ==> r is Ok,
    ;

    /// Stores `signature` under `epoch`, in place of what was there.
    fn set_signature(&mut self, epoch: &u64, signature: EpochSignature) -> (r: Result<
        (),
        SignatureRepositoryError,
    >)
        ensures
            r is Ok ==> final(self).signatures() == old(self).signatures().insert(
                *epoch,
                signature@,
            ),
            r is Err ==> final(self).signatures() == old(self).signatures(),
            old(self).dependable() ==> r is Ok,
            final(self).dependable() == old(self).dependable(),
    ;
}

/// Signatures held in memory.
pub struct InMemorySignatureStorage {
    signatures: HashMap<u64, EpochSignature>,
}

impl View for InMemorySignatureStorage {
    type V = Map<u64, EpochSignatureView>;

    closed spec fn view(&self) -> Map<u64, EpochSignatureView> {
        self.signatures@.map_values(|signature: EpochSignature| signature@)
    }
}

impl InMemorySignatureStorage {
    pub fn new() -> (storage: InMemorySignatureStorage)
        ensures
            storage@ == Map::<u64, EpochSignatureView>::empty(),
    {
        let storage = InMemorySignatureStorage { signatures: HashMap::new() };
        assert(storage@ =~= Map::<u64, EpochSignatureView>::empty());
        storage
    }
}

impl Default for InMemorySignatureStorage {
    fn default() -> (storage: InMemorySignatureStorage)
        ensures
            storage@ == Map::<u64, EpochSignatureView>::empty(),
    {
        InMemorySignatureStorage::new()
    }
}

impl SignatureRepository for InMemorySignatureStorage {
    open spec fn signatures(&self) -> Map<u64, EpochSignatureView> {
        self@
    }

    open spec fn dependable(&self) -> bool {
        true
    }

    fn has_signature(&self, epoch: &u64) -> (r: Result<bool, SignatureRepositoryError>)
        ensures
            r is Ok,
    {
        broadcast use vstd::std_specs::hash::group_hash_axioms;

        Ok(self.signatures.contains_key(epoch))
    }

    fn get_signature(&self, epoch: &u64) -> (r: Result<
        Option<EpochSignature>,
        SignatureRepositoryError,
    >)
        ensures
            r is Ok,
    {
        broadcast use vstd::std_specs::hash::group_hash_axioms;

        match self.signatures.get(epoch) {
            Some(signature) => Ok(Some(signature.clone())),
            None => Ok(None),
        }
    }

    fn set_signature(&mut self, epoch: &u64, signature: EpochSignature) -> (r: Result<
        (),
        SignatureRepositoryError,
    >)
        ensures
            r is Ok,
    {
        broadcast use vstd::std_specs::hash::group_hash_axioms;

        let ghost stored = signature@;
        self.signatures.insert(*epoch, signature);
        assert(self@ =~= old(self)@.insert(*epoch, stored));
        Ok(())
    }
}

/// Storing a signature and then asking for it yields the signature, and
/// no other epoch is touched.
pub proof fn lemma_set_then_get(
    before: Map<u64, EpochSignatureView>,
    epoch: u64,
    signature: EpochSignatureView,
)
    ensures
        before.insert(epoch, signature).contains_key(epoch),
        before.insert(epoch, signature)[epoch] == signature,
        forall|other: u64|
            other != epoch ==> (before.insert(epoch, signature).contains_key(other)
                == before.contains_key(other)),
        before.insert(epoch, signature).insert(epoch, signature) == before.insert(
            epoch,
            signature,
        ),
{
    assert(before.insert(epoch, signature).insert(epoch, signature) =~= before.insert(
        epoch,
        signature,
    ));
}

/// Where the signatures of one namespace are kept on disk: one directory
/// per epoch under `root_path`, holding one file.
#[derive(Debug)]
pub struct FilesystemSignatureStorage {
    root_path: String,
}

impl View for FilesystemSignatureStorage {
    type V = Seq<char>;

    closed spec fn view(&self) -> Seq<char> {
        self.root_path@
    }
}

impl Clone for FilesystemSignatureStorage {
    fn clone(&self) -> (copy: FilesystemSignatureStorage)
        ensures
            copy@ == self@,
    {
        FilesystemSignatureStorage { root_path: self.root_path.clone() }
    }
}

/// The directory of an epoch under a root.
pub open spec fn epoch_directory(root: Seq<char>, epoch: u64) -> Seq<char> {
    root + "/"@ + decimal(epoch as nat)
}

/// The file that holds the signature of an epoch under a root.
pub open spec fn epoch_signature_file(root: Seq<char>, epoch: u64) -> Seq<char> {
    epoch_directory(root, epoch) + "/"@ + SIG_FILE_NAME@
}

impl FilesystemSignatureStorage {
    pub fn new(root_path: String) -> (storage: FilesystemSignatureStorage)
        ensures
            storage@ == root_path@,
    {
        FilesystemSignatureStorage { root_path }
    }

    pub fn root_path(&self) -> (root: &String)
        ensures
            root@ == self@,
    {
        &self.root_path
    }

    /// The directory of an epoch.
    pub fn epoch_path(&self, epoch: &u64) -> (path: String)
        ensures
            path@ == epoch_directory(self@, *epoch),
    {
        let mut path = self.root_path.clone();
        path.append("/");
        path.append(decimal_string(*epoch).as_str());
        path
    }

    /// The file that holds the signature of an epoch.
    pub fn epoch_sig_path(&self, epoch: &u64) -> (path: String)
        ensures
            path@ == epoch_signature_file(self@, *epoch),
    {
        let mut path = self.epoch_path(epoch);
        path.append("/");
        path.append(SIG_FILE_NAME);
        path
    }

    /// The signature file of an epoch, given whether it is there.
    pub fn signature_path_if(&self, epoch: &u64, is_file: bool) -> (r: Option<String>)
        ensures
            is_file ==> (r matches Some(path) && path@ == epoch_signature_file(self@, *epoch)),
            !is_file ==> r is None,
    {
        if is_file {
            Some(self.epoch_sig_path(epoch))
        } else {
            None
        }
    }

    /// The signature file of an epoch, if it is there now.
    pub fn get_existing_signature_path(&self, epoch: &u64) -> (r: Option<String>)
        ensures
            r matches Some(path) ==> path@ == epoch_signature_file(self@, *epoch),
    {
        let sig_file_path = self.epoch_sig_path(epoch);
        let is_file = path_is_file(sig_file_path.as_str());
        self.signature_path_if(epoch, is_file)
    }

    /// The content of a signature file.
    pub fn file_content(signature: &EpochSignature) -> (content: Vec<u8>)
        ensures
            content@ == encoded_signature(signature@),
    {
        signature.encode()
    }

    /// The signature that the content of a signature file holds.
    pub fn signature_of_content(content: &[u8]) -> (r: Result<
        EpochSignature,
        SignatureRepositoryError,
    >)
        ensures
            match parse_signature(content@) {
                Ok((signature, n)) => r matches Ok(found) && found@ == signature,
                Err(e) => r matches Err(SignatureRepositoryError::BincodeDecodeError(found))
                    && found == e,
            },
    {
        match EpochSignature::decode(content) {
            Ok((signature, _)) => Ok(signature),
            Err(e) => Err(SignatureRepositoryError::BincodeDecodeError(e)),
        }
    }
}


/// The signature stores that exist. The store on disk is described by
/// where it is; reading and writing its files is left to its user.
pub enum SignatureStorage {
    Filesystem(FilesystemSignatureStorage),
    InMemory(InMemorySignatureStorage),
}

} // verus!
