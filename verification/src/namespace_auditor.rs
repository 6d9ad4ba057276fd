//! The audit of one namespace: poll the directory for the epochs that
//! follow the last verified one, check that each proof extends the state
//! that was signed before it, sign what was verified and record it.

use vstd::prelude::*;
use crate::akd_configurations::{
    append_only_proof_holds, proof_decodes, verify_consecutive_append_only, AkdConfiguration,
    ProofCheck,
};
use crate::audit_blob_name::{name_views, BlobNameView, SerializableAuditBlobName};
use crate::crypto::VerifyingKeyView;
use crate::epoch_signature::{
    DigestLengthError, EpochSignature, EpochSignatureView, SignError, VerifyError,
};
use crate::namespace_info::{NamespaceInfo, NamespaceInfoView, NamespaceStatus};
use crate::storage::namespaces::{NamespaceRepository, NamespaceRepositoryError};
use crate::storage::signatures::{SignatureRepository, SignatureRepositoryError};
use crate::storage::signing_keys::{SigningKeyRepository, SigningKeyRepositoryError};
use crate::storage::{
    listed_run, AkdProofDirectoryError, AkdProofNameError, AkdStorage, AuditBlob,
};
use crate::text::decimal;
use crate::versions::Epoch;

verus! {

/// What is said of a fetched blob that is not of the epoch asked for.
pub const WRONG_EPOCH_MESSAGE: &'static str = "the blob is not of the epoch asked for";

/// The most epochs that one poll asks the directory about.
pub const MAX_EPOCHS_PER_POLL: usize = 50;

/// How long, in milliseconds, a worker sleeps after a poll that was full,
/// so that a backlog drains while shutdown is still noticed.
pub const BACKLOG_SLEEP_MILLIS: u64 = 10;

/// Why the audit of an epoch failed.
#[derive(Debug)]
pub enum AuditError {
    /// The signature of the epoch before the audited one is not stored.
    SignatureNotFound(Epoch),
    StorageError(AkdProofDirectoryError),
    SigningKeyError(SigningKeyRepositoryError),
    SignatureStorageError(SignatureRepositoryError),
    VerifyError(VerifyError),
    /// The published blob is no proof, or is not the blob that was asked
    /// for; the payload says which.
    LocalAuditorError(String),
    BlobHashParseError(DigestLengthError),
    /// The proof does not lead from the anchor to the published hash; the
    /// payload is the verifier's message.
    AkdVerificationError(String),
    /// The proof could not be checked on this machine now; the payload says
    /// why. Nothing is known of the proof.
    ProofCheckUnavailable(String),
    SignError(SignError),
    NamespaceRepositoryError(NamespaceRepositoryError),
}

impl AuditError {
    pub open spec fn message(self) -> Seq<char> {
        match self {
            AuditError::SignatureNotFound(epoch) => "Signature not found for epoch "@ + decimal(
                epoch@ as nat,
            ),
            AuditError::StorageError(e) => "Storage error: "@ + e.message(),
            AuditError::SigningKeyError(e) => "Signing key error: "@ + e.message(),
            AuditError::SignatureStorageError(e) => e.message(),
            AuditError::VerifyError(e) => e.message(),
            AuditError::LocalAuditorError(e) => "Local Auditor error: "@ + e@,
            AuditError::BlobHashParseError(e) => "Failed parsing blob hash: "@ + decimal(
                e.actual as nat,
            ) + " bytes"@,
            AuditError::AkdVerificationError(e) => "Akd verification error: "@ + e@,
            AuditError::ProofCheckUnavailable(e) => "Proof check unavailable: "@ + e@,
            AuditError::SignError(e) => "Signing error: "@ + e.message(),
            AuditError::NamespaceRepositoryError(e) => "Namespace repository error: "@
                + e.message(),
        }
    }

    pub fn to_string(&self) -> (text: String)
        ensures
            text@ == self.message(),
    {
        match self {
            AuditError::SignatureNotFound(epoch) => crate::text::join(
                "Signature not found for epoch ",
                epoch.to_string().as_str(),
            ),
            AuditError::StorageError(e) => crate::text::join(
                "Storage error: ",
                e.to_string().as_str(),
            ),
            AuditError::SigningKeyError(e) => crate::text::join(
                "Signing key error: ",
                e.to_string().as_str(),
            ),
            AuditError::SignatureStorageError(e) => e.to_string(),
            AuditError::VerifyError(e) => e.to_string(),
            AuditError::LocalAuditorError(e) => crate::text::join(
                "Local Auditor error: ",
                e.as_str(),
            ),
            AuditError::BlobHashParseError(e) => {
                let mut text = "Failed parsing blob hash: ".to_owned();
                text.append(crate::text::decimal_string(e.actual as u64).as_str());
                text.append(" bytes");
                text
            },
            AuditError::AkdVerificationError(e) => crate::text::join(
                "Akd verification error: ",
                e.as_str(),
            ),
            AuditError::ProofCheckUnavailable(e) => crate::text::join(
                "Proof check unavailable: ",
                e.as_str(),
            ),
            AuditError::SignError(e) => crate::text::join(
                "Signing error: ",
                e.to_string().as_str(),
            ),
            AuditError::NamespaceRepositoryError(e) => crate::text::join(
                "Namespace repository error: ",
                e.to_string().as_str(),
            ),
        }
    }

    /// The status that a namespace takes when an audit fails this way. A
    /// lost signature means that the auditor's own history has a gap. A
    /// failure of a store to keep what it is given changes no status, and
    /// neither does a check that could not be run. Anything else counts
    /// against the chain.
    pub open spec fn status_after(self) -> Option<NamespaceStatus> {
        match self {
            AuditError::SignatureNotFound(_) => Some(NamespaceStatus::SignatureLost),
            AuditError::SignatureStorageError(_) => None,
            AuditError::NamespaceRepositoryError(_) => None,
            AuditError::SigningKeyError(_) => None,
            AuditError::ProofCheckUnavailable(_) => None,
            _ => Some(NamespaceStatus::SignatureVerificationFailed),
        }
    }

    pub fn failure_status(&self) -> (status: Option<NamespaceStatus>)
        ensures
            status == self.status_after(),
    {
        match self {
            AuditError::SignatureNotFound(_) => Some(NamespaceStatus::SignatureLost),
            AuditError::SignatureStorageError(_) => None,
            AuditError::NamespaceRepositoryError(_) => None,
            AuditError::SigningKeyError(_) => None,
            AuditError::ProofCheckUnavailable(_) => None,
            _ => Some(NamespaceStatus::SignatureVerificationFailed),
        }
    }
}

/// Every stored signature verifies under the key that is held for it.
pub open spec fn all_verify(
    signatures: Map<u64, EpochSignatureView>,
    keys: Map<u128, VerifyingKeyView>,
) -> bool {
    forall|epoch: u64| #[trigger]
        signatures.contains_key(epoch) ==> signatures[epoch].verifies_under(keys)
}

/// The signature of every epoch after `starting_epoch` is stored together
/// with that of the epoch before it.
pub open spec fn chain_closed(signatures: Map<u64, EpochSignatureView>, starting_epoch: u64) -> bool {
    forall|epoch: u64| #[trigger]
        signatures.contains_key(epoch) && epoch > starting_epoch ==> signatures.contains_key(
            (epoch - 1) as u64,
        )
}

/// In a closed chain, a stored signature at or after the starting epoch has
/// the signatures of all epochs from the starting epoch up to it stored as
/// well.
pub proof fn lemma_chain_is_complete(
    signatures: Map<u64, EpochSignatureView>,
    starting_epoch: u64,
    last: u64,
    epoch: u64,
)
    requires
        chain_closed(signatures, starting_epoch),
        signatures.contains_key(last),
        starting_epoch <= epoch <= last,
    ensures
        signatures.contains_key(epoch),
    decreases last - epoch,
{
    if epoch < last {
        lemma_chain_is_complete(signatures, starting_epoch, last, (epoch + 1) as u64);
        assert(signatures.contains_key((epoch + 1) as u64));
    }
}

/// A signature that verifies under some keys verifies under any keys that
/// hold them all.
pub proof fn lemma_verifies_under_more_keys(
    signature: EpochSignatureView,
    fewer: Map<u128, VerifyingKeyView>,
    more: Map<u128, VerifyingKeyView>,
)
    requires
        fewer.submap_of(more),
        signature.verifies_under(fewer),
    ensures
        signature.verifies_under(more),
{
    assert(fewer.dom().contains(signature.key_id));
}

/// Keys that are kept through one step and through the next are kept
/// through both.
pub proof fn lemma_keys_kept(
    first: Map<u128, VerifyingKeyView>,
    second: Map<u128, VerifyingKeyView>,
    third: Map<u128, VerifyingKeyView>,
)
    requires
        first.submap_of(second),
        second.submap_of(third),
    ensures
        first.submap_of(third),
{
    assert forall|key_id: u128| #[trigger] first.dom().contains(key_id) implies third.dom().contains(
        key_id,
    ) && first[key_id] == third[key_id] by {
        assert(second.dom().contains(key_id));
    }
}

/// Signatures that all verify still do when keys are added and a verifying
/// signature is stored.
pub proof fn lemma_all_verify_after_signing(
    signatures: Map<u64, EpochSignatureView>,
    fewer: Map<u128, VerifyingKeyView>,
    more: Map<u128, VerifyingKeyView>,
    epoch: u64,
    signature: EpochSignatureView,
)
    requires
        all_verify(signatures, fewer),
        fewer.submap_of(more),
        signature.verifies_under(more),
    ensures
        all_verify(signatures, more),
        all_verify(signatures.insert(epoch, signature), more),
{
    assert forall|e: u64| #[trigger] signatures.contains_key(e) implies signatures[e].verifies_under(
        more,
    ) by {
        lemma_verifies_under_more_keys(signatures[e], fewer, more);
    }
}

/// The hash against which the proof of an epoch is checked. For the
/// starting epoch it is the previous hash that the directory announces,
/// which is trusted as it is. For every later epoch it is the digest of the
/// stored signature of the epoch before, and never what the directory
/// says.
pub open spec fn anchor_of(
    info: NamespaceInfoView,
    signatures: Map<u64, EpochSignatureView>,
    blob_epoch: u64,
    blob_previous_hash: Seq<u8>,
) -> Seq<u8> {
    if blob_epoch == info.starting_epoch@ {
        blob_previous_hash
    } else {
        signatures[(blob_epoch - 1) as u64].digest
    }
}

/// What must hold for the proof of an epoch to be accepted: the epoch is
/// not before the starting epoch; unless it is the starting epoch, the
/// signature of the epoch before it is stored and verifies; and the proof
/// in `data` leads from the anchor to `end_hash`.
pub open spec fn accepted_from(
    info: NamespaceInfoView,
    signatures: Map<u64, EpochSignatureView>,
    keys: Map<u128, VerifyingKeyView>,
    blob_epoch: u64,
    blob_previous_hash: Seq<u8>,
    end_hash: Seq<u8>,
    data: Seq<u8>,
) -> bool {
    &&& blob_epoch >= info.starting_epoch@
    &&& blob_epoch != info.starting_epoch@ ==> signatures.contains_key((blob_epoch - 1) as u64)
        && signatures[(blob_epoch - 1) as u64].verifies_under(keys)
    &&& append_only_proof_holds(
        info.configuration,
        data,
        anchor_of(info, signatures, blob_epoch, blob_previous_hash),
        end_hash,
        blob_epoch,
    )
}

/// While no signature is stored for the starting epoch or any epoch after
/// it, the only epoch whose proof can be accepted is the starting epoch,
/// and the anchor it is checked against is the previous hash that the
/// directory announces.
pub proof fn lemma_first_accepted_epoch_is_the_starting_epoch(
    info: NamespaceInfoView,
    signatures: Map<u64, EpochSignatureView>,
    keys: Map<u128, VerifyingKeyView>,
    blob_epoch: u64,
    blob_previous_hash: Seq<u8>,
    end_hash: Seq<u8>,
    data: Seq<u8>,
)
    requires
        forall|epoch: u64| #[trigger]
            signatures.contains_key(epoch) ==> epoch < info.starting_epoch@,
        accepted_from(info, signatures, keys, blob_epoch, blob_previous_hash, end_hash, data),
    ensures
        blob_epoch == info.starting_epoch@,
        anchor_of(info, signatures, blob_epoch, blob_previous_hash) == blob_previous_hash,
{
    if blob_epoch != info.starting_epoch@ {
        assert(signatures.contains_key((blob_epoch - 1) as u64));
    }
}

/// For every epoch after the starting epoch whose proof is accepted, the
/// anchor is the digest of the stored signature of the epoch before, which
/// verifies.
pub proof fn lemma_anchor_is_the_stored_digest(
    info: NamespaceInfoView,
    signatures: Map<u64, EpochSignatureView>,
    keys: Map<u128, VerifyingKeyView>,
    blob_epoch: u64,
    blob_previous_hash: Seq<u8>,
    end_hash: Seq<u8>,
    data: Seq<u8>,
)
    requires
        accepted_from(info, signatures, keys, blob_epoch, blob_previous_hash, end_hash, data),
        blob_epoch > info.starting_epoch@,
    ensures
        signatures.contains_key((blob_epoch - 1) as u64),
        signatures[(blob_epoch - 1) as u64].verifies_under(keys),
        anchor_of(info, signatures, blob_epoch, blob_previous_hash) == signatures[(blob_epoch
            - 1) as u64].digest,
        append_only_proof_holds(
            info.configuration,
            data,
            signatures[(blob_epoch - 1) as u64].digest,
            end_hash,
            blob_epoch,
        ),
{
}

/// Whether some published proof was accepted for the epoch: see
/// `accepted_from`.
pub open spec fn proof_accepted(
    info: NamespaceInfoView,
    signatures: Map<u64, EpochSignatureView>,
    keys: Map<u128, VerifyingKeyView>,
    blob_epoch: u64,
    blob_previous_hash: Seq<u8>,
    end_hash: Seq<u8>,
) -> bool {
    exists|data: Seq<u8>|
        accepted_from(info, signatures, keys, blob_epoch, blob_previous_hash, end_hash, data)
}

/// Whether a last verified epoch is not before an earlier one: once there
/// is one, there is one later on, and it is no smaller.
pub open spec fn not_before(earlier: Option<Epoch>, later: Option<Epoch>) -> bool {
    earlier matches Some(first) ==> (later matches Some(second) && second@ >= first@)
}

/// The recorded history of a namespace has no gaps: the chain of stored
/// signatures is closed from the starting epoch on, and the last verified
/// epoch, when there is one, is not before the starting epoch and has its
/// signature stored.
pub open spec fn history_complete(
    info: NamespaceInfoView,
    signatures: Map<u64, EpochSignatureView>,
) -> bool {
    &&& chain_closed(signatures, info.starting_epoch@)
    &&& info.last_verified_epoch matches Some(last) ==> last@ >= info.starting_epoch@
        && signatures.contains_key(last@)
}

/// Where the history is complete, the signature of every epoch from the
/// starting epoch up to the last verified one is stored.
pub proof fn lemma_history_has_every_epoch(
    info: NamespaceInfoView,
    signatures: Map<u64, EpochSignatureView>,
    epoch: u64,
)
    requires
        history_complete(info, signatures),
        info.last_verified_epoch matches Some(last) && info.starting_epoch@ <= epoch <= last@,
    ensures
        signatures.contains_key(epoch),
{
    lemma_chain_is_complete(
        signatures,
        info.starting_epoch@,
        info.last_verified_epoch->0@,
        epoch,
    );
}

/// Storing the signature of the starting epoch, or of an epoch whose
/// predecessor is stored, keeps the chain closed.
pub proof fn lemma_chain_stays_closed(
    signatures: Map<u64, EpochSignatureView>,
    starting_epoch: u64,
    epoch: u64,
    signature: EpochSignatureView,
)
    requires
        chain_closed(signatures, starting_epoch),
        epoch == starting_epoch || (epoch > starting_epoch && signatures.contains_key(
            (epoch - 1) as u64,
        )),
    ensures
        chain_closed(signatures.insert(epoch, signature), starting_epoch),
{
    let after = signatures.insert(epoch, signature);
    assert forall|e: u64| #[trigger] after.contains_key(e) && e > starting_epoch implies after.contains_key(
        (e - 1) as u64,
    ) by {
        if e != epoch {
            assert(signatures.contains_key(e));
        }
    }
}

/// Why an audit cycle ended without having run through.
#[derive(Debug)]
pub enum CycleError {
    /// The namespace is not in the repository.
    NamespaceNotFound(String),
    /// The namespace repository failed.
    NamespaceRepository(NamespaceRepositoryError),
    /// The namespace is neither online nor initializing.
    NamespaceNotActive { name: String, status: NamespaceStatus },
    /// The audit of an epoch failed.
    AuditFailed { epoch: u64, namespace: String, error: AuditError },
}

impl CycleError {
    pub open spec fn message(self) -> Seq<char> {
        match self {
            CycleError::NamespaceNotFound(name) => "Namespace "@ + name@
                + " not found in repository"@,
            CycleError::NamespaceRepository(e) => e.message(),
            CycleError::NamespaceNotActive { name, status } => "Namespace "@ + name@
                + " is not online"@,
            CycleError::AuditFailed { epoch, namespace, error } => "Audit failed for epoch "@
                + decimal(epoch as nat) + " in namespace "@ + namespace@ + ": "@ + error.message(),
        }
    }

    pub fn to_string(&self) -> (text: String)
        ensures
            text@ == self.message(),
    {
        match self {
            CycleError::NamespaceNotFound(name) => {
                let mut text = "Namespace ".to_owned();
                text.append(name.as_str());
                text.append(" not found in repository");
                text
            },
            CycleError::NamespaceRepository(e) => e.to_string(),
            CycleError::NamespaceNotActive { name, status } => {
                let mut text = "Namespace ".to_owned();
                text.append(name.as_str());
                text.append(" is not online");
                text
            },
            CycleError::AuditFailed { epoch, namespace, error } => {
                let mut text = "Audit failed for epoch ".to_owned();
                text.append(crate::text::decimal_string(*epoch).as_str());
                text.append(" in namespace ");
                text.append(namespace.as_str());
                text.append(": ");
                text.append(error.to_string().as_str());
                text
            },
        }
    }
}

/// What the audit makes of the check of a proof: an accepted proof is no
/// error, a blob that is no proof is a local auditor error, a proof that
/// does not hold is a verification error, and a check that could not be run
/// is an error of its own.
pub fn audit_result_of(check: ProofCheck) -> (r: Result<(), AuditError>)
    ensures
        match check {
            ProofCheck::Accepted => r is Ok,
            ProofCheck::Undecodable(message) => r matches Err(AuditError::LocalAuditorError(text))
                && text@ == message@,
            ProofCheck::Rejected(message) => r matches Err(AuditError::AkdVerificationError(text))
                && text@ == message@,
            ProofCheck::Unavailable(message) => r matches Err(
                AuditError::ProofCheckUnavailable(text),
            ) && text@ == message@,
        },
{
    match check {
        ProofCheck::Accepted => Ok(()),
        ProofCheck::Undecodable(message) => Err(AuditError::LocalAuditorError(message)),
        ProofCheck::Rejected(message) => Err(AuditError::AkdVerificationError(message)),
        ProofCheck::Unavailable(message) => Err(AuditError::ProofCheckUnavailable(message)),
    }
}

/// Checks a proof that was fetched under the name `blob_name` against
/// `anchor`. The epoch and the hash that are checked, and returned, are
/// those that the fetched blob carries; what it says of the previous hash
/// plays no part. A blob of another epoch than the one asked for is
/// refused.
pub fn check_fetched_proof(
    blob_name: &SerializableAuditBlobName,
    namespace_info: &NamespaceInfo,
    anchor: [u8; 32],
    audit_blob: &AuditBlob,
) -> (r: Result<(u64, [u8; 32]), AuditError>)
    ensures
        proof_judged(
            namespace_info@.configuration,
            blob_name.epoch,
            anchor@,
            audit_blob.name.epoch,
            audit_blob.name.current_hash@,
            audit_blob.data@,
            r,
        ),
{
    let end_epoch = audit_blob.name.epoch;
    let end_hash = audit_blob.name.current_hash;
    if end_epoch != blob_name.epoch {
        return Err(AuditError::LocalAuditorError(WRONG_EPOCH_MESSAGE.to_owned()));
    }
    let check = verify_consecutive_append_only(
        &namespace_info.configuration,
        &audit_blob.data,
        anchor,
        end_hash,
        end_epoch,
    );
    match audit_result_of(check) {
        Ok(()) => Ok((end_epoch, end_hash)),
        Err(e) => Err(e),
    }
}

/// What a directory says of one epoch.
#[derive(Clone, Copy, Debug)]
pub enum DirectoryAnswer {
    /// It lists no proof for the epoch.
    NotListed,
    /// It lists a proof, but the name of the proof could not be had.
    NameUnavailable,
    /// It lists the proof of this name.
    Listed(SerializableAuditBlobName),
}

/// What a worker does after an audit cycle.
#[derive(Clone, Copy, Debug, PartialEq, Eq, Structural)]
pub enum AfterCycle {
    /// Sleep for so many milliseconds, unless shutdown comes first, and
    /// then run the next cycle.
    Sleep(u64),
    /// Stop: the cycle failed.
    Stop,
}

/// The mathematical value of a `NamespaceAuditor`: its name and settings,
/// and what its three stores hold.
pub struct AuditorView {
    pub namespace_name: Seq<char>,
    pub namespaces: Map<Seq<char>, NamespaceInfoView>,
    pub keys: Map<u128, VerifyingKeyView>,
    pub signatures: Map<u64, EpochSignatureView>,
    pub sleep_duration: u64,
    /// The identifier of the key that signs now.
    pub current_key_id: u128,
    /// Whether none of the three stores ever fails.
    pub dependable: bool,
}

impl AuditorView {
    /// Whether the namespace repository holds the audited namespace.
    pub open spec fn known(self) -> bool {
        self.namespaces.contains_key(self.namespace_name)
    }

    /// What the namespace repository holds of the audited namespace.
    pub open spec fn recorded(self) -> NamespaceInfoView {
        self.namespaces[self.namespace_name]
    }

    /// The name and the settings are those of `other`.
    pub open spec fn same_settings(self, other: AuditorView) -> bool {
        self.namespace_name == other.namespace_name && self.sleep_duration == other.sleep_duration
            && self.dependable == other.dependable
    }

    /// Whether the signature of `epoch` is stored and verifies.
    pub open spec fn holds_verified(self, epoch: u64) -> bool {
        self.signatures.contains_key(epoch) && self.signatures[epoch].verifies_under(self.keys)
    }

    /// The signatures and the namespaces are those of `other`.
    pub open spec fn same_records(self, other: AuditorView) -> bool {
        self.signatures == other.signatures && self.namespaces == other.namespaces
    }
}

/// What is recorded of a namespace once `epoch` has been verified.
pub open spec fn verified_up_to(info: NamespaceInfoView, epoch: u64) -> NamespaceInfoView {
    NamespaceInfoView { last_verified_epoch: Some(Epoch(epoch)), ..info }
}

/// What is recorded of a namespace once an audit has failed with `status`.
pub open spec fn failed_with(info: NamespaceInfoView, status: NamespaceStatus) -> NamespaceInfoView {
    NamespaceInfoView { status: status, ..info }
}

/// Whether `after` is `before` with `signature` newly stored under `epoch`,
/// where `signature` is made for `namespace` and `epoch` with the key that
/// is current afterwards, and verifies.
pub open spec fn newly_signed(
    before: AuditorView,
    after: AuditorView,
    namespace: Seq<char>,
    epoch: u64,
    signature: EpochSignatureView,
) -> bool {
    &&& after.signatures == before.signatures.insert(epoch, signature)
    &&& signature.verifies_under(after.keys)
    &&& signature.epoch == epoch
    &&& signature.namespace == namespace
    &&& signature.key_id == after.current_key_id
}

/// What `sign_blob` does: no key is forgotten and no namespace is touched;
/// on success a verifying signature over the root hash, made with the key
/// that is current afterwards, is stored under the epoch, and on failure no
/// signature is. It fails only where the current key cannot be had or the
/// signature cannot be stored; with stores that never fail, only where a
/// rotation is due and the fresh key's identifier is in use already.
pub open spec fn signed(
    before: AuditorView,
    after: AuditorView,
    namespace: Seq<char>,
    epoch: u64,
    root_hash: Seq<u8>,
    r: Result<(), AuditError>,
) -> bool {
    &&& after.same_settings(before)
    &&& after.namespaces == before.namespaces
    &&& before.keys.submap_of(after.keys)
    &&& r is Ok ==> exists|signature: EpochSignatureView| #[trigger]
        newly_signed(before, after, namespace, epoch, signature) && signature.digest == root_hash
    &&& r is Err ==> after.signatures == before.signatures
    &&& r matches Err(e) ==> (e matches AuditError::SigningKeyError(reason) && (reason
        is KeyIdInUse || !before.dependable)) || (e is SignatureStorageError
        && !before.dependable)
}

/// Whether the anchor for the proof of `epoch` can be had: the epoch is the
/// starting epoch, or the signature of the epoch before it is stored,
/// verifies and carries a digest of 32 bytes.
pub open spec fn anchor_established(view: AuditorView, info: NamespaceInfoView, epoch: u64) -> bool {
    let previous = (epoch - 1) as u64;
    epoch == info.starting_epoch@ || (view.holds_verified(previous)
        && view.signatures[previous].digest.len() == 32)
}

/// Whether `error` is why no anchor for the proof of `epoch` was had. There
/// is none for the starting epoch. For a later epoch, a missing signature of
/// the epoch before is reported as such, one that does not verify as a
/// verification error, and one whose digest is no hash as a parse error. A
/// failure of a store is reported only by stores that may fail.
pub open spec fn anchor_refused(
    view: AuditorView,
    info: NamespaceInfoView,
    epoch: u64,
    error: AuditError,
) -> bool {
    let previous = (epoch - 1) as u64;
    let stored = view.signatures.contains_key(previous);
    epoch != info.starting_epoch@ && match error {
        AuditError::SignatureNotFound(missing) => missing@ == previous && !stored,
        AuditError::VerifyError(_) => stored && !view.holds_verified(previous),
        AuditError::BlobHashParseError(_) => view.holds_verified(previous)
            && view.signatures[previous].digest.len() != 32,
        AuditError::SignatureStorageError(_) => !view.dependable,
        AuditError::SigningKeyError(_) => stored && !view.dependable,
        _ => false,
    }
}

/// What `verification_anchor` answers for the proof of `epoch`.
pub open spec fn anchored(
    view: AuditorView,
    info: NamespaceInfoView,
    epoch: u64,
    previous_hash: Seq<u8>,
    r: Result<[u8; 32], AuditError>,
) -> bool {
    match r {
        Ok(anchor) => anchor_established(view, info, epoch) && anchor@ == anchor_of(
            info,
            view.signatures,
            epoch,
            previous_hash,
        ),
        Err(e) => anchor_refused(view, info, epoch, e),
    }
}

/// Whether the error is one that comes only once the anchor is at hand:
/// from the directory, from the proof that it published, or from a check
/// that could not be run.
pub open spec fn past_anchor(error: AuditError) -> bool {
    error is StorageError || error is LocalAuditorError || error is AkdVerificationError || error
        is ProofCheckUnavailable
}

/// What `check_fetched_proof` makes of a proof that was fetched for
/// `asked_epoch` and checked against `anchor`. A blob of another epoch is
/// refused. Otherwise the result is the epoch and the hash that the blob
/// carries, and it is given only for a proof that holds; bytes that are no
/// proof are a local auditor error; a proof that does not hold is a
/// verification error; of a check that could not be run nothing is said.
pub open spec fn proof_judged(
    configuration: AkdConfiguration,
    asked_epoch: u64,
    anchor: Seq<u8>,
    fetched_epoch: u64,
    fetched_hash: Seq<u8>,
    data: Seq<u8>,
    r: Result<(u64, [u8; 32]), AuditError>,
) -> bool {
    if fetched_epoch != asked_epoch {
        r matches Err(AuditError::LocalAuditorError(text)) && text@ == WRONG_EPOCH_MESSAGE@
    } else {
        match r {
            Ok((end_epoch, end_hash)) => end_epoch == asked_epoch && end_hash@ == fetched_hash
                && append_only_proof_holds(configuration, data, anchor, fetched_hash, asked_epoch),
            Err(AuditError::LocalAuditorError(_)) => !proof_decodes(data),
            Err(AuditError::AkdVerificationError(_)) => !append_only_proof_holds(
                configuration,
                data,
                anchor,
                fetched_hash,
                asked_epoch,
            ) && (asked_epoch >= 1 ==> proof_decodes(data)),
            Err(AuditError::ProofCheckUnavailable(_)) => true,
            Err(_) => false,
        }
    }
}

/// Whether `error` is what the check of some fetched blob against the
/// anchor for `epoch` ends in: see `proof_judged`.
pub open spec fn fetched_and_refused(
    info: NamespaceInfoView,
    signatures: Map<u64, EpochSignatureView>,
    epoch: u64,
    previous_hash: Seq<u8>,
    error: AuditError,
) -> bool {
    exists|fetched_epoch: u64, fetched_hash: Seq<u8>, data: Seq<u8>| #[trigger]
        proof_judged(
            info.configuration,
            epoch,
            anchor_of(info, signatures, epoch, previous_hash),
            fetched_epoch,
            fetched_hash,
            data,
            Err(error),
        )
}

/// What `verify_blob` answers for the proof of `epoch`. The anchor comes
/// first: where it cannot be had, the result says why, and the directory
/// plays no part. Only with the anchor at hand is the proof fetched and
/// checked.
pub open spec fn blob_verified(
    view: AuditorView,
    info: NamespaceInfoView,
    epoch: u64,
    previous_hash: Seq<u8>,
    r: Result<(u64, [u8; 32]), AuditError>,
) -> bool {
    match r {
        Ok((end_epoch, end_hash)) => end_epoch == epoch && anchor_established(view, info, epoch)
            && proof_accepted(info, view.signatures, view.keys, epoch, previous_hash, end_hash@),
        Err(e) => if past_anchor(e) {
            anchor_established(view, info, epoch) && (e is StorageError || fetched_and_refused(
                info,
                view.signatures,
                epoch,
                previous_hash,
                e,
            ))
        } else {
            anchor_refused(view, info, epoch, e)
        },
    }
}

/// What `process_audit_request` does with the proof that a directory names
/// for `epoch`.
pub open spec fn processed(
    before: AuditorView,
    after: AuditorView,
    info: NamespaceInfoView,
    epoch: u64,
    previous_hash: Seq<u8>,
    r: Result<(), AuditError>,
) -> bool {
    let start = info.starting_epoch@;
    let signed_already = before.signatures.contains_key(epoch);
    let recorded = before.namespaces.insert(info.name, verified_up_to(info, epoch));
    &&& after.same_settings(before)
    &&& before.keys.submap_of(after.keys)
    // An epoch before the starting epoch is passed over, and so is one
    // whose signature is stored, which is verified again and must verify.
    &&& epoch < start ==> r is Ok
    &&& epoch < start || signed_already ==> after == before
    &&& epoch >= start && signed_already ==> (match r {
        Ok(()) => before.holds_verified(epoch),
        Err(AuditError::VerifyError(_)) => !before.holds_verified(epoch),
        Err(e) => (e is SignatureStorageError || e is SigningKeyError) && !before.dependable,
    })
    // The anchor comes before the proof: where it cannot be had, the
    // result says why and nothing is changed; and the directory is blamed
    // only once the anchor is at hand.
    &&& epoch >= start && !signed_already && !anchor_established(before, info, epoch) ==> (r
        matches Err(e) && anchor_refused(before, info, epoch, e) && after == before)
    &&& r matches Err(e) ==> (past_anchor(e) ==> epoch >= start && !signed_already
        && anchor_established(before, info, epoch) && after == before && (e is StorageError
        || fetched_and_refused(info, before.signatures, epoch, previous_hash, e)))
    // A signature is stored only for an epoch whose proof was accepted.
    &&& after.signatures == before.signatures || exists|signature: EpochSignatureView| #[trigger]
        newly_signed(before, after, info.name, epoch, signature) && !signed_already
            && proof_accepted(
            info,
            before.signatures,
            before.keys,
            epoch,
            previous_hash,
            signature.digest,
        )
    // The epoch is recorded as verified only once its signature is stored,
    // and is recorded whenever a new epoch has been audited with success.
    &&& after.namespaces == before.namespaces || (r is Ok && after.signatures.contains_key(epoch)
        && after.namespaces == recorded)
    &&& r is Ok && epoch >= start && !signed_already ==> after.namespaces == recorded
        && after.signatures.contains_key(epoch)
    // A missing predecessor is reported as such.
    &&& r matches Err(AuditError::SignatureNotFound(previous)) ==> epoch > start && previous@
        == epoch - 1 && !before.signatures.contains_key((epoch - 1) as u64)
    // What holds of the stored signatures keeps holding.
    &&& all_verify(before.signatures, before.keys) ==> all_verify(after.signatures, after.keys)
    &&& chain_closed(before.signatures, start) ==> chain_closed(after.signatures, start)
}

/// Processing a proof again, after it has been processed with success,
/// changes nothing: neither the signatures nor the namespaces nor the keys;
/// and it succeeds unless a store fails or the stored signature does not
/// verify any more.
pub proof fn lemma_processing_again_changes_nothing(
    before: AuditorView,
    between: AuditorView,
    after: AuditorView,
    info: NamespaceInfoView,
    epoch: u64,
    previous_hash: Seq<u8>,
    first: Result<(), AuditError>,
    second: Result<(), AuditError>,
)
    requires
        processed(before, between, info, epoch, previous_hash, first),
        first is Ok,
        processed(between, after, info, epoch, previous_hash, second),
    ensures
        after == between,
        second matches Err(e) ==> ((e is SignatureStorageError || e is SigningKeyError)
            && !between.dependable) || (e is VerifyError && !between.holds_verified(epoch)),
{
}

/// What `handle_audit_failure` does: the namespace takes the status that
/// the error calls for, if it calls for one and the status can be
/// recorded. It can be, where the stores never fail and the namespace is
/// recorded.
pub open spec fn failure_handled(
    before: AuditorView,
    after: AuditorView,
    info: NamespaceInfoView,
    error: AuditError,
    r: Result<(), AuditError>,
) -> bool {
    &&& after.same_settings(before)
    &&& after.signatures == before.signatures
    &&& after.keys == before.keys
    &&& match error.status_after() {
        None => r is Ok && after.namespaces == before.namespaces,
        Some(status) => match r {
            Ok(()) => after.namespaces == before.namespaces.insert(
                info.name,
                failed_with(info, status),
            ),
            Err(e) => e is NamespaceRepositoryError && after.namespaces == before.namespaces
                && !(before.dependable && before.namespaces.contains_key(info.name)),
        },
    }
}

/// One of the first `upto + 1` names is for an epoch exactly when one of
/// the first `upto` is, or the name after them.
pub proof fn lemma_named_among_step(names: Seq<SerializableAuditBlobName>, upto: nat, epoch: u64)
    requires
        upto < names.len(),
    ensures
        named_among(names, upto + 1, epoch) <==> (named_among(names, upto, epoch) || names[upto as int].epoch
            == epoch),
{
    if named_among(names, upto + 1, epoch) {
        let j = choose|j: int| 0 <= j < upto + 1 && (#[trigger] names[j]).epoch == epoch;
        if j < upto {
            assert(named_among(names, upto, epoch));
        }
    }
    if named_among(names, upto, epoch) {
        let j = choose|j: int| 0 <= j < upto && (#[trigger] names[j]).epoch == epoch;
        assert(0 <= j < upto + 1 && names[j].epoch == epoch);
    }
    if names[upto as int].epoch == epoch {
        assert(0 <= upto < upto + 1 && names[upto as int].epoch == epoch);
    }
}

/// Signatures that are kept through one step and through the next are kept
/// through both.
pub proof fn lemma_signatures_kept(
    first: Map<u64, EpochSignatureView>,
    second: Map<u64, EpochSignatureView>,
    third: Map<u64, EpochSignatureView>,
)
    requires
        first.submap_of(second),
        second.submap_of(third),
    ensures
        first.submap_of(third),
{
    assert forall|epoch: u64| #[trigger] first.dom().contains(epoch) implies third.dom().contains(
        epoch,
    ) && first[epoch] == third[epoch] by {
        assert(second.dom().contains(epoch));
    }
}

/// Whether the first `upto` of the names were processed with success, one
/// after the other, and that led from `before` to `after`.
pub open spec fn audited_through(
    before: AuditorView,
    after: AuditorView,
    info: NamespaceInfoView,
    names: Seq<SerializableAuditBlobName>,
    upto: nat,
) -> bool
    decreases upto,
{
    if upto == 0 {
        after == before
    } else {
        exists|middle: AuditorView|
            audited_through(before, middle, info, names, (upto - 1) as nat) && #[trigger] processed(
                middle,
                after,
                info,
                names[upto - 1].epoch,
                names[upto - 1].previous_hash@,
                Ok(()),
            )
    }
}

/// Whether one of the first `upto` names is for `epoch`.
pub open spec fn named_among(names: Seq<SerializableAuditBlobName>, upto: nat, epoch: u64) -> bool {
    exists|j: int| 0 <= j < upto && (#[trigger] names[j]).epoch == epoch
}

/// Whether the signature of `epoch` is stored once the first `upto` names
/// have been processed with success: it was stored before, or the epoch is
/// not before the starting epoch and one of those names is for it.
pub open spec fn stored_through(
    signatures: Map<u64, EpochSignatureView>,
    starting_epoch: u64,
    names: Seq<SerializableAuditBlobName>,
    upto: nat,
    epoch: u64,
) -> bool {
    signatures.contains_key(epoch) || (epoch >= starting_epoch && named_among(names, upto, epoch))
}

/// The epoch that was audited last among the first `upto` names: that of
/// the last name whose epoch is not before the starting epoch and whose
/// signature was not stored when its turn came.
pub open spec fn last_audited(
    signatures: Map<u64, EpochSignatureView>,
    starting_epoch: u64,
    names: Seq<SerializableAuditBlobName>,
    upto: nat,
) -> Option<u64>
    decreases upto,
{
    if upto == 0 {
        None
    } else if !stored_through(signatures, starting_epoch, names, (upto - 1) as nat, names[upto - 1].epoch)
        && names[upto - 1].epoch >= starting_epoch {
        Some(names[upto - 1].epoch)
    } else {
        last_audited(signatures, starting_epoch, names, (upto - 1) as nat)
    }
}

/// What is recorded of the namespaces once the first `upto` names have
/// been processed with success: the epoch that was audited last is the
/// last verified epoch of the namespace `info`.
pub open spec fn recorded_through(
    before: AuditorView,
    info: NamespaceInfoView,
    names: Seq<SerializableAuditBlobName>,
    upto: nat,
) -> Map<Seq<char>, NamespaceInfoView> {
    match last_audited(before.signatures, info.starting_epoch@, names, upto) {
        Some(epoch) => before.namespaces.insert(info.name, verified_up_to(info, epoch)),
        None => before.namespaces,
    }
}

/// Whether the audit of the names failed at the name at position `at`
/// with `error`: the names before it were processed with success, this one
/// was processed and failed, the failure was handled, and no name after it
/// was touched.
pub open spec fn failed_at(
    before: AuditorView,
    after: AuditorView,
    info: NamespaceInfoView,
    names: Seq<SerializableAuditBlobName>,
    at: int,
    error: AuditError,
) -> bool {
    let start = info.starting_epoch@;
    &&& 0 <= at < names.len()
    &&& exists|reached: AuditorView, failed: AuditorView, handled: Result<(), AuditError>|
        #![trigger audited_through(before, reached, info, names, at as nat), failure_handled(failed, after, info, error, handled)]
        audited_through(before, reached, info, names, at as nat) && processed(
            reached,
            failed,
            info,
            names[at].epoch,
            names[at].previous_hash@,
            Err(error),
        ) && failure_handled(failed, after, info, error, handled)
    // The names before the one that failed are signed, and no name after
    // it is.
    &&& forall|i: int|
        0 <= i < at && (#[trigger] names[i]).epoch >= start ==> after.signatures.contains_key(
            names[i].epoch,
        )
    &&& forall|epoch: u64| #[trigger]
        after.signatures.contains_key(epoch) ==> stored_through(
            before.signatures,
            start,
            names,
            (at + 1) as nat,
            epoch,
        )
    // The namespace takes the status that the failure calls for, with the
    // last verified epoch that it had; where the failure calls for none,
    // or the status could not be recorded, what was recorded up to the
    // failure stays.
    &&& match error.status_after() {
        Some(status) => after.namespaces == before.namespaces.insert(
            info.name,
            failed_with(info, status),
        ) || (after.namespaces == recorded_through(before, info, names, at as nat) && !(
        before.dependable && before.namespaces.contains_key(info.name))),
        None => after.namespaces == recorded_through(before, info, names, at as nat),
    }
}

/// What `audit_polled` does with the names that a poll brought for the
/// namespace `info`: it audits them in order and stops at the first
/// failure, which it records and reports with the epoch of the name that
/// failed.
pub open spec fn polled_audited(
    before: AuditorView,
    after: AuditorView,
    info: NamespaceInfoView,
    names: Seq<SerializableAuditBlobName>,
    r: Result<usize, CycleError>,
) -> bool {
    &&& after.same_settings(before)
    &&& before.keys.submap_of(after.keys)
    &&& before.signatures.submap_of(after.signatures)
    &&& match r {
        Ok(count) => {
            &&& count == names.len()
            &&& audited_through(before, after, info, names, names.len())
            // Every name not before the starting epoch is signed, and
            // nothing else is.
            &&& forall|i: int|
                0 <= i < names.len() && (#[trigger] names[i]).epoch >= info.starting_epoch@
                    ==> after.signatures.contains_key(names[i].epoch)
            &&& forall|epoch: u64| #[trigger]
                after.signatures.contains_key(epoch) ==> stored_through(
                    before.signatures,
                    info.starting_epoch@,
                    names,
                    names.len(),
                    epoch,
                )
            &&& after.namespaces == recorded_through(before, info, names, names.len())
        },
        Err(CycleError::AuditFailed { epoch, namespace, error }) => namespace@ == info.name
            && exists|at: int|
            0 <= at < names.len() && (#[trigger] names[at]).epoch == epoch && failed_at(
                before,
                after,
                info,
                names,
                at,
                error,
            ),
        Err(_) => false,
    }
    &&& names.len() == 0 ==> after.same_records(before)
    // What holds of the stored signatures keeps holding.
    &&& all_verify(before.signatures, before.keys) ==> all_verify(after.signatures, after.keys)
    &&& chain_closed(before.signatures, info.starting_epoch@) ==> chain_closed(
        after.signatures,
        info.starting_epoch@,
    )
    // Where `info` is what is recorded of the audited namespace, the
    // namespace stays recorded; its status changes only on a failure, to
    // the status that the failure calls for.
    &&& before.known() && before.recorded() == info && info.name == before.namespace_name ==> {
        &&& after.known()
        &&& after.recorded().starting_epoch == info.starting_epoch
        &&& r is Ok ==> after.recorded().status == info.status
        &&& r matches Err(CycleError::AuditFailed { error, .. }) ==> after.recorded().status
            == info.status || error.status_after() == Some(after.recorded().status)
        &&& history_complete(info, before.signatures) ==> history_complete(
            after.recorded(),
            after.signatures,
        ) && not_before(info.last_verified_epoch, after.recorded().last_verified_epoch)
    }
}

/// Where the names are for consecutive epochs from the starting epoch on,
/// and no signature of the starting epoch or a later one was stored, an
/// audit of the names that ran through has signed exactly their epochs, and
/// the last of them is the last verified epoch.
pub proof fn lemma_first_audit_signs_every_name(
    before: AuditorView,
    after: AuditorView,
    info: NamespaceInfoView,
    names: Seq<SerializableAuditBlobName>,
    r: Result<usize, CycleError>,
)
    requires
        polled_audited(before, after, info, names, r),
        r is Ok,
        names.len() > 0,
        forall|i: int| 0 <= i < names.len() ==> (#[trigger] names[i]).epoch == info.starting_epoch@ + i,
        forall|epoch: u64| #[trigger]
            before.signatures.contains_key(epoch) ==> epoch < info.starting_epoch@,
    ensures
        r == Ok::<usize, CycleError>(names.len() as usize),
        forall|epoch: u64|
            info.starting_epoch@ <= epoch < info.starting_epoch@ + names.len()
                ==> #[trigger] after.signatures.contains_key(epoch),
        forall|epoch: u64| #[trigger]
            after.signatures.contains_key(epoch) ==> before.signatures.contains_key(epoch) || (
            info.starting_epoch@ <= epoch < info.starting_epoch@ + names.len()),
        after.namespaces == before.namespaces.insert(
            info.name,
            verified_up_to(info, (info.starting_epoch@ + names.len() - 1) as u64),
        ),
{
    let start = info.starting_epoch@;
    let last = names[names.len() - 1].epoch;
    assert forall|epoch: u64| start <= epoch < start + names.len() implies #[trigger]
        after.signatures.contains_key(epoch) by {
        assert(names[epoch - start].epoch == epoch);
    }
    assert forall|epoch: u64| #[trigger] after.signatures.contains_key(epoch) implies (
    before.signatures.contains_key(epoch) || (start <= epoch < start + names.len())) by {
        if !before.signatures.contains_key(epoch) {
            let j = choose|j: int| 0 <= j < names.len() && (#[trigger] names[j]).epoch == epoch;
        }
    }
    assert(!named_among(names, (names.len() - 1) as nat, last)) by {
        if named_among(names, (names.len() - 1) as nat, last) {
            let j = choose|j: int| 0 <= j < names.len() - 1 && (#[trigger] names[j]).epoch == last;
        }
    }
}

/// The epoch that was audited last is that of one of the names, and is
/// not before the starting epoch.
pub proof fn lemma_last_audited_is_named(
    signatures: Map<u64, EpochSignatureView>,
    starting_epoch: u64,
    names: Seq<SerializableAuditBlobName>,
    upto: nat,
)
    requires
        upto <= names.len(),
    ensures
        last_audited(signatures, starting_epoch, names, upto) matches Some(epoch) ==> epoch
            >= starting_epoch && named_among(names, upto, epoch),
    decreases upto,
{
    if upto > 0 {
        lemma_last_audited_is_named(signatures, starting_epoch, names, (upto - 1) as nat);
        let found = last_audited(signatures, starting_epoch, names, upto);
        if found is Some {
            if found == last_audited(signatures, starting_epoch, names, (upto - 1) as nat) {
                let j = choose|j: int| 0 <= j < upto - 1 && (#[trigger] names[j]).epoch == found->0;
                assert(0 <= j < upto && names[j].epoch == found->0);
            } else {
                assert(names[upto - 1].epoch == found->0);
            }
        }
    }
}

/// Whether the signature of every epoch from the starting epoch up to the
/// last verified one is stored.
pub open spec fn covered(info: NamespaceInfoView, signatures: Map<u64, EpochSignatureView>) -> bool {
    info.last_verified_epoch matches Some(last) ==> last@ >= info.starting_epoch@ && forall|
        epoch: u64,
    |
        info.starting_epoch@ <= epoch <= last@ ==> #[trigger] signatures.contains_key(epoch)
}

/// Where the signature of every epoch from the starting epoch up to the
/// last verified one is stored, and the names are for consecutive epochs
/// from the epoch after the last verified one on, then after the audit of
/// the names, however it ended, that is still so, and the last verified
/// epoch has not gone back: no epoch is recorded before the epochs that
/// precede it.
pub proof fn lemma_audit_in_order_leaves_no_gap(
    before: AuditorView,
    after: AuditorView,
    info: NamespaceInfoView,
    names: Seq<SerializableAuditBlobName>,
    r: Result<usize, CycleError>,
)
    requires
        polled_audited(before, after, info, names, r),
        before.known(),
        before.recorded() == info,
        info.name == before.namespace_name,
        covered(info, before.signatures),
        names.len() > 0 ==> info.next_epoch() is Some,
        forall|i: int|
            0 <= i < names.len() ==> (#[trigger] names[i]).epoch == info.next_epoch()->0 + i,
    ensures
        after.known(),
        covered(after.recorded(), after.signatures),
        not_before(info.last_verified_epoch, after.recorded().last_verified_epoch),
{
    let start = info.starting_epoch@;
    let upto: nat = match r {
        Ok(_) => names.len(),
        Err(_) => (choose|at: int|
            0 <= at < names.len() && (#[trigger] names[at]).epoch == r->Err_0->AuditFailed_epoch
                && failed_at(before, after, info, names, at, r->Err_0->AuditFailed_error)) as nat,
    };
    assert(upto <= names.len());
    assert forall|epoch: u64| #[trigger] before.signatures.contains_key(epoch) implies after.signatures.contains_key(
        epoch,
    ) by {
        assert(before.signatures.dom().contains(epoch));
    }
    if info.last_verified_epoch is Some {
        assert forall|epoch: u64|
            start <= epoch <= info.last_verified_epoch->0@ implies #[trigger] after.signatures.contains_key(
            epoch,
        ) by {
            assert(before.signatures.contains_key(epoch));
        }
    }
    assert(covered(info, after.signatures));
    lemma_last_audited_is_named(before.signatures, start, names, upto);
    let audited = last_audited(before.signatures, start, names, upto);
    if audited is Some && after.namespaces == recorded_through(before, info, names, upto) {
        let last = audited->0;
        let first = info.next_epoch()->0;
        let m = choose|j: int| 0 <= j < upto && (#[trigger] names[j]).epoch == last;
        assert forall|epoch: u64| start <= epoch <= last implies #[trigger] after.signatures.contains_key(
            epoch,
        ) by {
            if epoch >= first {
                assert(names[epoch - first].epoch == epoch);
            }
        }
    }
}

/// Whether `names` is what a poll for the namespace `info` can bring from a
/// directory: at most `MAX_EPOCHS_PER_POLL` names, none where there is no
/// next epoch, and, where the directory says what it lists, the run of
/// listed names from the next epoch on.
pub open spec fn polled_for(
    listing: Option<Map<u64, BlobNameView>>,
    info: NamespaceInfoView,
    names: Seq<SerializableAuditBlobName>,
) -> bool {
    &&& names.len() <= MAX_EPOCHS_PER_POLL
    &&& info.next_epoch() is None ==> names.len() == 0
    &&& listing matches Some(listed) ==> (info.next_epoch() matches Some(first) ==> name_views(
        names,
    ) == listed_run(listed, first, MAX_EPOCHS_PER_POLL as nat))
}

/// What `run_audit_cycle` does with a namespace that it audits: the names
/// that the poll brought for what was recorded of the namespace are audited
/// as `polled_audited` says, and the result is theirs.
pub open spec fn cycle_audited(
    before: AuditorView,
    after: AuditorView,
    listing: Option<Map<u64, BlobNameView>>,
    r: Result<usize, CycleError>,
) -> bool {
    r is Ok || (r is Err && r->Err_0 is AuditFailed) ==> exists|
        names: Seq<SerializableAuditBlobName>,
    |
        polled_for(listing, before.recorded(), names) && #[trigger] polled_audited(
            before,
            after,
            before.recorded(),
            names,
            r,
        )
}

/// What `run_audit_cycle` does.
pub open spec fn cycled(before: AuditorView, after: AuditorView, r: Result<usize, CycleError>) -> bool {
    &&& after.same_settings(before)
    &&& before.keys.submap_of(after.keys)
    &&& before.signatures.submap_of(after.signatures)
    &&& r matches Ok(count) ==> count <= MAX_EPOCHS_PER_POLL
    // Each way to end says what was found.
    &&& match r {
        Ok(_) => before.known() && before.recorded().status.active() && after.known()
            && after.recorded().status == before.recorded().status,
        Err(CycleError::NamespaceNotFound(name)) => !before.known() && name@
            == before.namespace_name,
        Err(CycleError::NamespaceNotActive { name, status }) => before.known()
            && !before.recorded().status.active() && name@ == before.namespace_name && status
            == before.recorded().status,
        Err(CycleError::NamespaceRepository(_)) => !before.dependable && after.same_records(
            before,
        ),
        Err(CycleError::AuditFailed { namespace, .. }) => before.known()
            && before.recorded().status.active() && namespace@ == before.namespace_name,
    }
    // A namespace that is unknown or not active is not audited.
    &&& !before.known() ==> (r matches Err(e) && (e is NamespaceNotFound || e
        is NamespaceRepository))
    &&& before.known() && !before.recorded().status.active() ==> (r matches Err(e) && (e
        is NamespaceNotActive || e is NamespaceRepository))
    &&& !before.known() || !before.recorded().status.active() ==> after.same_records(before)
    // A failed audit leaves the status that the failure calls for, unless
    // that status could not be recorded.
    &&& r matches Err(CycleError::AuditFailed { error, .. }) ==> before.known() && after.known()
        && (after.recorded().status == before.recorded().status || error.status_after() == Some(
        after.recorded().status,
    ))
    // What holds of the stored signatures keeps holding.
    &&& all_verify(before.signatures, before.keys) ==> all_verify(after.signatures, after.keys)
    &&& before.known() && history_complete(before.recorded(), before.signatures) ==> after.known()
        && history_complete(after.recorded(), after.signatures) && not_before(
        before.recorded().last_verified_epoch,
        after.recorded().last_verified_epoch,
    )
}

/// Where the history of a namespace is complete before an audit cycle, then
/// after it, however it ended, the last verified epoch has not gone back,
/// and the signature of every epoch from the starting epoch up to it is
/// stored.
pub proof fn lemma_cycle_keeps_history(
    before: AuditorView,
    after: AuditorView,
    r: Result<usize, CycleError>,
    epoch: u64,
)
    requires
        cycled(before, after, r),
        before.known(),
        history_complete(before.recorded(), before.signatures),
    ensures
        after.known(),
        not_before(before.recorded().last_verified_epoch, after.recorded().last_verified_epoch),
        after.recorded().last_verified_epoch matches Some(last) ==> last@
            >= after.recorded().starting_epoch@ && (after.recorded().starting_epoch@ <= epoch
            <= last@ ==> after.signatures.contains_key(epoch)),
{
    if after.recorded().last_verified_epoch matches Some(last) && after.recorded().starting_epoch@
        <= epoch <= last@ {
        lemma_history_has_every_epoch(after.recorded(), after.signatures, epoch);
    }
}

/// What the audit of one namespace works with.
pub struct NamespaceAuditor<NR, SKR, SS> {
    pub namespace_name: String,
    pub namespace_repository: NR,
    pub signing_key_repository: SKR,
    pub signature_storage: SS,
    /// How long to sleep between cycles, in milliseconds.
    pub sleep_duration: u64,
}

impl<NR: NamespaceRepository, SKR: SigningKeyRepository, SS: SignatureRepository> View for NamespaceAuditor<
    NR,
    SKR,
    SS,
> {
    type V = AuditorView;

    open spec fn view(&self) -> AuditorView {
        AuditorView {
            namespace_name: self.namespace_name@,
            namespaces: self.namespace_repository.namespaces(),
            keys: self.signing_key_repository.verifying_keys(),
            signatures: self.signature_storage.signatures(),
            sleep_duration: self.sleep_duration,
            current_key_id: self.signing_key_repository.current_key_id(),
            dependable: self.namespace_repository.dependable()
                && self.signing_key_repository.dependable() && self.signature_storage.dependable(),
        }
    }
}

impl<NR: NamespaceRepository, SKR: SigningKeyRepository, SS: SignatureRepository> NamespaceAuditor<
    NR,
    SKR,
    SS,
> {
    pub fn new(
        namespace_info: NamespaceInfo,
        namespace_repository: NR,
        signing_key_repository: SKR,
        signature_storage: SS,
        sleep_duration: u64,
    ) -> (auditor: Self)
        ensures
            auditor.namespace_name@ == namespace_info@.name,
            auditor.namespace_repository == namespace_repository,
            auditor.signing_key_repository == signing_key_repository,
            auditor.signature_storage == signature_storage,
            auditor.sleep_duration == sleep_duration,
    {
        NamespaceAuditor {
            namespace_name: namespace_info.name.clone(),
            namespace_repository,
            signing_key_repository,
            signature_storage,
            sleep_duration,
        }
    }

    /// How long to sleep after a cycle that processed `processed_count`
    /// epochs: the configured time, or next to nothing after a full poll.
    pub fn sleep_duration_after(&self, processed_count: usize) -> (millis: u64)
        ensures
            millis == (if processed_count == MAX_EPOCHS_PER_POLL {
                BACKLOG_SLEEP_MILLIS
            } else {
                self.sleep_duration
            }),
    {
        if processed_count != MAX_EPOCHS_PER_POLL {
            self.sleep_duration
        } else {
            BACKLOG_SLEEP_MILLIS
        }
    }

    /// Whether a poll that has collected `collected` names asks the
    /// directory about another epoch.
    pub fn poll_wants_more(collected: usize) -> (more: bool)
        ensures
            more == (collected < MAX_EPOCHS_PER_POLL),
    {
        collected < MAX_EPOCHS_PER_POLL
    }

    /// What a poll makes of the directory's answer about `epoch`. A name
    /// that the directory lists is collected, and the poll goes on with the
    /// epoch after, if there is one. Where the directory lists nothing for
    /// the epoch, or cannot tell the name, the poll ends.
    pub fn poll_step(
        collected: &mut Vec<SerializableAuditBlobName>,
        epoch: Epoch,
        answer: DirectoryAnswer,
    ) -> (next: Option<Epoch>)
        ensures
            match answer {
                DirectoryAnswer::Listed(name) => final(collected)@ == old(collected)@.push(name)
                    && next == (if epoch@ < u64::MAX {
                    Some(Epoch((epoch@ + 1) as u64))
                } else {
                    None
                }),
                _ => final(collected)@ == old(collected)@ && next is None,
            },
    {
        match answer {
            DirectoryAnswer::Listed(name) => {
                collected.push(name);
                epoch.checked_next()
            },
            DirectoryAnswer::NotListed => None,
            DirectoryAnswer::NameUnavailable => None,
        }
    }

    /// Asks the directory about an epoch: whether it lists a proof for it,
    /// and if so, under which name.
    pub fn ask_directory<A: AkdStorage>(akd: &A, epoch: Epoch) -> (answer: DirectoryAnswer)
        ensures
            akd.listing() matches Some(names) ==> match answer {
                DirectoryAnswer::Listed(name) => names.contains_key(epoch@) && names[epoch@]
                    == name@,
                DirectoryAnswer::NotListed => !names.contains_key(epoch@),
                DirectoryAnswer::NameUnavailable => false,
            },
    {
        if !akd.has_proof(&epoch.0) {
            return DirectoryAnswer::NotListed;
        }
        DirectoryAnswer::of_listed(akd.get_proof_name(&epoch.0))
    }

    /// The names of the proofs that the directory lists for the epochs
    /// after the last verified one, in order, up to the first epoch that it
    /// does not list and at most `MAX_EPOCHS_PER_POLL` of them. The first
    /// epoch asked about is the one after the last verified epoch, or the
    /// starting epoch where nothing has been verified yet.
    pub fn poll_for_new_epochs<A: AkdStorage>(&self, akd: &A, namespace_info: &NamespaceInfo) -> (r:
        Vec<SerializableAuditBlobName>)
        ensures
            r@.len() <= MAX_EPOCHS_PER_POLL,
            namespace_info@.next_epoch() is None ==> r@.len() == 0,
            akd.listing() matches Some(names) ==> (namespace_info@.next_epoch() matches Some(
                first,
            ) ==> name_views(r@) == listed_run(names, first, MAX_EPOCHS_PER_POLL as nat)),
            polled_for(akd.listing(), namespace_info@, r@),
    {
        let mut result: Vec<SerializableAuditBlobName> = Vec::new();
        let mut next_epoch = match namespace_info.next_epoch_to_audit() {
            Some(next) => next,
            None => {
                return result;
            },
        };
        let ghost first = next_epoch@;
        let ghost limit = MAX_EPOCHS_PER_POLL as nat;
        assert(name_views(result@) =~= Seq::empty());
        loop
            invariant_except_break
                akd.listing() matches Some(names) ==> name_views(result@) + listed_run(
                    names,
                    next_epoch@,
                    (limit - result@.len()) as nat,
                ) == listed_run(names, first, limit),
            invariant
                result@.len() <= MAX_EPOCHS_PER_POLL,
                limit == MAX_EPOCHS_PER_POLL as nat,
            ensures
                akd.listing() matches Some(names) ==> name_views(result@) == listed_run(
                    names,
                    first,
                    limit,
                ),
            decreases MAX_EPOCHS_PER_POLL - result@.len(),
        {
            if !Self::poll_wants_more(result.len()) {
                assert(name_views(result@) + Seq::empty() =~= name_views(result@));
                break ;
            }
            let ghost collected = result@;
            let answer = Self::ask_directory(akd, next_epoch);
            match Self::poll_step(&mut result, next_epoch, answer) {
                Some(next) => {
                    proof {
                        if akd.listing() is Some {
                            let names = akd.listing()->0;
                            let name = names[next_epoch@];
                            assert(name_views(result@) =~= name_views(collected).push(name));
                            assert(name_views(result@) + listed_run(
                                names,
                                next@,
                                (limit - result@.len()) as nat,
                            ) =~= name_views(collected) + listed_run(
                                names,
                                next_epoch@,
                                (limit - collected.len()) as nat,
                            ));
                        }
                    }
                    next_epoch = next;
                },
                None => {
                    proof {
                        if akd.listing() is Some {
                            let names = akd.listing()->0;
                            if answer is Listed {
                                assert(name_views(result@) =~= name_views(collected).push(
                                    names[next_epoch@],
                                ));
                                assert(name_views(result@) =~= name_views(collected) + listed_run(
                                    names,
                                    next_epoch@,
                                    (limit - collected.len()) as nat,
                                ));
                            } else {
                                assert(name_views(result@) + Seq::empty() =~= name_views(
                                    result@,
                                ));
                            }
                        }
                    }
                    break ;
                },
            }
        }
        result
    }

    /// The stored signature of an epoch, verified against the keys of the
    /// signing key repository. `Ok(None)` says that none is stored; a
    /// stored signature that does not verify is an error.
    pub fn get_and_verify_signature(&self, epoch: &u64) -> (r: Result<
        Option<EpochSignature>,
        AuditError,
    >)
        ensures
            match r {
                Ok(Some(signature)) => self@.holds_verified(*epoch) && self@.signatures[*epoch]
                    == signature@,
                Ok(None) => !self@.signatures.contains_key(*epoch),
                Err(AuditError::VerifyError(_)) => self@.signatures.contains_key(*epoch)
                    && !self@.holds_verified(*epoch),
                Err(AuditError::SignatureStorageError(_)) => !self@.dependable,
                Err(AuditError::SigningKeyError(_)) => self@.signatures.contains_key(*epoch)
                    && !self@.dependable,
                Err(_) => false,
            },
    {
        let signature = match self.signature_storage.get_signature(epoch) {
            Ok(Some(signature)) => signature,
            Ok(None) => {
                return Ok(None);
            },
            Err(e) => {
                return Err(AuditError::SignatureStorageError(e));
            },
        };
        let verifying_repo = match self.signing_key_repository.verifying_key_repository() {
            Ok(repository) => repository,
            Err(e) => {
                return Err(AuditError::SigningKeyError(e));
            },
        };
        match signature.verify(&verifying_repo) {
            Ok(()) => Ok(Some(signature)),
            Err(e) => Err(AuditError::VerifyError(e)),
        }
    }

    /// The hash against which the proof of an epoch not before the
    /// starting epoch is checked. For the starting epoch it is the previous
    /// hash of the blob's name. For a later epoch it is the digest of the
    /// stored signature of the epoch before, which must be there and must
    /// verify.
    pub fn verification_anchor(
        &self,
        blob_name: &SerializableAuditBlobName,
        namespace_info: &NamespaceInfo,
    ) -> (r: Result<[u8; 32], AuditError>)
        requires
            blob_name.epoch >= namespace_info@.starting_epoch@,
        ensures
            anchored(self@, namespace_info@, blob_name.epoch, blob_name.previous_hash@, r),
    {
        if blob_name.epoch == namespace_info.starting_epoch.0 {
            return Ok(blob_name.previous_hash);
        }
        let previous_epoch: u64 = blob_name.epoch - 1;
        let previous_signature = match self.get_and_verify_signature(&previous_epoch) {
            Ok(Some(signature)) => signature,
            Ok(None) => {
                return Err(AuditError::SignatureNotFound(Epoch(previous_epoch)));
            },
            Err(e) => {
                return Err(e);
            },
        };
        match previous_signature.epoch_root_hash() {
            Ok(hash) => Ok(hash),
            Err(e) => Err(AuditError::BlobHashParseError(e)),
        }
    }

    /// Establishes the anchor, fetches the proof of the named epoch and
    /// checks that it leads from the anchor to the hash that the fetched
    /// blob carries. On success the result is the epoch and that hash. What
    /// the blob says of the previous hash plays no part.
    pub fn verify_blob<A: AkdStorage>(
        &self,
        akd: &A,
        blob_name: &SerializableAuditBlobName,
        namespace_info: &NamespaceInfo,
    ) -> (r: Result<(u64, [u8; 32]), AuditError>)
        requires
            blob_name.epoch >= namespace_info@.starting_epoch@,
        ensures
            blob_verified(self@, namespace_info@, blob_name.epoch, blob_name.previous_hash@, r),
    {
        let anchor = match self.verification_anchor(blob_name, namespace_info) {
            Ok(anchor) => anchor,
            Err(e) => {
                return Err(e);
            },
        };
        let audit_blob = match akd.get_proof(blob_name) {
            Ok(blob) => blob,
            Err(e) => {
                return Err(AuditError::StorageError(e));
            },
        };
        let r = check_fetched_proof(blob_name, namespace_info, anchor, &audit_blob);
        proof {
            if r is Err {
                assert(proof_judged(
                    namespace_info@.configuration,
                    blob_name.epoch,
                    anchor_of(
                        namespace_info@,
                        self@.signatures,
                        blob_name.epoch,
                        blob_name.previous_hash@,
                    ),
                    audit_blob.name.epoch,
                    audit_blob.name.current_hash@,
                    audit_blob.data@,
                    Err(r->Err_0),
                ));
            }
            if r is Ok {
                assert(accepted_from(
                    namespace_info@,
                    self@.signatures,
                    self@.keys,
                    blob_name.epoch,
                    blob_name.previous_hash@,
                    r->Ok_0.1@,
                    audit_blob.data@,
                ));
            }
        }
        r
    }

    /// Signs the root hash of an epoch with the current signing key and
    /// stores the signature under the epoch.
    pub fn sign_blob(&mut self, epoch: u64, root_hash: [u8; 32], namespace_info: &NamespaceInfo) -> (r:
        Result<(), AuditError>)
        ensures
            signed(old(self)@, final(self)@, namespace_info@.name, epoch, root_hash@, r),
    {
        let current_signing_key = match self.signing_key_repository.get_current_signing_key() {
            Ok(key) => key,
            Err(e) => {
                return Err(AuditError::SigningKeyError(e));
            },
        };
        let signature = match EpochSignature::sign(
            namespace_info.clone(),
            Epoch(epoch),
            root_hash,
            &current_signing_key,
        ) {
            Ok(signature) => signature,
            Err(e) => {
                return Err(AuditError::SignError(e));
            },
        };
        let ghost stored = signature@;
        match self.signature_storage.set_signature(&epoch, signature) {
            Ok(()) => {
                assert(newly_signed(old(self)@, self@, namespace_info@.name, epoch, stored));
                Ok(())
            },
            Err(e) => Err(AuditError::SignatureStorageError(e)),
        }
    }

    /// Audits the proof of one epoch. An epoch before the starting epoch
    /// is passed over, and so is an epoch whose signature is stored and
    /// verifies. Otherwise the proof is checked against the anchor, the
    /// root hash is signed, the signature is stored, and the epoch becomes
    /// the namespace's last verified epoch.
    pub fn process_audit_request<A: AkdStorage>(
        &mut self,
        akd: &A,
        blob_name: &SerializableAuditBlobName,
        namespace_info: &NamespaceInfo,
    ) -> (r: Result<(), AuditError>)
        ensures
            processed(
                old(self)@,
                final(self)@,
                namespace_info@,
                blob_name.epoch,
                blob_name.previous_hash@,
                r,
            ),
    {
        if blob_name.epoch < namespace_info.starting_epoch.0 {
            return Ok(());
        }
        match self.get_and_verify_signature(&blob_name.epoch) {
            Ok(Some(_)) => {
                return Ok(());
            },
            Ok(None) => {},
            Err(e) => {
                return Err(e);
            },
        }
        let (end_epoch, end_hash) = match self.verify_blob(akd, blob_name, namespace_info) {
            Ok(verified) => verified,
            Err(e) => {
                return Err(e);
            },
        };
        let ghost before = self@;
        match self.sign_blob(end_epoch, end_hash, namespace_info) {
            Ok(()) => {},
            Err(e) => {
                proof {
                    if all_verify(before.signatures, before.keys) {
                        assert forall|epoch: u64| #[trigger]
                            before.signatures.contains_key(
                                epoch,
                            ) implies before.signatures[epoch].verifies_under(self@.keys) by {
                            lemma_verifies_under_more_keys(
                                before.signatures[epoch],
                                before.keys,
                                self@.keys,
                            );
                        }
                    }
                }
                return Err(e);
            },
        }
        let ghost stored = choose|signature: EpochSignatureView| #[trigger]
            newly_signed(before, self@, namespace_info@.name, end_epoch, signature)
                && signature.digest == end_hash@;
        proof {
            if all_verify(before.signatures, before.keys) {
                lemma_all_verify_after_signing(
                    before.signatures,
                    before.keys,
                    self@.keys,
                    end_epoch,
                    stored,
                );
            }
            if chain_closed(before.signatures, namespace_info@.starting_epoch@) {
                lemma_chain_stays_closed(
                    before.signatures,
                    namespace_info@.starting_epoch@,
                    end_epoch,
                    stored,
                );
            }
        }
        let r = match self.namespace_repository.update_namespace(
            namespace_info.update_last_verified_epoch(Epoch(end_epoch)),
        ) {
            Ok(()) => Ok(()),
            Err(e) => Err(AuditError::NamespaceRepositoryError(e)),
        };
        assert(newly_signed(old(self)@, self@, namespace_info@.name, blob_name.epoch, stored));
        r
    }

    /// Records the failure of an audit: the namespace takes the status
    /// that the error calls for, if it calls for one.
    pub fn handle_audit_failure(
        &mut self,
        namespace_info: &NamespaceInfo,
        blob_name: &SerializableAuditBlobName,
        error: &AuditError,
    ) -> (r: Result<(), AuditError>)
        ensures
            failure_handled(old(self)@, final(self)@, namespace_info@, *error, r),
    {
        match error.failure_status() {
            None => Ok(()),
            Some(status) => match self.namespace_repository.update_namespace(
                namespace_info.update_status(status),
            ) {
                Ok(()) => Ok(()),
                Err(e) => Err(AuditError::NamespaceRepositoryError(e)),
            },
        }
    }

    /// The namespace as the repository holds it now.
    pub fn get_fresh_namespace_info(&self) -> (r: Result<NamespaceInfo, CycleError>)
        ensures
            match r {
                Ok(info) => self@.known() && self@.recorded() == info@ && info@.name
                    == self@.namespace_name,
                Err(CycleError::NamespaceNotFound(name)) => name@ == self@.namespace_name
                    && !self@.known(),
                Err(e) => e is NamespaceRepository && !self@.dependable,
            },
    {
        match self.namespace_repository.get_namespace_info(self.namespace_name.as_str()) {
            Ok(Some(info)) => Ok(info),
            Ok(None) => Err(CycleError::NamespaceNotFound(self.namespace_name.clone())),
            Err(e) => Err(CycleError::NamespaceRepository(e)),
        }
    }

    /// One audit cycle: reads the namespace afresh, refuses to audit a
    /// namespace that is not active, polls the directory and audits the
    /// proofs it lists, in order. The first failure is recorded and ends
    /// the cycle. On success the result is the number of proofs that the
    /// poll brought.
    pub fn run_audit_cycle<A: AkdStorage>(&mut self, akd: &A) -> (r: Result<usize, CycleError>)
        ensures
            cycled(old(self)@, final(self)@, r),
            cycle_audited(old(self)@, final(self)@, akd.listing(), r),
    {
        let namespace_info = match self.get_fresh_namespace_info() {
            Ok(info) => info,
            Err(e) => {
                return Err(e);
            },
        };
        if !namespace_info.status.is_active() {
            return Err(
                CycleError::NamespaceNotActive {
                    name: namespace_info.name.clone(),
                    status: namespace_info.status,
                },
            );
        }
        let blob_names = self.poll_for_new_epochs(akd, &namespace_info);
        let r = self.audit_polled(akd, &namespace_info, &blob_names);
        assert(polled_for(akd.listing(), old(self)@.recorded(), blob_names@) && polled_audited(
            old(self)@,
            self@,
            old(self)@.recorded(),
            blob_names@,
            r,
        ));
        r
    }

    /// Audits the proofs that a poll brought, in order. The first failure
    /// is recorded and ends the audit. On success the result is the number
    /// of the names.
    pub fn audit_polled<A: AkdStorage>(
        &mut self,
        akd: &A,
        namespace_info: &NamespaceInfo,
        blob_names: &Vec<SerializableAuditBlobName>,
    ) -> (r: Result<usize, CycleError>)
        ensures
            polled_audited(old(self)@, final(self)@, namespace_info@, blob_names@, r),
    {
        let ghost start = old(self)@;
        let ghost info = namespace_info@;
        let ghost first = info.starting_epoch@;
        let ghost names = blob_names@;
        let ghost recorded = start.known() && start.recorded() == info && info.name
            == start.namespace_name;
        let mut i: usize = 0;
        while i < blob_names.len()
            invariant
                i <= blob_names@.len(),
                start == old(self)@,
                info == namespace_info@,
                first == info.starting_epoch@,
                names == blob_names@,
                recorded == (start.known() && start.recorded() == info && info.name
                    == start.namespace_name),
                self@.same_settings(start),
                start.keys.submap_of(self@.keys),
                start.signatures.submap_of(self@.signatures),
                audited_through(start, self@, info, names, i as nat),
                forall|epoch: u64| #[trigger]
                    self@.signatures.contains_key(epoch) <==> stored_through(
                        start.signatures,
                        first,
                        names,
                        i as nat,
                        epoch,
                    ),
                self@.namespaces == recorded_through(start, info, names, i as nat),
                all_verify(start.signatures, start.keys) ==> all_verify(
                    self@.signatures,
                    self@.keys,
                ),
                chain_closed(start.signatures, first) ==> chain_closed(self@.signatures, first),
                recorded ==> self@.known() && self@.recorded().starting_epoch
                    == info.starting_epoch && self@.recorded().status == info.status,
                recorded && history_complete(info, start.signatures) ==> history_complete(
                    self@.recorded(),
                    self@.signatures,
                ) && not_before(info.last_verified_epoch, self@.recorded().last_verified_epoch),
            decreases blob_names@.len() - i,
        {
            let blob_name = blob_names[i];
            let ghost before = self@;
            let r = self.process_audit_request(akd, &blob_name, namespace_info);
            proof {
                lemma_keys_kept(start.keys, before.keys, self@.keys);
                lemma_signatures_kept(start.signatures, before.signatures, self@.signatures);
                if recorded && history_complete(info, start.signatures)
                    && info.last_verified_epoch is Some && !before.signatures.contains_key(
                    blob_name.epoch,
                ) && blob_name.epoch >= info.starting_epoch@ && blob_name.epoch
                    <= info.last_verified_epoch->0@ {
                    assert(before.signatures.dom().contains(info.last_verified_epoch->0@));
                    lemma_chain_is_complete(
                        before.signatures,
                        info.starting_epoch@,
                        info.last_verified_epoch->0@,
                        blob_name.epoch,
                    );
                }
                assert(names[i as int].epoch == blob_name.epoch);
                assert forall|epoch: u64|
                    named_among(names, (i + 1) as nat, epoch) <==> (named_among(
                        names,
                        i as nat,
                        epoch,
                    ) || epoch == blob_name.epoch) by {
                    lemma_named_among_step(names, i as nat, epoch);
                }
            }
            match r {
                Ok(()) => {
                    proof {
                        if blob_name.epoch >= first && !before.signatures.contains_key(
                            blob_name.epoch,
                        ) {
                            assert(self@.signatures.contains_key(blob_name.epoch));
                            let signature = choose|signature: EpochSignatureView| #[trigger]
                                newly_signed(before, self@, info.name, blob_name.epoch, signature);
                            assert(self@.signatures == before.signatures.insert(
                                blob_name.epoch,
                                signature,
                            ));
                            assert(self@.namespaces =~= recorded_through(
                                start,
                                info,
                                names,
                                (i + 1) as nat,
                            ));
                        }
                        assert(r == Ok::<(), AuditError>(r->Ok_0));
                        assert(audited_through(start, before, info, names, ((i + 1) as nat - 1) as nat)
                            && processed(
                            before,
                            self@,
                            info,
                            names[(i + 1) as nat - 1].epoch,
                            names[(i + 1) as nat - 1].previous_hash@,
                            Ok(()),
                        ));
                        assert(audited_through(start, self@, info, names, (i + 1) as nat));
                    }
                },
                Err(e) => {
                    let ghost failed = self@;
                    let handled = self.handle_audit_failure(namespace_info, &blob_name, &e);
                    proof {
                        assert(processed(
                            before,
                            failed,
                            info,
                            names[i as int].epoch,
                            names[i as int].previous_hash@,
                            Err(e),
                        ));
                        assert(audited_through(start, before, info, names, i as nat)
                            && failure_handled(failed, self@, info, e, handled));
                        if e.status_after() is Some && handled is Ok {
                            assert(self@.namespaces =~= start.namespaces.insert(
                                info.name,
                                failed_with(info, e.status_after()->0),
                            ));
                        }
                        assert(failed_at(start, self@, info, names, i as int, e));
                    }
                    return Err(
                        CycleError::AuditFailed {
                            epoch: blob_name.epoch,
                            namespace: namespace_info.name.clone(),
                            error: e,
                        },
                    );
                },
            }
            i = i + 1;
        }
        Ok(blob_names.len())
    }

    /// Runs one audit cycle, as `run_audit_cycle` does, and says what the
    /// worker does next: sleep and go on after a cycle that ran through,
    /// stop after one that failed.
    pub fn audit_cycle<A: AkdStorage>(&mut self, akd: &A) -> (next: AfterCycle)
        ensures
            exists|r: Result<usize, CycleError>| #[trigger]
                cycled(old(self)@, final(self)@, r) && cycle_audited(
                    old(self)@,
                    final(self)@,
                    akd.listing(),
                    r,
                ) && next == AfterCycle::following(r, old(self).sleep_duration),
            final(self)@.same_settings(old(self)@),
            old(self)@.keys.submap_of(final(self)@.keys),
            next matches AfterCycle::Sleep(millis) ==> millis == BACKLOG_SLEEP_MILLIS || millis
                == old(self).sleep_duration,
            !old(self)@.known() || !old(self)@.recorded().status.active() ==> next is Stop
                && final(self)@.same_records(old(self)@),
            all_verify(old(self)@.signatures, old(self)@.keys) ==> all_verify(
                final(self)@.signatures,
                final(self)@.keys,
            ),
            old(self)@.known() && history_complete(old(self)@.recorded(), old(self)@.signatures)
                ==> final(self)@.known() && history_complete(
                final(self)@.recorded(),
                final(self)@.signatures,
            ),
    {
        let r = self.run_audit_cycle(akd);
        let next = match &r {
            Ok(processed_count) => AfterCycle::Sleep(self.sleep_duration_after(*processed_count)),
            Err(_) => AfterCycle::Stop,
        };
        assert(cycled(old(self)@, self@, r) && cycle_audited(old(self)@, self@, akd.listing(), r)
            && next == AfterCycle::following(r, old(self).sleep_duration));
        next
    }
}

impl DirectoryAnswer {
    /// What a directory that lists a proof for an epoch says of the epoch,
    /// given what came of asking it for the proof's name.
    pub fn of_listed(name: Result<SerializableAuditBlobName, AkdProofNameError>) -> (answer:
        DirectoryAnswer)
        ensures
            match name {
                Ok(proof_name) => answer == DirectoryAnswer::Listed(proof_name),
                Err(_) => answer is NameUnavailable,
            },
    {
        match name {
            Ok(proof_name) => DirectoryAnswer::Listed(proof_name),
            Err(_) => DirectoryAnswer::NameUnavailable,
        }
    }
}

impl AfterCycle {
    /// What follows a cycle that ended with `r`, for a worker that sleeps
    /// `sleep_duration` milliseconds between cycles: after a cycle that ran
    /// through, the configured sleep, or next to nothing where the poll was
    /// full; after a cycle that failed, nothing more.
    pub open spec fn following(r: Result<usize, CycleError>, sleep_duration: u64) -> AfterCycle {
        match r {
            Ok(count) => AfterCycle::Sleep(
                if count == MAX_EPOCHS_PER_POLL {
                    BACKLOG_SLEEP_MILLIS
                } else {
                    sleep_duration
                },
            ),
            Err(_) => AfterCycle::Stop,
        }
    }
}

} // verus!
