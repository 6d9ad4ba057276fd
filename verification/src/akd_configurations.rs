//! The directory configurations under which append-only proofs are checked,
//! and the check itself.

use vstd::prelude::*;
use vstd::utf8::encode_utf8;

verus! {

/// Selects the cryptographic configuration of a directory.
#[derive(Clone, Copy, Debug, PartialEq, Eq, Structural)]
pub enum AkdConfiguration {
    WhatsAppV1Configuration,
    BitwardenV1Configuration,
    TestConfiguration,
}

/// Domain separation label of the Bitwarden configuration.
#[derive(Clone, Copy, Debug)]
pub struct BitwardenV1Label;

impl akd::DomainLabel for BitwardenV1Label {
    fn domain_label() -> (label: &'static [u8])
        ensures
            label@ == encode_utf8("BitwardenV1Label"@),
    {
        "BitwardenV1Label".as_bytes()
    }
}

/// Domain separation label of the configuration used with test directories.
#[derive(Clone, Copy, Debug)]
pub struct TestLabel;

impl akd::DomainLabel for TestLabel {
    fn domain_label() -> (label: &'static [u8])
        ensures
            label@ == encode_utf8("TestLabel"@),
    {
        "TestLabel".as_bytes()
    }
}

/// How the check of a published proof ended.
#[derive(Debug)]
pub enum ProofCheck {
    /// The proof shows that the end state extends the start state.
    Accepted,
    /// The bytes are no proof; the payload is `akd`'s message.
    Undecodable(String),
    /// The proof does not lead from the start hash to the end hash; the
    /// payload is `akd`'s message.
    Rejected(String),
    /// The check could not be run; the payload says why.
    Unavailable(String),
}

/// Whether `akd` can read the bytes as an append-only proof.
pub uninterp spec fn proof_decodes(data: Seq<u8>) -> bool;

/// Whether `akd`, under the WhatsApp configuration, finds that the proof in
/// `data` leads from `start_hash` to `end_hash` at `end_epoch`.
pub uninterp spec fn whatsapp_v1_proof_holds(
    data: Seq<u8>,
    start_hash: Seq<u8>,
    end_hash: Seq<u8>,
    end_epoch: u64,
) -> bool;

/// The same under the experimental configuration with the domain label
/// `label`.
pub uninterp spec fn experimental_proof_holds(
    label: Seq<u8>,
    data: Seq<u8>,
    start_hash: Seq<u8>,
    end_hash: Seq<u8>,
    end_epoch: u64,
) -> bool;

/// `akd::local_auditing::AuditBlob::decode` on the bytes, then
/// `akd::auditor::verify_consecutive_append_only` under
/// `akd::WhatsAppV1Configuration`, run to its end on a runtime of its own.
/// `Accepted` and `Rejected` tell what `akd` found of a proof that it could
/// read, `Undecodable` that it could not read one.
#[verifier::external_body]
fn akd_check_whatsapp_v1(
    data: &Vec<u8>,
    start_hash: [u8; 32],
    end_hash: [u8; 32],
    end_epoch: u64,
) -> (r: ProofCheck)
    requires
        end_epoch >= 1,
    ensures
        r is Accepted ==> proof_decodes(data@) && whatsapp_v1_proof_holds(
            data@,
            start_hash@,
            end_hash@,
            end_epoch,
        ),
        r is Rejected ==> proof_decodes(data@) && !whatsapp_v1_proof_holds(
            data@,
            start_hash@,
            end_hash@,
            end_epoch,
        ),
        r is Undecodable ==> !proof_decodes(data@),
{
    let name = akd::local_auditing::AuditBlobName { epoch: end_epoch, previous_hash: start_hash, current_hash: end_hash };
    let proof = match (akd::local_auditing::AuditBlob { name, data: data.clone() }).decode() {
        Ok(decoded) => decoded.3,
        Err(e) => return ProofCheck::Undecodable(format!("{e:?}")),
    };
    let runtime = match tokio::runtime::Builder::new_current_thread().build() {
        Ok(runtime) => runtime,
        Err(e) => return ProofCheck::Unavailable(e.to_string()),
    };
    match runtime.block_on(akd::auditor::verify_consecutive_append_only::<akd::WhatsAppV1Configuration>(&proof, start_hash, end_hash, end_epoch)) {
        Ok(()) => ProofCheck::Accepted,
        Err(e) => ProofCheck::Rejected(e.to_string()),
    }
}

/// The same check under `akd::ExperimentalConfiguration` with the
/// Bitwarden label.
#[verifier::external_body]
fn akd_check_bitwarden_v1(
    data: &Vec<u8>,
    start_hash: [u8; 32],
    end_hash: [u8; 32],
    end_epoch: u64,
) -> (r: ProofCheck)
    requires
        end_epoch >= 1,
    ensures
        r is Accepted ==> proof_decodes(data@) && experimental_proof_holds(
            encode_utf8("BitwardenV1Label"@),
            data@,
            start_hash@,
            end_hash@,
            end_epoch,
        ),
        r is Rejected ==> proof_decodes(data@) && !experimental_proof_holds(
            encode_utf8("BitwardenV1Label"@),
            data@,
            start_hash@,
            end_hash@,
            end_epoch,
        ),
        r is Undecodable ==> !proof_decodes(data@),
{
    let name = akd::local_auditing::AuditBlobName { epoch: end_epoch, previous_hash: start_hash, current_hash: end_hash };
    let proof = match (akd::local_auditing::AuditBlob { name, data: data.clone() }).decode() {
        Ok(decoded) => decoded.3,
        Err(e) => return ProofCheck::Undecodable(format!("{e:?}")),
    };
    let runtime = match tokio::runtime::Builder::new_current_thread().build() {
        Ok(runtime) => runtime,
        Err(e) => return ProofCheck::Unavailable(e.to_string()),
    };
    match runtime.block_on(akd::auditor::verify_consecutive_append_only::<akd::ExperimentalConfiguration<BitwardenV1Label>>(&proof, start_hash, end_hash, end_epoch)) {
        Ok(()) => ProofCheck::Accepted,
        Err(e) => ProofCheck::Rejected(e.to_string()),
    }
}

/// The same check under `akd::ExperimentalConfiguration` with the test
/// label.
#[verifier::external_body]
fn akd_check_test(
    data: &Vec<u8>,
    start_hash: [u8; 32],
    end_hash: [u8; 32],
    end_epoch: u64,
) -> (r: ProofCheck)
    requires
        end_epoch >= 1,
    ensures
        r is Accepted ==> proof_decodes(data@) && experimental_proof_holds(
            encode_utf8("TestLabel"@),
            data@,
            start_hash@,
            end_hash@,
            end_epoch,
        ),
        r is Rejected ==> proof_decodes(data@) && !experimental_proof_holds(
            encode_utf8("TestLabel"@),
            data@,
            start_hash@,
            end_hash@,
            end_epoch,
        ),
        r is Undecodable ==> !proof_decodes(data@),
{
    let name = akd::local_auditing::AuditBlobName { epoch: end_epoch, previous_hash: start_hash, current_hash: end_hash };
    let proof = match (akd::local_auditing::AuditBlob { name, data: data.clone() }).decode() {
        Ok(decoded) => decoded.3,
        Err(e) => return ProofCheck::Undecodable(format!("{e:?}")),
    };
    let runtime = match tokio::runtime::Builder::new_current_thread().build() {
        Ok(runtime) => runtime,
        Err(e) => return ProofCheck::Unavailable(e.to_string()),
    };
    match runtime.block_on(akd::auditor::verify_consecutive_append_only::<akd::ExperimentalConfiguration<TestLabel>>(&proof, start_hash, end_hash, end_epoch)) {
        Ok(()) => ProofCheck::Accepted,
        Err(e) => ProofCheck::Rejected(e.to_string()),
    }
}

/// `tokio::runtime::Handle::try_current`: whether the calling thread is
/// driving a runtime already, on which no other runtime can be run to its
/// end.
#[verifier::external_body]
fn inside_runtime() -> (inside: bool) {
    tokio::runtime::Handle::try_current().is_ok()
}

/// Whether the proof in `data` shows, under `configuration`, that the state
/// with root hash `end_hash` at `end_epoch` extends the state with root hash
/// `start_hash`. No proof ends at epoch zero.
pub open spec fn append_only_proof_holds(
    configuration: AkdConfiguration,
    data: Seq<u8>,
    start_hash: Seq<u8>,
    end_hash: Seq<u8>,
    end_epoch: u64,
) -> bool {
    end_epoch >= 1 && proof_decodes(data) && match configuration {
        AkdConfiguration::WhatsAppV1Configuration => whatsapp_v1_proof_holds(
            data,
            start_hash,
            end_hash,
            end_epoch,
        ),
        AkdConfiguration::BitwardenV1Configuration => experimental_proof_holds(
            encode_utf8("BitwardenV1Label"@),
            data,
            start_hash,
            end_hash,
            end_epoch,
        ),
        AkdConfiguration::TestConfiguration => experimental_proof_holds(
            encode_utf8("TestLabel"@),
            data,
            start_hash,
            end_hash,
            end_epoch,
        ),
    }
}

/// Checks the proof in `data` under `configuration`: whether it leads from
/// `start_hash` to `end_hash` at `end_epoch`. Unless the check could not be
/// run, it accepts exactly the proofs that hold.
pub fn verify_consecutive_append_only(
    configuration: &AkdConfiguration,
    data: &Vec<u8>,
    start_hash: [u8; 32],
    end_hash: [u8; 32],
    end_epoch: u64,
) -> (r: ProofCheck)
    ensures
        r is Accepted ==> append_only_proof_holds(
            *configuration,
            data@,
            start_hash@,
            end_hash@,
            end_epoch,
        ),
        (r is Rejected || r is Undecodable) ==> !append_only_proof_holds(
            *configuration,
            data@,
            start_hash@,
            end_hash@,
            end_epoch,
        ),
        r is Undecodable ==> !proof_decodes(data@),
        r is Rejected && end_epoch >= 1 ==> proof_decodes(data@),
        end_epoch == 0 ==> r is Rejected,
{
    if end_epoch == 0 {
        return ProofCheck::Rejected("no proof ends at epoch 0".to_owned());
    }
    if inside_runtime() {
        return ProofCheck::Unavailable(
            "the check cannot be run on a thread that drives a runtime".to_owned(),
        );
    }
    match configuration {
        AkdConfiguration::WhatsAppV1Configuration => akd_check_whatsapp_v1(
            data,
            start_hash,
            end_hash,
            end_epoch,
        ),
        AkdConfiguration::BitwardenV1Configuration => akd_check_bitwarden_v1(
            data,
            start_hash,
            end_hash,
            end_epoch,
        ),
        AkdConfiguration::TestConfiguration => akd_check_test(
            data,
            start_hash,
            end_hash,
            end_epoch,
        ),
    }
}

} // verus!
