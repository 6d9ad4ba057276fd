//! The signed statement that the auditor makes about an epoch: the message
//! that is signed, the envelope that carries the signature, and how both
//! are written as bytes.

use vstd::prelude::*;
use vstd::utf8::encode_utf8;
use crate::binary_format::{
    length_prefixed, varint, write_length_prefixed, write_signed_varint, write_varint, zigzag,
};
use crate::crypto::{
    ed25519_accepts, ed25519_signature, key_id_string, key_id_text, now_seconds, SigningKey,
    SigningKeyView, VerifyingKey, VerifyingKeyView, SIGNATURE_LENGTH,
};
use crate::proto_format::{bytes_field, integer_field, write_bytes_field, write_integer_field};
use crate::storage::signing_keys::{VerifyingKeyRepository, VerifyingKeyRepositoryError};
use crate::text::hex;
use crate::versions::{Ciphersuite, Epoch};

verus! {

/// Field numbers of the signed message in its protocol-buffer form, in the
/// order in which the fields are written.
pub const FIELD_CIPHERSUITE: u32 = 1;

pub const FIELD_NAMESPACE: u32 = 2;

pub const FIELD_TIMESTAMP: u32 = 3;

pub const FIELD_EPOCH: u32 = 4;

pub const FIELD_DIGEST: u32 = 5;

/// Index of the version-one envelope in the stored form of a signature.
pub const VARIANT_V1: u32 = 0;

/// Why a message could not be written.
#[derive(Debug)]
pub enum SerializationError {
    /// The ciphersuite defines no serialization; the payload is its name.
    UnknownFormat(String),
}

impl SerializationError {
    pub open spec fn message(self) -> Seq<char> {
        match self {
            SerializationError::UnknownFormat(name) =>
                "Unsupported format for serialization/deserialization: "@ + name@,
        }
    }

    pub fn to_string(&self) -> (text: String)
        ensures
            text@ == self.message(),
    {
        match self {
            SerializationError::UnknownFormat(name) => {
                let mut text = "Unsupported format for serialization/deserialization: ".to_owned();
                text.append(name.as_str());
                text
            },
        }
    }
}

/// Why a signature could not be made.
#[derive(Debug)]
pub enum SignError {
    SerializationError(SerializationError),
}

impl SignError {
    pub open spec fn message(self) -> Seq<char> {
        match self {
            SignError::SerializationError(e) => "Serialization error: "@ + e.message(),
        }
    }

    pub fn to_string(&self) -> (text: String)
        ensures
            text@ == self.message(),
    {
        match self {
            SignError::SerializationError(e) => {
                let mut text = "Serialization error: ".to_owned();
                text.append(e.to_string().as_str());
                text
            },
        }
    }
}

/// The digest of a stored signature is not 32 bytes long.
#[derive(Clone, Copy, Debug, PartialEq, Eq, Structural)]
pub struct DigestLengthError {
    pub actual: usize,
}

/// The mathematical value of an `EpochSignedMessage`.
pub struct EpochSignedMessageView {
    pub ciphersuite: Ciphersuite,
    pub namespace: Seq<char>,
    pub timestamp: i64,
    pub epoch: u64,
    pub digest: Seq<u8>,
}

/// A timestamp as the unsigned integer with the same 64 bits.
pub open spec fn timestamp_bits(timestamp: i64) -> u64 {
    if timestamp >= 0 {
        timestamp as u64
    } else {
        (timestamp + 0x1_0000_0000_0000_0000) as u64
    }
}

impl EpochSignedMessageView {
    /// The message as protocol-buffer fields, every field present, in the
    /// order of their numbers.
    pub open spec fn protobuf_bytes(self) -> Seq<u8> {
        integer_field(FIELD_CIPHERSUITE as nat, self.ciphersuite.discriminant() as nat)
            + bytes_field(FIELD_NAMESPACE as nat, encode_utf8(self.namespace)) + integer_field(
            FIELD_TIMESTAMP as nat,
            timestamp_bits(self.timestamp) as nat,
        ) + integer_field(FIELD_EPOCH as nat, self.epoch as nat) + bytes_field(
            FIELD_DIGEST as nat,
            self.digest,
        )
    }

    /// The message in the compact binary encoding, the fields in the same
    /// order.
    pub open spec fn bincode_bytes(self) -> Seq<u8> {
        varint(self.ciphersuite.discriminant() as u64) + length_prefixed(
            encode_utf8(self.namespace),
        ) + varint(zigzag(self.timestamp)) + varint(self.epoch) + length_prefixed(self.digest)
    }

    /// The bytes that are signed, for the suites that define them.
    pub open spec fn signed_bytes(self) -> Option<Seq<u8>> {
        match self.ciphersuite {
            Ciphersuite::ProtobufEd25519 => Some(self.protobuf_bytes()),
            Ciphersuite::BincodeEd25519 => Some(self.bincode_bytes()),
            _ => None,
        }
    }
}

/// What is signed: the namespace, the epoch and the root hash that the
/// auditor vouches for, and when it did so.
#[derive(Debug)]
pub struct EpochSignedMessage {
    pub ciphersuite: Ciphersuite,
    pub namespace: String,
    pub timestamp: i64,
    pub epoch: Epoch,
    pub digest: Vec<u8>,
}

impl View for EpochSignedMessage {
    type V = EpochSignedMessageView;

    open spec fn view(&self) -> EpochSignedMessageView {
        EpochSignedMessageView {
            ciphersuite: self.ciphersuite,
            namespace: self.namespace@,
            timestamp: self.timestamp,
            epoch: self.epoch@,
            digest: self.digest@,
        }
    }
}

impl Clone for EpochSignedMessage {
    fn clone(&self) -> (copy: EpochSignedMessage)
        ensures
            copy@ == self@,
    {
        EpochSignedMessage {
            ciphersuite: self.ciphersuite,
            namespace: self.namespace.clone(),
            timestamp: self.timestamp,
            epoch: self.epoch,
            digest: self.digest.clone(),
        }
    }
}

impl EpochSignedMessage {
    /// The bytes that are signed. Fails with `UnknownFormat` for a
    /// ciphersuite that defines no serialization.
    pub fn to_vec(&self) -> (r: Result<Vec<u8>, SerializationError>)
        ensures
            r is Ok <==> self.ciphersuite.implements_encoding(),
            match self@.signed_bytes() {
                Some(bytes) => r matches Ok(out) && out@ == bytes,
                None => r matches Err(SerializationError::UnknownFormat(name)) && name@
                    == self.ciphersuite.name_spec(),
            },
    {
        match self.ciphersuite {
            Ciphersuite::ProtobufEd25519 => {
                let mut out: Vec<u8> = Vec::new();
                let bits: u64 = if self.timestamp >= 0 {
                    self.timestamp as u64
                } else {
                    u64::MAX - ((-(self.timestamp + 1)) as u64)
                };
                write_integer_field(&mut out, FIELD_CIPHERSUITE, self.ciphersuite.to_u32() as u64);
                write_bytes_field(&mut out, FIELD_NAMESPACE, self.namespace.as_str().as_bytes());
                write_integer_field(&mut out, FIELD_TIMESTAMP, bits);
                write_integer_field(&mut out, FIELD_EPOCH, self.epoch.0);
                write_bytes_field(&mut out, FIELD_DIGEST, self.digest.as_slice());
                assert(out@ =~= self@.protobuf_bytes());
                Ok(out)
            },
            Ciphersuite::BincodeEd25519 => {
                let mut out: Vec<u8> = Vec::new();
                write_varint(&mut out, self.ciphersuite.to_u32() as u64);
                write_length_prefixed(&mut out, self.namespace.as_str().as_bytes());
                write_signed_varint(&mut out, self.timestamp);
                write_varint(&mut out, self.epoch.0);
                write_length_prefixed(&mut out, self.digest.as_slice());
                assert(out@ =~= self@.bincode_bytes());
                Ok(out)
            },
            _ => Err(SerializationError::UnknownFormat(self.ciphersuite.name())),
        }
    }
}

/// The mathematical value of an `EpochSignature`.
pub struct EpochSignatureView {
    pub ciphersuite: Ciphersuite,
    pub namespace: Seq<char>,
    pub timestamp: i64,
    pub epoch: u64,
    pub digest: Seq<u8>,
    pub signature: Seq<u8>,
    pub key_id: u128,
}

/// How the verification of a signature under a key ends.
pub enum Verdict {
    /// The signature is the key's signature over the message.
    Accepted,
    /// The ciphersuite defines no serialization of the message.
    UnknownFormat,
    /// The signature is not 64 bytes long.
    WrongLength,
    /// Ed25519 verification refuses the signature.
    Rejected,
}

impl EpochSignatureView {
    /// The message that the signature is over.
    pub open spec fn message(self) -> EpochSignedMessageView {
        EpochSignedMessageView {
            ciphersuite: self.ciphersuite,
            namespace: self.namespace,
            timestamp: self.timestamp,
            epoch: self.epoch,
            digest: self.digest,
        }
    }

    /// How verification under `key` ends: the message is serialized again
    /// from the stored fields, the signature's length is checked, and then
    /// Ed25519 decides.
    pub open spec fn verdict(self, key: VerifyingKeyView) -> Verdict {
        match self.message().signed_bytes() {
            None => Verdict::UnknownFormat,
            Some(bytes) => if self.signature.len() != SIGNATURE_LENGTH {
                Verdict::WrongLength
            } else if ed25519_accepts(key.verifying_key, bytes, self.signature) {
                Verdict::Accepted
            } else {
                Verdict::Rejected
            },
        }
    }

    /// Whether the signature verifies under the key that `keys` holds for
    /// its key identifier.
    pub open spec fn verifies_under(self, keys: Map<u128, VerifyingKeyView>) -> bool {
        keys.contains_key(self.key_id) && self.verdict(keys[self.key_id]) is Accepted
    }

    /// The signature that `key` makes at `timestamp` over the default
    /// ciphersuite's message for a namespace, an epoch and a root hash.
    pub open spec fn signed(
        namespace: Seq<char>,
        epoch: u64,
        root_hash: Seq<u8>,
        key: SigningKeyView,
        timestamp: i64,
    ) -> EpochSignatureView {
        let message = EpochSignedMessageView {
            ciphersuite: Ciphersuite::ProtobufEd25519,
            namespace: namespace,
            timestamp: timestamp,
            epoch: epoch,
            digest: root_hash,
        };
        EpochSignatureView {
            ciphersuite: Ciphersuite::ProtobufEd25519,
            namespace: namespace,
            timestamp: timestamp,
            epoch: epoch,
            digest: root_hash,
            signature: ed25519_signature(key.secret, message.protobuf_bytes()),
            key_id: key.key_id,
        }
    }

    /// A stored signature is well formed when its ciphersuite is canonical
    /// and its parts are short enough for their lengths to be written.
    pub open spec fn well_formed(self) -> bool {
        &&& self.ciphersuite.is_canonical()
        &&& encode_utf8(self.namespace).len() <= usize::MAX
        &&& self.digest.len() <= usize::MAX
        &&& self.signature.len() <= usize::MAX
    }
}

/// Why a signature did not verify.
#[derive(Debug)]
pub enum VerifyError {
    /// Ed25519 verification refused the signature.
    SignatureVerificationFailed,
    SignatureLengthError { expected: usize, actual: usize },
    SerializationError(SerializationError),
    /// No verifying key is known under the signature's key identifier.
    VerifyingKeyNotFound(u128),
    /// The repository of verifying keys failed.
    VerifyingKeyRepositoryError(VerifyingKeyRepositoryError),
}

impl VerifyError {
    pub open spec fn message(self) -> Seq<char> {
        match self {
            VerifyError::SignatureVerificationFailed => "Signature verification failed"@,
            VerifyError::SignatureLengthError { expected, actual } =>
                "Signature length error: expected "@ + crate::text::decimal(expected as nat)
                    + ", got "@ + crate::text::decimal(actual as nat),
            VerifyError::SerializationError(e) => "Serialization error: "@ + e.message(),
            VerifyError::VerifyingKeyNotFound(key_id) =>
                "Verifying key not found with key id: "@ + key_id_text(key_id),
            VerifyError::VerifyingKeyRepositoryError(e) => "Verifying key repository error: "@
                + e.message(),
        }
    }

    pub fn to_string(&self) -> (text: String)
        ensures
            text@ == self.message(),
    {
        match self {
            VerifyError::SignatureVerificationFailed => "Signature verification failed".to_owned(),
            VerifyError::SignatureLengthError { expected, actual } => {
                let mut text = "Signature length error: expected ".to_owned();
                text.append(crate::text::decimal_string(*expected as u64).as_str());
                text.append(", got ");
                text.append(crate::text::decimal_string(*actual as u64).as_str());
                text
            },
            VerifyError::SerializationError(e) => {
                let mut text = "Serialization error: ".to_owned();
                text.append(e.to_string().as_str());
                text
            },
            VerifyError::VerifyingKeyNotFound(key_id) => {
                let mut text = "Verifying key not found with key id: ".to_owned();
                text.append(key_id_string(*key_id).as_str());
                text
            },
            VerifyError::VerifyingKeyRepositoryError(e) => {
                let mut text = "Verifying key repository error: ".to_owned();
                text.append(e.to_string().as_str());
                text
            },
        }
    }

    /// Whether this error is the one that verification ending in `verdict`
    /// reports.
    pub open spec fn reports(self, verdict: Verdict, signature: EpochSignatureView) -> bool {
        match verdict {
            Verdict::Accepted => false,
            Verdict::UnknownFormat => self matches VerifyError::SerializationError(
                SerializationError::UnknownFormat(name),
            ) && name@ == signature.ciphersuite.name_spec(),
            Verdict::WrongLength => self matches VerifyError::SignatureLengthError {
                expected,
                actual,
            } && expected == SIGNATURE_LENGTH && actual == signature.signature.len(),
            Verdict::Rejected => self is SignatureVerificationFailed,
        }
    }
}

/// Version one of the envelope.
#[derive(Debug)]
pub struct EpochSignatureV1 {
    pub ciphersuite: Ciphersuite,
    pub namespace: String,
    pub timestamp: i64,
    pub epoch: Epoch,
    pub digest: Vec<u8>,
    pub signature: Vec<u8>,
    pub key_id: u128,
}

impl View for EpochSignatureV1 {
    type V = EpochSignatureView;

    open spec fn view(&self) -> EpochSignatureView {
        EpochSignatureView {
            ciphersuite: self.ciphersuite,
            namespace: self.namespace@,
            timestamp: self.timestamp,
            epoch: self.epoch@,
            digest: self.digest@,
            signature: self.signature@,
            key_id: self.key_id,
        }
    }
}

impl Clone for EpochSignatureV1 {
    fn clone(&self) -> (copy: EpochSignatureV1)
        ensures
            copy@ == self@,
    {
        EpochSignatureV1 {
            ciphersuite: self.ciphersuite,
            namespace: self.namespace.clone(),
            timestamp: self.timestamp,
            epoch: self.epoch,
            digest: self.digest.clone(),
            signature: self.signature.clone(),
            key_id: self.key_id,
        }
    }
}

/// Copies 64 bytes into an array.
fn signature_array(bytes: &Vec<u8>) -> (out: [u8; 64])
    requires
        bytes@.len() == 64,
    ensures
        out@ == bytes@,
{
    let mut out = [0u8; 64];
    let mut i: usize = 0;
    while i < 64
        invariant
            i <= 64,
            bytes@.len() == 64,
            out@.len() == 64,
            forall|j: int| 0 <= j < i ==> out@[j] == bytes@[j],
        decreases 64 - i,
    {
        out[i] = bytes[i];
        i = i + 1;
    }
    assert(out@ =~= bytes@);
    out
}

/// Copies 32 bytes into an array.
fn digest_array(bytes: &Vec<u8>) -> (out: [u8; 32])
    requires
        bytes@.len() == 32,
    ensures
        out@ == bytes@,
{
    let mut out = [0u8; 32];
    let mut i: usize = 0;
    while i < 32
        invariant
            i <= 32,
            bytes@.len() == 32,
            out@.len() == 32,
            forall|j: int| 0 <= j < i ==> out@[j] == bytes@[j],
        decreases 32 - i,
    {
        out[i] = bytes[i];
        i = i + 1;
    }
    assert(out@ =~= bytes@);
    out
}

impl EpochSignatureV1 {
    pub fn to_message(&self) -> (message: EpochSignedMessage)
        ensures
            message@ == self@.message(),
    {
        EpochSignedMessage {
            ciphersuite: self.ciphersuite,
            namespace: self.namespace.clone(),
            timestamp: self.timestamp,
            epoch: self.epoch,
            digest: self.digest.clone(),
        }
    }

    /// Verifies the signature under `verifying_key`.
    pub fn verify(&self, verifying_key: &VerifyingKey) -> (r: Result<(), VerifyError>)
        ensures
            match self@.verdict(verifying_key@) {
                Verdict::Accepted => r is Ok,
                other => r matches Err(e) && e.reports(other, self@),
            },
    {
        let message = match self.to_message().to_vec() {
            Ok(bytes) => bytes,
            Err(e) => {
                return Err(VerifyError::SerializationError(e));
            },
        };
        if self.signature.len() != SIGNATURE_LENGTH {
            return Err(
                VerifyError::SignatureLengthError {
                    expected: SIGNATURE_LENGTH,
                    actual: self.signature.len(),
                },
            );
        }
        let signature = signature_array(&self.signature);
        if verifying_key.accepts(message.as_slice(), &signature) {
            Ok(())
        } else {
            Err(VerifyError::SignatureVerificationFailed)
        }
    }
}

/// A signed root hash of one epoch of one namespace, in a versioned
/// envelope.
#[derive(Debug)]
pub enum EpochSignature {
    V1(EpochSignatureV1),
}

impl View for EpochSignature {
    type V = EpochSignatureView;

    open spec fn view(&self) -> EpochSignatureView {
        match self {
            EpochSignature::V1(signature) => signature@,
        }
    }
}

impl Clone for EpochSignature {
    fn clone(&self) -> (copy: EpochSignature)
        ensures
            copy@ == self@,
    {
        match self {
            EpochSignature::V1(signature) => EpochSignature::V1(signature.clone()),
        }
    }
}

impl EpochSignature {
    /// Signs, at the instant `timestamp` (in seconds), the root hash of an
    /// epoch of a namespace under the default ciphersuite.
    pub fn sign_at(
        namespace: &str,
        epoch: Epoch,
        epoch_root_hash: [u8; 32],
        signing_key: &SigningKey,
        timestamp: i64,
    ) -> (r: Result<EpochSignature, SignError>)
        ensures
            r matches Ok(signature) && signature@ == EpochSignatureView::signed(
                namespace@,
                epoch@,
                epoch_root_hash@,
                signing_key@,
                timestamp,
            ) && signature@.verdict(signing_key@.verifying_key()) is Accepted,
    {
        let message = EpochSignedMessage {
            ciphersuite: Ciphersuite::ProtobufEd25519,
            namespace: namespace.to_owned(),
            timestamp,
            epoch,
            digest: vstd::slice::slice_to_vec(epoch_root_hash.as_slice()),
        };
        let bytes = match message.to_vec() {
            Ok(bytes) => bytes,
            Err(e) => {
                return Err(SignError::SerializationError(e));
            },
        };
        let signature = signing_key.sign(bytes.as_slice());
        Ok(
            EpochSignature::V1(
                EpochSignatureV1 {
                    ciphersuite: message.ciphersuite,
                    namespace: message.namespace,
                    timestamp: message.timestamp,
                    epoch: message.epoch,
                    digest: message.digest,
                    signature: vstd::slice::slice_to_vec(signature.as_slice()),
                    key_id: signing_key.key_id(),
                },
            ),
        )
    }

    /// Signs the root hash of an epoch of a namespace, with the present
    /// second as the timestamp.
    pub fn sign(
        namespace: crate::namespace_info::NamespaceInfo,
        epoch: Epoch,
        epoch_root_hash: [u8; 32],
        signing_key: &SigningKey,
    ) -> (r: Result<EpochSignature, SignError>)
        ensures
            r matches Ok(signature) && signature@.verdict(signing_key@.verifying_key())
                is Accepted && exists|timestamp: i64|
                signature@ == EpochSignatureView::signed(
                    namespace@.name,
                    epoch@,
                    epoch_root_hash@,
                    signing_key@,
                    timestamp,
                ),
    {
        let timestamp = now_seconds();
        let r = EpochSignature::sign_at(
            namespace.name.as_str(),
            epoch,
            epoch_root_hash,
            signing_key,
            timestamp,
        );
        assert(r matches Ok(signature) && signature@ == EpochSignatureView::signed(
            namespace@.name,
            epoch@,
            epoch_root_hash@,
            signing_key@,
            timestamp,
        ));
        r
    }

    pub fn digest(&self) -> (digest: Vec<u8>)
        ensures
            digest@ == self@.digest,
    {
        match self {
            EpochSignature::V1(signature) => signature.digest.clone(),
        }
    }

    pub fn digest_hex(&self) -> (text: String)
        ensures
            text@ == hex(self@.digest),
    {
        match self {
            EpochSignature::V1(signature) => crate::text::hex_string(signature.digest.as_slice()),
        }
    }

    /// The signed root hash, when it has the length of one.
    pub fn epoch_root_hash(&self) -> (r: Result<[u8; 32], DigestLengthError>)
        ensures
            self@.digest.len() == 32 ==> (r matches Ok(hash) && hash@ == self@.digest),
            self@.digest.len() != 32 ==> r == Err::<[u8; 32], DigestLengthError>(
                DigestLengthError { actual: self@.digest.len() as usize },
            ),
    {
        match self {
            EpochSignature::V1(signature) => {
                if signature.digest.len() == 32 {
                    Ok(digest_array(&signature.digest))
                } else {
                    Err(DigestLengthError { actual: signature.digest.len() })
                }
            },
        }
    }

    pub fn signing_key_id(&self) -> (key_id: u128)
        ensures
            key_id == self@.key_id,
    {
        match self {
            EpochSignature::V1(signature) => signature.key_id,
        }
    }

    pub fn epoch(&self) -> (epoch: Epoch)
        ensures
            epoch@ == self@.epoch,
    {
        match self {
            EpochSignature::V1(signature) => signature.epoch,
        }
    }

    /// Whether `r` is what verification against the keys `keys` reports when
    /// the repository answers: the key must be known, and then the verdict
    /// under it decides.
    pub open spec fn verified_against(
        self,
        keys: Map<u128, VerifyingKeyView>,
        r: Result<(), VerifyError>,
    ) -> bool {
        if keys.contains_key(self@.key_id) {
            match self@.verdict(keys[self@.key_id]) {
                Verdict::Accepted => r is Ok,
                other => r matches Err(e) && e.reports(other, self@),
            }
        } else {
            r matches Err(VerifyError::VerifyingKeyNotFound(key_id)) && key_id == self@.key_id
        }
    }

    /// Verifies the signature against the key that `verifying_key_repo`
    /// holds under the signature's key identifier. Unless the repository
    /// itself fails, the result is `Ok` exactly when that key is known and
    /// the signature verifies under it.
    pub fn verify<R: VerifyingKeyRepository>(&self, verifying_key_repo: &R) -> (r: Result<
        (),
        VerifyError,
    >)
        ensures
            r matches Err(VerifyError::VerifyingKeyRepositoryError(_)) || self.verified_against(
                verifying_key_repo.keys(),
                r,
            ),
            r is Ok ==> self@.verifies_under(verifying_key_repo.keys()),
            verifying_key_repo.dependable() ==> self.verified_against(
                verifying_key_repo.keys(),
                r,
            ),
    {
        let signing_key_id = self.signing_key_id();
        let verifying_key = match verifying_key_repo.get_verifying_key(signing_key_id) {
            Err(e) => {
                return Err(VerifyError::VerifyingKeyRepositoryError(e));
            },
            Ok(None) => {
                return Err(VerifyError::VerifyingKeyNotFound(signing_key_id));
            },
            Ok(Some(key)) => key,
        };
        self.verify_with_key(&verifying_key)
    }

    /// Verifies the signature under a verifying key that was resolved for
    /// its key identifier.
    pub fn verify_with_key(&self, verifying_key: &VerifyingKey) -> (r: Result<(), VerifyError>)
        ensures
            match self@.verdict(verifying_key@) {
                Verdict::Accepted => r is Ok,
                other => r matches Err(e) && e.reports(other, self@),
            },
    {
        match self {
            EpochSignature::V1(signature) => signature.verify(verifying_key),
        }
    }
}

} // verus!
