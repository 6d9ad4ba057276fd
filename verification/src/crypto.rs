//! Signing keys, the verifying keys derived from them, and the Ed25519
//! operations behind both.
//!
//! Instants are milliseconds since the Unix epoch. A key identifier is held
//! as the 128-bit integer whose little-endian bytes are the identifier's 16
//! bytes.

use vstd::prelude::*;
use vstd::bytes::*;
use crate::text::{hex, hex_string};
use ed25519_dalek::Signer;
use ed25519_dalek::Verifier;
use rand::Rng;

verus! {

/// Length of an Ed25519 signature, in bytes.
pub const SIGNATURE_LENGTH: usize = 64;

/// The Ed25519 public key that belongs to a secret key.
pub uninterp spec fn ed25519_public(secret: Seq<u8>) -> Seq<u8>;

/// The Ed25519 signature that a secret key makes over a message.
pub uninterp spec fn ed25519_signature(secret: Seq<u8>, message: Seq<u8>) -> Seq<u8>;

/// Whether Ed25519 verification accepts a signature over a message under a
/// public key. Bytes that are no public key accept nothing.
pub uninterp spec fn ed25519_accepts(public: Seq<u8>, message: Seq<u8>, signature: Seq<u8>) -> bool;

/// `ed25519_dalek::SigningKey::from_bytes` followed by `verifying_key` and
/// `to_bytes`: the 32 bytes of the public key that belongs to `secret`.
#[verifier::external_body]
fn ed25519_public_key(secret: &[u8; 32]) -> (public: [u8; 32])
    ensures
        public@ == ed25519_public(secret@),
{
    ed25519_dalek::SigningKey::from_bytes(secret).verifying_key().to_bytes()
}

/// `ed25519_dalek::Signer::sign` on the key made from `secret`: the 64 bytes
/// of the signature over `message`. Signing is deterministic, and the
/// signature it makes is one that verification under the matching public key
/// accepts.
#[verifier::external_body]
fn ed25519_sign(secret: &[u8; 32], message: &[u8]) -> (signature: [u8; 64])
    ensures
        signature@ == ed25519_signature(secret@, message@),
        ed25519_accepts(ed25519_public(secret@), message@, signature@),
{
    ed25519_dalek::SigningKey::from_bytes(secret).sign(message).to_bytes()
}

/// `ed25519_dalek::Verifier::verify` on the key read from `public` with
/// `VerifyingKey::from_bytes`: true when the key is valid and the signature
/// verifies.
#[verifier::external_body]
fn ed25519_verify(public: &[u8; 32], message: &[u8], signature: &[u8; 64]) -> (accepted: bool)
    ensures
        accepted == ed25519_accepts(public@, message@, signature@),
{
    match ed25519_dalek::VerifyingKey::from_bytes(public) {
        Ok(key) => key.verify(message, &ed25519_dalek::Signature::from_bytes(signature)).is_ok(),
        Err(_) => false,
    }
}

/// `rand::Rng::fill` on the thread's generator: 32 random bytes.
#[verifier::external_body]
fn random_secret() -> (secret: [u8; 32]) {
    let mut secret = [0u8; 32];
    rand::rng().fill(&mut secret);
    secret
}

/// `uuid::Uuid::new_v4`: a random identifier, as the integer whose
/// little-endian bytes are its 16 bytes.
#[verifier::external_body]
fn random_key_id() -> (key_id: u128) {
    uuid::Uuid::new_v4().to_u128_le()
}

/// `chrono::Utc::now` as milliseconds since the Unix epoch.
#[verifier::external_body]
pub(crate) fn now_millis() -> (now: i64) {
    chrono::Utc::now().timestamp_millis()
}

/// `chrono::Utc::now` as seconds since the Unix epoch.
#[verifier::external_body]
pub(crate) fn now_seconds() -> (now: i64) {
    chrono::Utc::now().timestamp()
}

/// The sum of an instant and a duration, kept within the representable
/// instants.
pub open spec fn instant_after(now: i64, lifetime: i64) -> i64 {
    if now + lifetime > i64::MAX {
        i64::MAX
    } else if now + lifetime < i64::MIN {
        i64::MIN
    } else {
        (now + lifetime) as i64
    }
}

/// The 16 bytes of a key identifier.
pub open spec fn key_id_bytes(key_id: u128) -> Seq<u8> {
    spec_u128_to_le_bytes(key_id)
}

/// A key identifier as text: its bytes in hexadecimal, in groups of 4, 2,
/// 2, 2 and 6 bytes joined by hyphens.
pub open spec fn key_id_text(key_id: u128) -> Seq<char> {
    let b = key_id_bytes(key_id);
    hex(b.subrange(0, 4)) + "-"@ + hex(b.subrange(4, 6)) + "-"@ + hex(b.subrange(6, 8)) + "-"@
        + hex(b.subrange(8, 10)) + "-"@ + hex(b.subrange(10, 16))
}

/// Writes a key identifier as text.
pub fn key_id_string(key_id: u128) -> (text: String)
    ensures
        text@ == key_id_text(key_id),
{
    let bytes = u128_to_le_bytes(key_id);
    let b = bytes.as_slice();
    let mut text = hex_string(vstd::slice::slice_subrange(b, 0, 4));
    text.append("-");
    text.append(hex_string(vstd::slice::slice_subrange(b, 4, 6)).as_str());
    text.append("-");
    text.append(hex_string(vstd::slice::slice_subrange(b, 6, 8)).as_str());
    text.append("-");
    text.append(hex_string(vstd::slice::slice_subrange(b, 8, 10)).as_str());
    text.append("-");
    text.append(hex_string(vstd::slice::slice_subrange(b, 10, 16)).as_str());
    text
}

/// The mathematical value of a `VerifyingKey`.
pub struct VerifyingKeyView {
    pub verifying_key: Seq<u8>,
    pub key_id: u128,
    pub not_before: i64,
}

/// The public half of a signing key, under the same identifier.
#[derive(Clone, Copy, Debug)]
pub struct VerifyingKey {
    pub verifying_key: [u8; 32],
    pub key_id: u128,
    pub not_before: i64,
}

impl View for VerifyingKey {
    type V = VerifyingKeyView;

    open spec fn view(&self) -> VerifyingKeyView {
        VerifyingKeyView {
            verifying_key: self.verifying_key@,
            key_id: self.key_id,
            not_before: self.not_before,
        }
    }
}

impl VerifyingKey {
    /// Whether `signature` is this key's Ed25519 signature over `message`.
    pub fn accepts(&self, message: &[u8], signature: &[u8; 64]) -> (accepted: bool)
        ensures
            accepted == ed25519_accepts(self@.verifying_key, message@, signature@),
    {
        ed25519_verify(&self.verifying_key, message, signature)
    }
}

/// The mathematical value of a `SigningKey`.
pub struct SigningKeyView {
    pub secret: Seq<u8>,
    pub key_id: u128,
    pub created_at: i64,
    pub not_after_date: i64,
}

impl SigningKeyView {
    /// The verifying key that this signing key gives rise to.
    pub open spec fn verifying_key(self) -> VerifyingKeyView {
        VerifyingKeyView {
            verifying_key: ed25519_public(self.secret),
            key_id: self.key_id,
            not_before: self.created_at,
        }
    }

    /// A key is expired once the present is past its last instant.
    pub open spec fn expired_at(self, now: i64) -> bool {
        now > self.not_after_date
    }

    /// Whether the key signs from the instant `now` on, for `lifetime`
    /// milliseconds.
    pub open spec fn starts_at(self, now: i64, lifetime: i64) -> bool {
        self.created_at == now && self.not_after_date == instant_after(now, lifetime)
    }

    /// The same key, with `now` as its last instant.
    pub open spec fn expired_by(self, now: i64) -> SigningKeyView {
        SigningKeyView { not_after_date: now, ..self }
    }
}

/// An Ed25519 secret key with its identifier and the span of time in which
/// it signs.
#[derive(Clone, Copy)]
pub struct SigningKey {
    signing_key: [u8; 32],
    key_id: u128,
    created_at: i64,
    not_after_date: i64,
}

impl View for SigningKey {
    type V = SigningKeyView;

    closed spec fn view(&self) -> SigningKeyView {
        SigningKeyView {
            secret: self.signing_key@,
            key_id: self.key_id,
            created_at: self.created_at,
            not_after_date: self.not_after_date,
        }
    }
}

impl SigningKey {
    pub fn key_id(&self) -> (key_id: u128)
        ensures
            key_id == self@.key_id,
    {
        self.key_id
    }

    /// The 32 bytes of the secret key.
    pub fn signing_key(&self) -> (secret: [u8; 32])
        ensures
            secret@ == self@.secret,
    {
        self.signing_key
    }

    pub fn created_at(&self) -> (instant: i64)
        ensures
            instant == self@.created_at,
    {
        self.created_at
    }

    pub fn not_after_date(&self) -> (instant: i64)
        ensures
            instant == self@.not_after_date,
    {
        self.not_after_date
    }

    pub fn new(signing_key: [u8; 32], key_id: u128, created_at: i64, not_after_date: i64) -> (key:
        SigningKey)
        ensures
            key@ == (SigningKeyView {
                secret: signing_key@,
                key_id: key_id,
                created_at: created_at,
                not_after_date: not_after_date,
            }),
    {
        SigningKey { signing_key, key_id, created_at, not_after_date }
    }

    /// The key made at `now` from a secret and an identifier: it signs from
    /// `now` on, for `lifetime` milliseconds.
    pub fn generate_at(secret: [u8; 32], key_id: u128, now: i64, lifetime: i64) -> (key:
        SigningKey)
        ensures
            key@ == (SigningKeyView {
                secret: secret@,
                key_id: key_id,
                created_at: now,
                not_after_date: instant_after(now, lifetime),
            }),
    {
        let not_after_date: i64 = if lifetime > 0 && now > i64::MAX - lifetime {
            i64::MAX
        } else if lifetime < 0 && now < i64::MIN - lifetime {
            i64::MIN
        } else {
            now + lifetime
        };
        SigningKey { signing_key: secret, key_id, created_at: now, not_after_date }
    }

    /// A fresh key with a random secret and a random identifier, which signs
    /// from the instant `now` on for `lifetime` milliseconds.
    pub fn generate_from(now: i64, lifetime: i64) -> (key: SigningKey)
        ensures
            key@.starts_at(now, lifetime),
    {
        let secret = random_secret();
        let key_id = random_key_id();
        SigningKey::generate_at(secret, key_id, now, lifetime)
    }

    /// A fresh key with a random secret and a random identifier, which signs
    /// from now on for `lifetime` milliseconds.
    pub fn generate(lifetime: i64) -> (key: SigningKey)
        ensures
            key@.not_after_date == instant_after(key@.created_at, lifetime),
    {
        let now = now_millis();
        SigningKey::generate_from(now, lifetime)
    }

    pub fn verifying_key(&self) -> (r: Result<VerifyingKey, String>)
        ensures
            r matches Ok(key) && key@ == self@.verifying_key(),
    {
        Ok(
            VerifyingKey {
                verifying_key: ed25519_public_key(&self.signing_key),
                key_id: self.key_id,
                not_before: self.created_at,
            },
        )
    }

    /// Whether the key is expired at the instant `now`.
    pub fn is_expired_at(&self, now: i64) -> (expired: bool)
        ensures
            expired == self@.expired_at(now),
    {
        now > self.not_after_date
    }

    /// Whether the key is expired at the present instant.
    pub fn is_expired(&self) -> (expired: bool)
        ensures
            exists|now: i64| expired == self@.expired_at(now),
    {
        let now = now_millis();
        self.is_expired_at(now)
    }

    /// Ends the key's signing span at the instant `now`.
    pub fn expire_at(&mut self, now: i64)
        ensures
            final(self)@ == old(self)@.expired_by(now),
    {
        self.not_after_date = now;
    }

    /// Ends the key's signing span at the present instant.
    pub fn expire(&mut self)
        ensures
            exists|now: i64| final(self)@ == old(self)@.expired_by(now),
    {
        let now = now_millis();
        self.expire_at(now);
    }

    /// This key's Ed25519 signature over `message`.
    pub fn sign(&self, message: &[u8]) -> (signature: [u8; 64])
        ensures
            signature@ == ed25519_signature(self@.secret, message@),
            ed25519_accepts(self@.verifying_key().verifying_key, message@, signature@),
    {
        ed25519_sign(&self.signing_key, message)
    }
}

} // verus!
