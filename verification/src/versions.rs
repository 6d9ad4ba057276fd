//! Epoch numbers and the open-ended `u32` discriminants that version the
//! signature format.

use vstd::prelude::*;
use vstd::std_specs::convert::{FromSpecImpl, TryFromSpecImpl};

verus! {

/// Discriminant of the protobuf-Ed25519 ciphersuite.
pub const CIPHERSUITE_PROTOBUF_ED25519: u32 = 0x0001;

/// Discriminant of the bincode-Ed25519 ciphersuite.
pub const CIPHERSUITE_BINCODE_ED25519: u32 = 0x0002;

/// Discriminant of the first audit version.
pub const AUDIT_VERSION_ONE: u32 = 0x0001;

/// How the signed message is serialized and signed.
///
/// Discriminants that name no known suite are carried in `Unknown`, so that a
/// value read from the wire is written back unchanged.
#[derive(Copy, Clone, Debug, PartialEq, Eq, Structural)]
pub enum Ciphersuite {
    ProtobufEd25519,
    BincodeEd25519,
    Unknown(u32),
}

impl Ciphersuite {
    /// The `u32` that stands for this suite on the wire.
    pub open spec fn discriminant(self) -> u32 {
        match self {
            Ciphersuite::ProtobufEd25519 => CIPHERSUITE_PROTOBUF_ED25519,
            Ciphersuite::BincodeEd25519 => CIPHERSUITE_BINCODE_ED25519,
            Ciphersuite::Unknown(other) => other,
        }
    }

    /// The suite that a `u32` read from the wire stands for.
    pub open spec fn of_discriminant(value: u32) -> Ciphersuite {
        if value == CIPHERSUITE_PROTOBUF_ED25519 {
            Ciphersuite::ProtobufEd25519
        } else if value == CIPHERSUITE_BINCODE_ED25519 {
            Ciphersuite::BincodeEd25519
        } else {
            Ciphersuite::Unknown(value)
        }
    }

    /// A suite is canonical when `Unknown` does not hide a known discriminant.
    /// Every value made by `from_u32` is canonical.
    pub open spec fn is_canonical(self) -> bool {
        Ciphersuite::of_discriminant(self.discriminant()) == self
    }

    /// True for the suites that define a serialization of the signed message.
    pub open spec fn implements_encoding(self) -> bool {
        self == Ciphersuite::ProtobufEd25519 || self == Ciphersuite::BincodeEd25519
    }

    pub fn from_u32(value: u32) -> (suite: Ciphersuite)
        ensures
            suite == Ciphersuite::of_discriminant(value),
            suite.is_canonical(),
            suite.discriminant() == value,
    {
        if value == CIPHERSUITE_PROTOBUF_ED25519 {
            Ciphersuite::ProtobufEd25519
        } else if value == CIPHERSUITE_BINCODE_ED25519 {
            Ciphersuite::BincodeEd25519
        } else {
            Ciphersuite::Unknown(value)
        }
    }

    pub fn to_u32(self) -> (value: u32)
        ensures
            value == self.discriminant(),
    {
        match self {
            Ciphersuite::ProtobufEd25519 => CIPHERSUITE_PROTOBUF_ED25519,
            Ciphersuite::BincodeEd25519 => CIPHERSUITE_BINCODE_ED25519,
            Ciphersuite::Unknown(other) => other,
        }
    }

    /// Name of the suite as it appears in error messages.
    pub fn name(self) -> (text: String)
        ensures
            text@ == self.name_spec(),
    {
        match self {
            Ciphersuite::ProtobufEd25519 => "ProtobufEd25519".to_owned(),
            Ciphersuite::BincodeEd25519 => "BincodeEd25519".to_owned(),
            Ciphersuite::Unknown(other) => {
                let mut text = "Unknown(".to_owned();
                let digits = crate::text::decimal_string(other as u64);
                text.append(digits.as_str());
                text.append(")");
                text
            },
        }
    }

    pub open spec fn name_spec(self) -> Seq<char> {
        match self {
            Ciphersuite::ProtobufEd25519 => "ProtobufEd25519"@,
            Ciphersuite::BincodeEd25519 => "BincodeEd25519"@,
            Ciphersuite::Unknown(other) => "Unknown("@ + crate::text::decimal(other as nat) + ")"@,
        }
    }
}

impl Default for Ciphersuite {
    fn default() -> (suite: Ciphersuite)
        ensures
            suite == Ciphersuite::ProtobufEd25519,
    {
        Ciphersuite::ProtobufEd25519
    }
}

impl From<u32> for Ciphersuite {
    fn from(value: u32) -> (suite: Ciphersuite) {
        Ciphersuite::from_u32(value)
    }
}

impl FromSpecImpl<u32> for Ciphersuite {
    open spec fn obeys_from_spec() -> bool {
        true
    }

    open spec fn from_spec(value: u32) -> Ciphersuite {
        Ciphersuite::of_discriminant(value)
    }
}

impl From<Ciphersuite> for u32 {
    fn from(suite: Ciphersuite) -> (value: u32) {
        suite.to_u32()
    }
}

impl FromSpecImpl<Ciphersuite> for u32 {
    open spec fn obeys_from_spec() -> bool {
        true
    }

    open spec fn from_spec(suite: Ciphersuite) -> u32 {
        suite.discriminant()
    }
}

/// Writing a canonical suite as a `u32` and reading it back changes nothing,
/// and every `u32` survives the opposite trip.
pub proof fn lemma_ciphersuite_round_trip(suite: Ciphersuite, value: u32)
    ensures
        suite.is_canonical() ==> Ciphersuite::of_discriminant(suite.discriminant()) == suite,
        Ciphersuite::of_discriminant(value).discriminant() == value,
        Ciphersuite::of_discriminant(value).is_canonical(),
{
}

/// Version of the envelope that carries a signature.
#[derive(Copy, Clone, Debug, PartialEq, Eq, Structural)]
pub enum AuditVersion {
    One,
    Unknown(u32),
}

impl AuditVersion {
    pub open spec fn discriminant(self) -> u32 {
        match self {
            AuditVersion::One => AUDIT_VERSION_ONE,
            AuditVersion::Unknown(other) => other,
        }
    }

    pub open spec fn of_discriminant(value: u32) -> AuditVersion {
        if value == AUDIT_VERSION_ONE {
            AuditVersion::One
        } else {
            AuditVersion::Unknown(value)
        }
    }

    pub fn from_u32(value: u32) -> (version: AuditVersion)
        ensures
            version == AuditVersion::of_discriminant(value),
            version.discriminant() == value,
    {
        if value == AUDIT_VERSION_ONE {
            AuditVersion::One
        } else {
            AuditVersion::Unknown(value)
        }
    }

    pub fn to_u32(self) -> (value: u32)
        ensures
            value == self.discriminant(),
    {
        match self {
            AuditVersion::One => AUDIT_VERSION_ONE,
            AuditVersion::Unknown(other) => other,
        }
    }
}

impl Default for AuditVersion {
    fn default() -> (version: AuditVersion)
        ensures
            version == AuditVersion::One,
    {
        AuditVersion::One
    }
}

impl From<u32> for AuditVersion {
    fn from(value: u32) -> (version: AuditVersion) {
        AuditVersion::from_u32(value)
    }
}

impl FromSpecImpl<u32> for AuditVersion {
    open spec fn obeys_from_spec() -> bool {
        true
    }

    open spec fn from_spec(value: u32) -> AuditVersion {
        AuditVersion::of_discriminant(value)
    }
}

impl From<AuditVersion> for u32 {
    fn from(version: AuditVersion) -> (value: u32) {
        version.to_u32()
    }
}

impl FromSpecImpl<AuditVersion> for u32 {
    open spec fn obeys_from_spec() -> bool {
        true
    }

    open spec fn from_spec(version: AuditVersion) -> u32 {
        version.discriminant()
    }
}

/// A sequence number that the directory assigns to each state it publishes.
#[derive(Clone, Copy, Debug, PartialEq, Eq, Structural)]
pub struct Epoch(pub u64);

impl View for Epoch {
    type V = u64;

    open spec fn view(&self) -> u64 {
        self.0
    }
}

impl Epoch {
    pub fn new(epoch: u64) -> (e: Epoch)
        ensures
            e@ == epoch,
    {
        Epoch(epoch)
    }

    pub fn value(&self) -> (v: &u64)
        ensures
            *v == self@,
    {
        &self.0
    }

    /// The epoch after this one.
    pub fn next(&self) -> (e: Epoch)
        requires
            self@ < u64::MAX,
        ensures
            e@ == self@ + 1,
    {
        Epoch(self.0 + 1)
    }

    /// The epoch after this one, or `None` for the last representable epoch.
    pub fn checked_next(&self) -> (r: Option<Epoch>)
        ensures
            self@ < u64::MAX ==> r == Some(Epoch((self@ + 1) as u64)),
            self@ == u64::MAX ==> r is None,
    {
        if self.0 < u64::MAX {
            Some(Epoch(self.0 + 1))
        } else {
            None
        }
    }

    /// Reads an epoch from its decimal form: one or more ASCII digits, with
    /// an optional leading `+`, whose value fits in 64 bits.
    pub fn parse(text: &str) -> (r: Option<Epoch>)
        ensures
            r == match crate::text::parsed_u64(text@) {
                Some(v) => Some(Epoch(v)),
                None => None,
            },
    {
        match crate::text::parse_u64(text) {
            Some(v) => Some(Epoch(v)),
            None => None,
        }
    }

    /// The decimal form of the epoch.
    pub fn to_string(&self) -> (text: String)
        ensures
            text@ == crate::text::decimal(self@ as nat),
    {
        crate::text::decimal_string(self.0)
    }
}

/// The text is not an epoch number.
#[derive(Clone, Copy, Debug, PartialEq, Eq, Structural)]
pub struct EpochParseError;

impl TryFrom<String> for Epoch {
    type Error = EpochParseError;

    fn try_from(value: String) -> (r: Result<Epoch, EpochParseError>) {
        match Epoch::parse(value.as_str()) {
            Some(epoch) => Ok(epoch),
            None => Err(EpochParseError),
        }
    }
}

impl TryFromSpecImpl<String> for Epoch {
    open spec fn obeys_try_from_spec() -> bool {
        true
    }

    open spec fn try_from_spec(value: String) -> Result<Epoch, EpochParseError> {
        match crate::text::parsed_u64(value@) {
            Some(v) => Ok(Epoch(v)),
            None => Err(EpochParseError),
        }
    }
}

impl From<u64> for Epoch {
    fn from(value: u64) -> (e: Epoch) {
        Epoch(value)
    }
}

impl FromSpecImpl<u64> for Epoch {
    open spec fn obeys_from_spec() -> bool {
        true
    }

    open spec fn from_spec(value: u64) -> Epoch {
        Epoch(value)
    }
}

impl From<Epoch> for u64 {
    fn from(epoch: Epoch) -> (value: u64) {
        epoch.0
    }
}

impl FromSpecImpl<Epoch> for u64 {
    open spec fn obeys_from_spec() -> bool {
        true
    }

    open spec fn from_spec(epoch: Epoch) -> u64 {
        epoch.0
    }
}

} // verus!
