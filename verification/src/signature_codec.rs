//! The stored form of a signature: the index of the envelope's version,
//! then the fields of the envelope in order, in the compact binary encoding.

use vstd::prelude::*;
use vstd::bytes::{
    lemma_auto_spec_u128_to_from_le_bytes, spec_u128_from_le_bytes, u128_from_le_bytes,
    u128_to_le_bytes,
};
use vstd::utf8::{
    decode_utf8, encode_utf8, encode_utf8_decode_utf8, encode_utf8_valid_utf8, valid_utf8,
};
use crate::binary_format::{
    lemma_parse_length_prefixed, lemma_parse_varint_of_varint, lemma_unzigzag_of_zigzag,
    length_prefixed, parse_length_prefixed, parse_varint, read_length_prefixed,
    read_signed_varint, read_varint, unzigzag, varint, write_length_prefixed,
    write_signed_varint, write_varint, zigzag, DecodeError,
};
use crate::crypto::key_id_bytes;
use crate::epoch_signature::{EpochSignature, EpochSignatureV1, EpochSignatureView, VARIANT_V1};
use crate::text::string_from_utf8;
use crate::versions::{Ciphersuite, Epoch};

verus! {

/// The stored form of a signature.
pub open spec fn encoded_signature(s: EpochSignatureView) -> Seq<u8> {
    varint(VARIANT_V1 as u64) + (varint(s.ciphersuite.discriminant() as u64) + (length_prefixed(
        encode_utf8(s.namespace),
    ) + (varint(zigzag(s.timestamp)) + (varint(s.epoch) + (length_prefixed(s.digest) + (
    length_prefixed(s.signature) + length_prefixed(key_id_bytes(s.key_id))))))))
}

/// What reading a signature from the front of `s` yields: the signature and
/// the number of bytes read, or the first thing that is wrong.
pub open spec fn parse_signature(s: Seq<u8>) -> Result<(EpochSignatureView, nat), DecodeError> {
    match parse_varint(s, 4) {
        Err(e) => Err(e),
        Ok((variant, n0)) => if variant != VARIANT_V1 {
            Err(DecodeError::UnexpectedVariant)
        } else {
            match parse_varint(s.skip(n0 as int), 4) {
                Err(e) => Err(e),
                Ok((suite, n1)) => match parse_length_prefixed(s.skip((n0 + n1) as int)) {
                    Err(e) => Err(e),
                    Ok((namespace, n2)) => if !valid_utf8(namespace) {
                        Err(DecodeError::InvalidUtf8)
                    } else {
                        match parse_varint(s.skip((n0 + n1 + n2) as int), 8) {
                            Err(e) => Err(e),
                            Ok((timestamp, n3)) => match parse_varint(
                                s.skip((n0 + n1 + n2 + n3) as int),
                                8,
                            ) {
                                Err(e) => Err(e),
                                Ok((epoch, n4)) => parse_signature_tail(
                                    s,
                                    (n0 + n1 + n2 + n3 + n4) as nat,
                                    Ciphersuite::of_discriminant(suite as u32),
                                    decode_utf8(namespace),
                                    unzigzag(timestamp),
                                    epoch,
                                ),
                            },
                        }
                    },
                },
            }
        },
    }
}

/// The second half of `parse_signature`: the digest, the signature and the
/// key identifier, read from position `at`.
pub open spec fn parse_signature_tail(
    s: Seq<u8>,
    at: nat,
    ciphersuite: Ciphersuite,
    namespace: Seq<char>,
    timestamp: i64,
    epoch: u64,
) -> Result<(EpochSignatureView, nat), DecodeError> {
    match parse_length_prefixed(s.skip(at as int)) {
        Err(e) => Err(e),
        Ok((digest, n5)) => match parse_length_prefixed(s.skip((at + n5) as int)) {
            Err(e) => Err(e),
            Ok((signature, n6)) => match parse_length_prefixed(s.skip((at + n5 + n6) as int)) {
                Err(e) => Err(e),
                Ok((key_id, n7)) => if key_id.len() != 16 {
                    Err(DecodeError::InvalidKeyIdLength)
                } else {
                    Ok(
                        (
                            EpochSignatureView {
                                ciphersuite: ciphersuite,
                                namespace: namespace,
                                timestamp: timestamp,
                                epoch: epoch,
                                digest: digest,
                                signature: signature,
                                key_id: spec_u128_from_le_bytes(key_id),
                            },
                            (at + n5 + n6 + n7) as nat,
                        ),
                    )
                },
            },
        },
    }
}

/// Once a field has been read, what follows it is what is left to read.
proof fn lemma_skip_field(all: Seq<u8>, at: nat, field: Seq<u8>, tail: Seq<u8>)
    requires
        at <= all.len(),
        all.skip(at as int) == field + tail,
    ensures
        at + field.len() <= all.len(),
        all.skip((at + field.len()) as int) == tail,
{
    assert((field + tail).len() == field.len() + tail.len());
    assert(all.skip((at + field.len()) as int) =~= (field + tail).skip(field.len() as int));
    assert((field + tail).skip(field.len() as int) =~= tail);
}

/// The second half of a stored signature reads back as it was written.
proof fn lemma_parse_tail_of_encode(
    all: Seq<u8>,
    at: nat,
    s: EpochSignatureView,
    rest: Seq<u8>,
)
    requires
        s.well_formed(),
        at <= all.len(),
        all.skip(at as int) == length_prefixed(s.digest) + (length_prefixed(s.signature) + (
        length_prefixed(key_id_bytes(s.key_id)) + rest)),
    ensures
        parse_signature_tail(all, at, s.ciphersuite, s.namespace, s.timestamp, s.epoch) == Ok::<
            (EpochSignatureView, nat),
            DecodeError,
        >(
            (
                s,
                (at + length_prefixed(s.digest).len() + length_prefixed(s.signature).len()
                    + length_prefixed(key_id_bytes(s.key_id)).len()) as nat,
            ),
        ),
{
    let key = key_id_bytes(s.key_id);
    let f5 = length_prefixed(s.digest);
    let f6 = length_prefixed(s.signature);
    let f7 = length_prefixed(key);
    let t7 = f7 + rest;
    let t6 = f6 + t7;
    assert(key.len() == 16 && spec_u128_from_le_bytes(key) == s.key_id) by {
        lemma_auto_spec_u128_to_from_le_bytes();
    }
    lemma_parse_length_prefixed(s.digest, t6);
    lemma_skip_field(all, at, f5, t6);
    lemma_parse_length_prefixed(s.signature, t7);
    lemma_skip_field(all, (at + f5.len()) as nat, f6, t7);
    lemma_parse_length_prefixed(key, rest);
}

/// Reading a well-formed signature back from its stored form yields the
/// signature, whatever follows it.
#[verifier::rlimit(60)]
#[verifier::spinoff_prover]
pub proof fn lemma_decode_of_encode(signature: EpochSignatureView, rest: Seq<u8>)
    requires
        signature.well_formed(),
    ensures
        parse_signature(encoded_signature(signature) + rest) == Ok::<
            (EpochSignatureView, nat),
            DecodeError,
        >((signature, encoded_signature(signature).len())),
{
    let s = signature;
    let all = encoded_signature(s) + rest;
    let namespace = encode_utf8(s.namespace);
    let f0 = varint(VARIANT_V1 as u64);
    let f1 = varint(s.ciphersuite.discriminant() as u64);
    let f2 = length_prefixed(namespace);
    let f3 = varint(zigzag(s.timestamp));
    let f4 = varint(s.epoch);
    let t5 = length_prefixed(s.digest) + (length_prefixed(s.signature) + (length_prefixed(
        key_id_bytes(s.key_id),
    ) + rest));
    let t4 = f4 + t5;
    let t3 = f3 + t4;
    let t2 = f2 + t3;
    let t1 = f1 + t2;
    assert(all.skip(0) == f0 + t1) by {
        assert(all =~= f0 + t1);
        assert(all.skip(0) =~= all);
    }
    assert(valid_utf8(namespace) && decode_utf8(namespace) == s.namespace) by {
        encode_utf8_valid_utf8(s.namespace);
        encode_utf8_decode_utf8(s.namespace);
    }
    lemma_unzigzag_of_zigzag(s.timestamp);
    lemma_parse_varint_of_varint(VARIANT_V1 as u64, t1, 4);
    lemma_skip_field(all, 0, f0, t1);
    lemma_parse_varint_of_varint(s.ciphersuite.discriminant() as u64, t2, 4);
    lemma_skip_field(all, f0.len(), f1, t2);
    lemma_parse_length_prefixed(namespace, t3);
    lemma_skip_field(all, (f0.len() + f1.len()) as nat, f2, t3);
    lemma_parse_varint_of_varint(zigzag(s.timestamp), t4, 8);
    lemma_skip_field(all, (f0.len() + f1.len() + f2.len()) as nat, f3, t4);
    lemma_parse_varint_of_varint(s.epoch, t5, 8);
    lemma_skip_field(all, (f0.len() + f1.len() + f2.len() + f3.len()) as nat, f4, t5);
    let at = (f0.len() + f1.len() + f2.len() + f3.len() + f4.len()) as nat;
    lemma_parse_tail_of_encode(all, at, s, rest);
    assert(all.skip(0) =~= all);
    assert(Ciphersuite::of_discriminant(s.ciphersuite.discriminant()) == s.ciphersuite);
}

impl EpochSignature {
    /// The stored form of the signature.
    pub fn encode(&self) -> (out: Vec<u8>)
        ensures
            out@ == encoded_signature(self@),
    {
        match self {
            EpochSignature::V1(signature) => {
                let mut out: Vec<u8> = Vec::new();
                write_varint(&mut out, VARIANT_V1 as u64);
                write_varint(&mut out, signature.ciphersuite.to_u32() as u64);
                write_length_prefixed(&mut out, signature.namespace.as_str().as_bytes());
                write_signed_varint(&mut out, signature.timestamp);
                write_varint(&mut out, signature.epoch.0);
                write_length_prefixed(&mut out, signature.digest.as_slice());
                write_length_prefixed(&mut out, signature.signature.as_slice());
                let key_id = u128_to_le_bytes(signature.key_id);
                write_length_prefixed(&mut out, key_id.as_slice());
                assert(out@ =~= encoded_signature(self@));
                out
            },
        }
    }

    /// Reads a signature from the front of `bytes`. On success the second
    /// component is the number of bytes read; bytes after them are ignored.
    pub fn decode(bytes: &[u8]) -> (r: Result<(EpochSignature, usize), DecodeError>)
        ensures
            match parse_signature(bytes@) {
                Ok((signature, n)) => r matches Ok((found, read)) && found@ == signature && read
                    == n,
                Err(e) => r matches Err(found) && found == e,
            },
    {
        assert(bytes@.skip(0) =~= bytes@);
        let (variant, p1) = match read_varint(bytes, 0, 4) {
            Ok(found) => found,
            Err(e) => {
                return Err(e);
            },
        };
        if variant != VARIANT_V1 as u64 {
            return Err(DecodeError::UnexpectedVariant);
        }
        let (suite, p2) = match read_varint(bytes, p1, 4) {
            Ok(found) => found,
            Err(e) => {
                return Err(e);
            },
        };
        let (namespace_bytes, p3) = match read_length_prefixed(bytes, p2) {
            Ok(found) => found,
            Err(e) => {
                return Err(e);
            },
        };
        let namespace = match string_from_utf8(namespace_bytes) {
            Some(text) => text,
            None => {
                return Err(DecodeError::InvalidUtf8);
            },
        };
        let (timestamp, p4) = match read_signed_varint(bytes, p3) {
            Ok(found) => found,
            Err(e) => {
                return Err(e);
            },
        };
        let (epoch, p5) = match read_varint(bytes, p4, 8) {
            Ok(found) => found,
            Err(e) => {
                return Err(e);
            },
        };
        let (digest, p6) = match read_length_prefixed(bytes, p5) {
            Ok(found) => found,
            Err(e) => {
                return Err(e);
            },
        };
        let (signature, p7) = match read_length_prefixed(bytes, p6) {
            Ok(found) => found,
            Err(e) => {
                return Err(e);
            },
        };
        let (key_id, p8) = match read_length_prefixed(bytes, p7) {
            Ok(found) => found,
            Err(e) => {
                return Err(e);
            },
        };
        if key_id.len() != 16 {
            return Err(DecodeError::InvalidKeyIdLength);
        }
        Ok(
            (
                EpochSignature::V1(
                    EpochSignatureV1 {
                        ciphersuite: Ciphersuite::from_u32(suite as u32),
                        namespace,
                        timestamp,
                        epoch: Epoch(epoch),
                        digest,
                        signature,
                        key_id: u128_from_le_bytes(key_id.as_slice()),
                    },
                ),
                p8,
            ),
        )
    }
}

/// Writing a well-formed signature and reading it back yields the
/// signature and consumes exactly what was written.
pub proof fn lemma_signature_round_trip(signature: EpochSignatureView)
    requires
        signature.well_formed(),
    ensures
        parse_signature(encoded_signature(signature)) == Ok::<
            (EpochSignatureView, nat),
            DecodeError,
        >((signature, encoded_signature(signature).len())),
{
    lemma_decode_of_encode(signature, Seq::empty());
    assert(encoded_signature(signature) + Seq::<u8>::empty() =~= encoded_signature(signature));
}

impl Ciphersuite {
    /// The suite in the compact binary encoding: its discriminant.
    pub fn encode(&self) -> (out: Vec<u8>)
        ensures
            out@ == varint(self.discriminant() as u64),
    {
        let mut out: Vec<u8> = Vec::new();
        write_varint(&mut out, self.to_u32() as u64);
        assert(out@ =~= varint(self.discriminant() as u64));
        out
    }

    /// Reads a suite from the front of `bytes`. On success the second
    /// component is the number of bytes read.
    pub fn decode(bytes: &[u8]) -> (r: Result<(Ciphersuite, usize), DecodeError>)
        ensures
            match parse_varint(bytes@, 4) {
                Ok((discriminant, n)) => r matches Ok((suite, read)) && suite
                    == Ciphersuite::of_discriminant(discriminant as u32) && read == n,
                Err(e) => r matches Err(found) && found == e,
            },
    {
        assert(bytes@.skip(0) =~= bytes@);
        match read_varint(bytes, 0, 4) {
            Ok((discriminant, read)) => {
                proof {
                    reveal(parse_varint);
                }
                Ok((Ciphersuite::from_u32(discriminant as u32), read))
            },
            Err(e) => Err(e),
        }
    }
}

/// A canonical suite that is written and read back is the same suite.
pub proof fn lemma_ciphersuite_decode_of_encode(suite: Ciphersuite, rest: Seq<u8>)
    requires
        suite.is_canonical(),
    ensures
        parse_varint(varint(suite.discriminant() as u64) + rest, 4) matches Ok((discriminant, n))
            && Ciphersuite::of_discriminant(discriminant as u32) == suite && n == varint(
            suite.discriminant() as u64,
        ).len(),
{
    lemma_parse_varint_of_varint(suite.discriminant() as u64, rest, 4);
}

} // verus!
