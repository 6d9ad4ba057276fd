use akd_watch::binary_format::{
    append_bytes, read_length_prefixed, read_signed_varint, read_varint, write_length_prefixed,
    write_signed_varint, write_varint, DecodeError,
};
use akd_watch::crypto::SigningKey;
use akd_watch::proto_format::{write_base128, write_bytes_field, write_integer_field};
use akd_watch::{
    Ciphersuite, Epoch, EpochSignature, EpochSignatureV1, EpochSignedMessage, SerializationError,
};

fn bincode_config() -> bincode::config::Configuration<
    bincode::config::LittleEndian,
    bincode::config::Varint,
    bincode::config::NoLimit,
> {
    bincode::config::standard()
        .with_little_endian()
        .with_variable_int_encoding()
        .with_no_limit()
}

fn sample_signature(ciphersuite: Ciphersuite) -> EpochSignature {
    EpochSignature::V1(EpochSignatureV1 {
        ciphersuite,
        namespace: "näme/space".to_string(),
        timestamp: 1_700_000_000,
        epoch: Epoch::new(1381400),
        digest: vec![7u8; 32],
        signature: (0u8..64).collect(),
        key_id: 0xd8d7d6d5d4d3d2d1c2c1b2b1a4a3a2a1,
    })
}

fn fields(signature: &EpochSignature) -> &EpochSignatureV1 {
    match signature {
        EpochSignature::V1(v1) => v1,
    }
}

fn same(a: &EpochSignature, b: &EpochSignature) -> bool {
    let (a, b) = (fields(a), fields(b));
    a.ciphersuite == b.ciphersuite
        && a.namespace == b.namespace
        && a.timestamp == b.timestamp
        && a.epoch == b.epoch
        && a.digest == b.digest
        && a.signature == b.signature
        && a.key_id == b.key_id
}

#[test]
fn varint_has_the_documented_widths() {
    for (value, expected) in [
        (0u64, vec![0u8]),
        (250, vec![250]),
        (251, vec![251, 251, 0]),
        (0xF000, vec![251, 0, 240]),
        (0xFFFF, vec![251, 255, 255]),
        (0x1_0000, vec![252, 0, 0, 1, 0]),
        (0xFFFF_FFFF, vec![252, 255, 255, 255, 255]),
        (0x1_0000_0000, vec![253, 0, 0, 0, 0, 1, 0, 0, 0]),
    ] {
        let mut out = vec![9u8];
        write_varint(&mut out, value);
        assert_eq!(out[1..], expected[..]);
        assert_eq!(out[1..], bincode::encode_to_vec(value, bincode_config()).unwrap()[..]);
        assert_eq!(read_varint(&out, 1, 8), Ok((value, out.len())));
    }
}

#[test]
fn signed_varint_folds_small_magnitudes() {
    for value in [0i64, -1, 1, -2, 2, 125, -126, 1_700_000_000, i64::MAX, i64::MIN] {
        let mut out = Vec::new();
        write_signed_varint(&mut out, value);
        assert_eq!(out, bincode::encode_to_vec(value, bincode_config()).unwrap());
        assert_eq!(read_signed_varint(&out, 0), Ok((value, out.len())));
    }
    let mut out = Vec::new();
    write_signed_varint(&mut out, -1);
    assert_eq!(out, vec![1]);
    let mut out = Vec::new();
    write_signed_varint(&mut out, 1);
    assert_eq!(out, vec![2]);
}

#[test]
fn length_prefixed_bytes_round_trip() {
    let data = vec![1u8, 2, 3, 4, 5];
    let mut out = vec![0xAA];
    write_length_prefixed(&mut out, &data);
    assert_eq!(out, vec![0xAA, 5, 1, 2, 3, 4, 5]);
    assert_eq!(out[1..], bincode::encode_to_vec(&data, bincode_config()).unwrap()[..]);
    let (found, next) = read_length_prefixed(&out, 1).unwrap();
    assert_eq!(found, data);
    assert_eq!(next, out.len());
    assert_eq!(
        read_length_prefixed(&[5, 1, 2], 0).unwrap_err(),
        DecodeError::UnexpectedEnd
    );
    let mut out = vec![1u8];
    append_bytes(&mut out, &[2, 3]);
    assert_eq!(out, vec![1, 2, 3]);
}

#[test]
fn readers_report_what_is_wrong() {
    assert_eq!(read_varint(&[], 0, 8), Err(DecodeError::UnexpectedEnd));
    assert_eq!(read_varint(&[252, 1, 2], 0, 8), Err(DecodeError::UnexpectedEnd));
    assert_eq!(read_varint(&[254, 0], 0, 8), Err(DecodeError::InvalidIntegerType));
    assert_eq!(
        read_varint(&[253, 0, 0, 0, 0, 0, 0, 0, 0], 0, 4),
        Err(DecodeError::InvalidIntegerType)
    );
    assert_eq!(read_varint(&[251, 5, 0], 0, 4), Ok((5, 3)));
    assert_eq!(DecodeError::UnexpectedEnd.to_string(), "unexpected end of input");
}

#[test]
fn stored_signature_round_trips() {
    for suite in [
        Ciphersuite::ProtobufEd25519,
        Ciphersuite::BincodeEd25519,
        Ciphersuite::Unknown(0xF000),
        Ciphersuite::Unknown(77),
    ] {
        let signature = sample_signature(suite);
        let bytes = signature.encode();
        let (decoded, read) = EpochSignature::decode(&bytes).unwrap();
        assert_eq!(read, bytes.len());
        assert!(same(&decoded, &signature));
        let mut longer = bytes.clone();
        longer.extend_from_slice(&[1, 2, 3]);
        let (decoded, read) = EpochSignature::decode(&longer).unwrap();
        assert_eq!(read, bytes.len());
        assert!(same(&decoded, &signature));
    }
}

#[test]
fn stored_signature_agrees_with_bincode() {
    let signature = sample_signature(Ciphersuite::ProtobufEd25519);
    let v1 = fields(&signature);
    let key_bytes: Vec<u8> = uuid::Uuid::from_u128_le(v1.key_id).as_bytes().to_vec();
    let expected = bincode::encode_to_vec(
        (
            0u32,
            v1.ciphersuite.to_u32(),
            v1.namespace.clone(),
            v1.timestamp,
            *v1.epoch.value(),
            v1.digest.clone(),
            v1.signature.clone(),
            key_bytes,
        ),
        bincode_config(),
    )
    .unwrap();
    assert_eq!(signature.encode(), expected);
    let (tuple, _): (
        (u32, u32, String, i64, u64, Vec<u8>, Vec<u8>, Vec<u8>),
        usize,
    ) = bincode::decode_from_slice(&signature.encode(), bincode_config()).unwrap();
    assert_eq!(tuple.2, v1.namespace);
    assert_eq!(tuple.7.len(), 16);
}

#[test]
fn stored_signature_rejects_what_is_no_signature() {
    let bytes = sample_signature(Ciphersuite::ProtobufEd25519).encode();
    assert_eq!(
        EpochSignature::decode(&[]).unwrap_err(),
        DecodeError::UnexpectedEnd
    );
    let mut other_variant = bytes.clone();
    other_variant[0] = 1;
    assert_eq!(
        EpochSignature::decode(&other_variant).unwrap_err(),
        DecodeError::UnexpectedVariant
    );
    assert_eq!(
        EpochSignature::decode(&bytes[..bytes.len() - 1]).unwrap_err(),
        DecodeError::UnexpectedEnd
    );
    // variant, suite, a namespace of one byte that is no UTF-8
    assert_eq!(
        EpochSignature::decode(&[0, 1, 1, 0xFF, 0, 0, 0, 0, 0]).unwrap_err(),
        DecodeError::InvalidUtf8
    );
    // a key identifier of 15 bytes
    let mut short_key = vec![0u8, 1, 0, 0, 0, 0, 0, 15];
    short_key.extend_from_slice(&[0u8; 15]);
    assert_eq!(
        EpochSignature::decode(&short_key).unwrap_err(),
        DecodeError::InvalidKeyIdLength
    );
}

#[test]
fn base128_is_the_protocol_buffer_integer() {
    for value in [0u64, 1, 127, 128, 300, 16_383, 16_384, u32::MAX as u64, u64::MAX] {
        let mut out = Vec::new();
        write_base128(&mut out, value);
        let mut expected = Vec::new();
        prost::encoding::encode_varint(value, &mut expected);
        assert_eq!(out, expected);
    }
    let mut out = Vec::new();
    write_base128(&mut out, 300);
    assert_eq!(out, vec![0xAC, 0x02]);
}

#[test]
fn fields_agree_with_prost() {
    let mut out = Vec::new();
    write_integer_field(&mut out, 3, 1_700_000_000);
    let mut expected = Vec::new();
    prost::encoding::uint64::encode(3, &1_700_000_000u64, &mut expected);
    assert_eq!(out, expected);

    let mut out = Vec::new();
    write_bytes_field(&mut out, 5, &[9, 8, 7]);
    let mut expected = Vec::new();
    prost::encoding::bytes::encode(5, &vec![9u8, 8, 7], &mut expected);
    assert_eq!(out, expected);
}

#[test]
fn protobuf_message_has_every_field_in_order() {
    let message = EpochSignedMessage {
        ciphersuite: Ciphersuite::ProtobufEd25519,
        namespace: "ns".to_string(),
        timestamp: 5,
        epoch: Epoch::new(300),
        digest: vec![0xAB, 0xCD],
    };
    let bytes = message.to_vec().unwrap();
    assert_eq!(
        bytes,
        vec![0x08, 0x01, 0x12, 0x02, b'n', b's', 0x18, 0x05, 0x20, 0xAC, 0x02, 0x2A, 0x02, 0xAB, 0xCD]
    );
    let mut expected = Vec::new();
    prost::encoding::uint32::encode(1, &1u32, &mut expected);
    prost::encoding::string::encode(2, &"ns".to_string(), &mut expected);
    prost::encoding::uint64::encode(3, &5u64, &mut expected);
    prost::encoding::uint64::encode(4, &300u64, &mut expected);
    prost::encoding::bytes::encode(5, &vec![0xABu8, 0xCD], &mut expected);
    assert_eq!(bytes, expected);

    let zero = EpochSignedMessage {
        ciphersuite: Ciphersuite::ProtobufEd25519,
        namespace: String::new(),
        timestamp: -1,
        epoch: Epoch::new(0),
        digest: vec![],
    };
    let mut expected = Vec::new();
    prost::encoding::uint32::encode(1, &1u32, &mut expected);
    prost::encoding::string::encode(2, &String::new(), &mut expected);
    prost::encoding::uint64::encode(3, &u64::MAX, &mut expected);
    prost::encoding::uint64::encode(4, &0u64, &mut expected);
    prost::encoding::bytes::encode(5, &Vec::<u8>::new(), &mut expected);
    assert_eq!(zero.to_vec().unwrap(), expected);
}

#[test]
fn bincode_message_agrees_with_bincode() {
    let message = EpochSignedMessage {
        ciphersuite: Ciphersuite::BincodeEd25519,
        namespace: "namespace".to_string(),
        timestamp: -42,
        epoch: Epoch::new(70_000),
        digest: vec![1u8; 32],
    };
    let expected = bincode::encode_to_vec(
        (2u32, "namespace".to_string(), -42i64, 70_000u64, vec![1u8; 32]),
        bincode_config(),
    )
    .unwrap();
    assert_eq!(message.to_vec().unwrap(), expected);
}

#[test]
fn unknown_ciphersuite_has_no_message() {
    let message = EpochSignedMessage {
        ciphersuite: Ciphersuite::Unknown(9),
        namespace: "ns".to_string(),
        timestamp: 0,
        epoch: Epoch::new(1),
        digest: vec![],
    };
    match message.to_vec() {
        Err(SerializationError::UnknownFormat(name)) => assert_eq!(name, "Unknown(9)"),
        other => panic!("expected UnknownFormat, got {:?}", other),
    }
    let error = message.to_vec().unwrap_err();
    assert_eq!(
        error.to_string(),
        "Unsupported format for serialization/deserialization: Unknown(9)"
    );
    let other = EpochSignedMessage {
        ciphersuite: Ciphersuite::Unknown(0xF000),
        ..message.clone()
    };
    assert!(other.to_vec().is_err());
}

#[test]
fn signing_a_stored_round_trip_still_verifies() {
    let key = SigningKey::generate(60_000);
    let signature =
        EpochSignature::sign_at("ns", Epoch::new(3), [5u8; 32], &key, 1_700_000_000).unwrap();
    let (decoded, _) = EpochSignature::decode(&signature.encode()).unwrap();
    assert!(decoded
        .verify_with_key(&key.verifying_key().unwrap())
        .is_ok());
}
