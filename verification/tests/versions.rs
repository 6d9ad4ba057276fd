use akd_watch::binary_format::DecodeError;
use akd_watch::{AuditVersion, Ciphersuite, Epoch};

#[test]
fn test_ciphersuite_bincode_encode() {
    fn bincode(cs: Ciphersuite) -> Vec<u8> {
        cs.encode()
    }

    assert_eq!(bincode(Ciphersuite::ProtobufEd25519), vec![1]);
    assert_eq!(bincode(Ciphersuite::BincodeEd25519), vec![2]);
    assert_eq!(bincode(Ciphersuite::Unknown(0xF000)), vec![251, 0, 240]);
}

#[test]
fn test_ciphersuite_bincode_decode() {
    fn decode(bytes: &[u8]) -> Ciphersuite {
        Ciphersuite::decode(bytes).unwrap().0
    }

    assert_eq!(decode(&[1]), Ciphersuite::ProtobufEd25519);
    assert_eq!(decode(&[2]), Ciphersuite::BincodeEd25519);
    assert_eq!(decode(&[251, 0, 240]), Ciphersuite::Unknown(0xF000));
}

#[test]
fn ciphersuite_agrees_with_bincode() {
    let config = bincode::config::standard()
        .with_little_endian()
        .with_variable_int_encoding()
        .with_no_limit();
    for value in [0u32, 1, 2, 250, 251, 0xF000, 0xFFFF, 0x1_0000, 0xFFFF_FFFF] {
        let suite = Ciphersuite::from_u32(value);
        let expected = bincode::encode_to_vec(value, config).unwrap();
        assert_eq!(suite.encode(), expected);
        let (decoded, read) = Ciphersuite::decode(&expected).unwrap();
        assert_eq!(decoded, suite);
        assert_eq!(read, expected.len());
    }
}

#[test]
fn ciphersuite_decode_rejects_wide_and_short_integers() {
    assert_eq!(
        Ciphersuite::decode(&[253, 1, 0, 0, 0, 0, 0, 0, 0]).unwrap_err(),
        DecodeError::InvalidIntegerType
    );
    assert_eq!(Ciphersuite::decode(&[]).unwrap_err(), DecodeError::UnexpectedEnd);
    assert_eq!(Ciphersuite::decode(&[251, 0]).unwrap_err(), DecodeError::UnexpectedEnd);
    assert_eq!(Ciphersuite::decode(&[255]).unwrap_err(), DecodeError::InvalidIntegerType);
}

#[test]
fn ciphersuite_discriminants_round_trip() {
    assert_eq!(Ciphersuite::from_u32(1), Ciphersuite::ProtobufEd25519);
    assert_eq!(Ciphersuite::from_u32(2), Ciphersuite::BincodeEd25519);
    assert_eq!(Ciphersuite::from_u32(0xF000), Ciphersuite::Unknown(0xF000));
    assert_eq!(Ciphersuite::from_u32(7), Ciphersuite::Unknown(7));
    assert_eq!(Ciphersuite::Unknown(7).to_u32(), 7);
    assert_eq!(u32::from(Ciphersuite::BincodeEd25519), 2);
    assert_eq!(Ciphersuite::from(1u32), Ciphersuite::ProtobufEd25519);
    assert_eq!(Ciphersuite::default(), Ciphersuite::ProtobufEd25519);
    for value in [0u32, 1, 2, 3, 0xF000, u32::MAX] {
        assert_eq!(Ciphersuite::from_u32(value).to_u32(), value);
    }
}

#[test]
fn ciphersuite_names() {
    assert_eq!(Ciphersuite::ProtobufEd25519.name(), "ProtobufEd25519");
    assert_eq!(Ciphersuite::Unknown(77).name(), "Unknown(77)");
}

#[test]
fn audit_version_discriminants() {
    assert_eq!(AuditVersion::from_u32(1), AuditVersion::One);
    assert_eq!(AuditVersion::from_u32(9), AuditVersion::Unknown(9));
    assert_eq!(AuditVersion::One.to_u32(), 1);
    assert_eq!(AuditVersion::default(), AuditVersion::One);
    assert_eq!(u32::from(AuditVersion::Unknown(4)), 4);
}

#[test]
fn epoch_next_adds_one() {
    assert_eq!(Epoch::new(41).next(), Epoch::new(42));
    assert_eq!(*Epoch::new(41).value(), 41);
    assert_eq!(Epoch::new(u64::MAX).checked_next(), None);
    assert_eq!(Epoch::new(7).checked_next(), Some(Epoch::new(8)));
    assert_eq!(Epoch::from(5u64), Epoch::new(5));
    assert_eq!(u64::from(Epoch::new(5)), 5);
}

#[test]
fn epoch_text() {
    assert_eq!(Epoch::new(1381400).to_string(), "1381400");
    assert_eq!(Epoch::new(0).to_string(), "0");
    assert_eq!(Epoch::parse("1381400"), Some(Epoch::new(1381400)));
    assert_eq!(Epoch::parse("+12"), Some(Epoch::new(12)));
    assert_eq!(Epoch::parse("007"), Some(Epoch::new(7)));
    assert_eq!(Epoch::parse(""), None);
    assert_eq!(Epoch::parse("+"), None);
    assert_eq!(Epoch::parse("-1"), None);
    assert_eq!(Epoch::parse("12a"), None);
    assert_eq!(Epoch::parse("18446744073709551615"), Some(Epoch::new(u64::MAX)));
    assert_eq!(Epoch::parse("18446744073709551616"), None);
    assert_eq!(Epoch::try_from("42".to_string()), Ok(Epoch::new(42)));
    assert!(Epoch::try_from("forty-two".to_string()).is_err());
}
