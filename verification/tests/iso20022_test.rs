use estream_runtime::iso20022::codes::{str_eq, EsfFieldType, MessageType, PrivacyTier};
use estream_runtime::iso20022::error::{Error, ErrorCode};
use estream_runtime::iso20022::esf::{push_le, EsfBuilder, EsfReader};
use estream_runtime::iso20022::messages::{SettlementMethod, StatusReason};
use estream_runtime::iso20022::schema::compute_path_hash;
use estream_runtime::iso20022::types::{Bic, ChargeBearer, Iban, TransactionStatus};

#[test]
fn test_path_hash_consistency() {
    // These hashes should match the values in schema_rom.v
    let hash = compute_path_hash("/Document/FIToFICstmrCdtTrf/GrpHdr/MsgId");
    assert!(hash != 0);

    // Different paths should produce different hashes
    let hash2 = compute_path_hash("/Document/FIToFICstmrCdtTrf/GrpHdr/CreDtTm");
    assert_ne!(hash, hash2);
}

#[test]
fn path_hash_is_fnv1a() {
    assert_eq!(compute_path_hash(""), 0x811c9dc5);
    assert_eq!(compute_path_hash("a"), 0xe40c292c);
    assert_eq!(compute_path_hash("foobar"), 0xbf9cf968);
}

#[test]
fn message_types_and_their_codes() {
    assert_eq!(MessageType::from_code(0x0008), Some(MessageType::Pacs008));
    assert_eq!(MessageType::from_code(0x0002), Some(MessageType::Pacs002));
    assert_eq!(MessageType::from_code(0x0053), Some(MessageType::Camt053));
    assert_eq!(MessageType::from_code(0x0052), Some(MessageType::Camt052));
    assert_eq!(MessageType::from_code(0x0000), None);
    assert_eq!(MessageType::Pacs008.code(), 0x0008);
    assert_eq!(MessageType::Pacs008.identifier(), "pacs.008.001.08");
    assert_eq!(MessageType::Pacs002.identifier(), "pacs.002.001.10");
    assert_eq!(MessageType::Camt053.root_element(), "BkToCstmrStmt");
    assert_eq!(MessageType::Camt052.root_element(), "BkToCstmrAcctRpt");
    assert_eq!(PrivacyTier::Encrypted.code(), 4);
    assert_eq!(EsfFieldType::Enum.code(), 0x0F);
    assert_eq!(EsfFieldType::read_code(0x0C), EsfFieldType::Bic);
    assert_eq!(EsfFieldType::read_code(0x07), EsfFieldType::NoType);
    assert_eq!(EsfFieldType::read_code(0x10), EsfFieldType::NoType);
}

#[test]
fn status_codes_round_trip() {
    for s in [
        TransactionStatus::AcceptedSettlementCompleted,
        TransactionStatus::AcceptedSettlementInProgress,
        TransactionStatus::Pending,
        TransactionStatus::Rejected,
        TransactionStatus::AcceptedTechnicalValidation,
        TransactionStatus::AcceptedCustomerProfile,
    ] {
        assert_eq!(TransactionStatus::from_code(s.code()), Some(s));
    }
    assert_eq!(TransactionStatus::Rejected.code(), "RJCT");
    assert_eq!(TransactionStatus::from_code("rjct"), None);
    for c in [ChargeBearer::Debt, ChargeBearer::Cred, ChargeBearer::Shar, ChargeBearer::Slev] {
        assert_eq!(ChargeBearer::from_code(c.code()), Some(c));
    }
    assert_eq!(ChargeBearer::from_code("SHARE"), None);
    for r in [
        StatusReason::AccountClosed,
        StatusReason::AccountBlocked,
        StatusReason::InsufficientFunds,
        StatusReason::InvalidAccount,
        StatusReason::InvalidDebtorAccount,
        StatusReason::InvalidCreditorAccount,
        StatusReason::NoMandate,
        StatusReason::RegulatoryReason,
        StatusReason::AgentDecision,
        StatusReason::Other,
    ] {
        assert_eq!(StatusReason::from_code(r.code()), Some(r));
    }
    assert_eq!(StatusReason::InsufficientFunds.code(), "AM04");
    assert_eq!(StatusReason::from_code(""), None);
    assert_eq!(SettlementMethod::ClearingSystem.code(), "CLRG");
    assert_eq!(SettlementMethod::InstructedAgent.code(), "INDA");
    assert_eq!(SettlementMethod::InstructingAgent.code(), "INGA");
    assert!(str_eq("a", "a"));
    assert!(!str_eq("a", "b"));
}

#[test]
fn error_codes_of_errors() {
    assert_eq!(ErrorCode::of(&Error::XmlSyntax { offset: 1, message: "x".into() }), ErrorCode::Syntax);
    assert_eq!(ErrorCode::of(&Error::TagMismatch { expected: "a".into(), found: "b".into() }), ErrorCode::Mismatch);
    assert_eq!(ErrorCode::of(&Error::InvalidBic { value: "x".into() }), ErrorCode::Schema);
    assert_eq!(ErrorCode::of(&Error::FieldOverflow { field: "f".into(), max_len: 3 }), ErrorCode::Overflow);
    assert_eq!(ErrorCode::Syntax.code(), 0x3001);
    assert_eq!(ErrorCode::Timeout.code(), 0x3008);
}

#[test]
fn bic_is_validated_and_split() {
    let bic = Bic::new("COBADEFFXXX").unwrap();
    assert_eq!(bic.institution_code(), "COBA");
    assert_eq!(bic.country_code(), "DE");
    assert_eq!(bic.location_code(), "FF");
    assert_eq!(bic.branch_code(), Some("XXX"));
    let short = Bic::new("BNPAFRPP").unwrap();
    assert_eq!(short.branch_code(), None);
    assert_eq!(short.country_code(), "FR");
    for bad in ["", "COBADEFF9", "COBA-EFF", "COBADEFFXX\u{e9}", "COBADEF\u{e9}"] {
        match Bic::new(bad) {
            Err(Error::InvalidBic { value }) => assert_eq!(value, bad),
            _ => panic!("{} accepted", bad),
        }
    }
}

#[test]
fn iban_is_normalised_and_split() {
    let iban = Iban::new("de89 3704 0044 0532 0130 00").unwrap();
    assert_eq!(iban.0, "DE89370400440532013000");
    assert_eq!(iban.country_code(), "DE");
    assert_eq!(iban.check_digits(), "89");
    assert_eq!(iban.bban(), "370400440532013000");
    match Iban::new("de89 3704") {
        Err(Error::InvalidIban { value }) => assert_eq!(value, "DE893704"),
        _ => panic!("short iban accepted"),
    }
    assert!(Iban::new("A".repeat(34).as_str()).is_ok());
    assert!(Iban::new("A".repeat(35).as_str()).is_err());
    assert!(Iban::new("A".repeat(15).as_str()).is_ok());
    assert!(Iban::new("A".repeat(14).as_str()).is_err());
}

#[test]
fn esf_message_layout() {
    let mut b = EsfBuilder::new(MessageType::Pacs008);
    b.add_string(0x0001, "MSG-1").unwrap();
    b.add_u32(0x0003, 0x01020304).unwrap();
    b.add_enum(0x0203, "SHAR").unwrap();
    assert_eq!(b.field_count(), 3);
    let bytes = b.build().unwrap();
    let mut want: Vec<u8> = vec![
        0x00, 0x46, 0x53, 0x45, // magic
        0x00, 0x01, // version
        0x08, 0x00, // message type
        0x03, 0x00, // field count
        41, 0, 0, 0, // total length
        0, 0, // reserved
    ];
    want.extend_from_slice(&[0x01, 0x00, 0x01, 5]);
    want.extend_from_slice(b"MSG-1");
    want.extend_from_slice(&[0x03, 0x00, 0x04, 4, 0x04, 0x03, 0x02, 0x01]);
    want.extend_from_slice(&[0x03, 0x02, 0x0F, 4]);
    want.extend_from_slice(b"SHAR");
    assert_eq!(bytes, want);
}

#[test]
fn esf_read_back() {
    let mut b = EsfBuilder::new(MessageType::Pacs002);
    b.add_string(0x1001, "PACS002-1").unwrap();
    b.add_datetime(0x1002, 1_705_314_600).unwrap();
    b.add_amount(0x0201, 100_000).unwrap();
    b.add_bic(0x0402, &Bic::new("COBADEFFXXX").unwrap()).unwrap();
    b.add_iban(0x0401, &Iban::new("DE89370400440532013000").unwrap()).unwrap();
    let bytes = b.build().unwrap();
    let mut r = EsfReader::new(&bytes).unwrap();
    assert_eq!(r.message_type(), Some(MessageType::Pacs002));
    assert_eq!(r.field_count(), 5);
    let (id, t, data) = r.next_field().unwrap();
    assert_eq!((id, t), (0x1001, EsfFieldType::String));
    assert_eq!(data, b"PACS002-1");
    let (id, t, data) = r.next_field().unwrap();
    assert_eq!((id, t), (0x1002, EsfFieldType::DateTime));
    assert_eq!(data, &1_705_314_600u64.to_le_bytes());
    let (id, t, data) = r.next_field().unwrap();
    assert_eq!((id, t), (0x0201, EsfFieldType::U128));
    assert_eq!(data, &100_000u128.to_le_bytes());
    let (id, t, data) = r.next_field().unwrap();
    assert_eq!((id, t), (0x0402, EsfFieldType::Bic));
    assert_eq!(data, b"COBADEFFXXX");
    let (id, t, data) = r.next_field().unwrap();
    assert_eq!((id, t), (0x0401, EsfFieldType::Iban));
    assert_eq!(data, b"DE89370400440532013000");
    assert!(r.next_field().is_none());
    assert!(r.next_field().is_none());
}

#[test]
fn esf_reader_refuses_bad_headers() {
    match EsfReader::new(&[0u8; 15]) {
        Err(Error::EsfConversion { message }) => assert_eq!(message, "ESF message too short"),
        _ => panic!("short message accepted"),
    }
    match EsfReader::new(&[0u8; 16]) {
        Err(Error::EsfConversion { message }) => assert_eq!(message, "Invalid ESF magic number"),
        _ => panic!("bad magic accepted"),
    }
    let mut data = EsfBuilder::new(MessageType::Camt053).build().unwrap();
    assert_eq!(data.len(), 16);
    data.extend_from_slice(&[0x01, 0x00, 0x01, 9, b'x']);
    let mut r = EsfReader::new(&data).unwrap();
    // the field announces 9 bytes, one is there
    assert!(r.next_field().is_none());
}

#[test]
fn privacy_tiers_follow_the_id_ranges() {
    assert_eq!(EsfBuilder::get_privacy(0x0000), PrivacyTier::Public);
    assert_eq!(EsfBuilder::get_privacy(0x0001), PrivacyTier::Public);
    assert_eq!(EsfBuilder::get_privacy(0x00FF), PrivacyTier::Public);
    assert_eq!(EsfBuilder::get_privacy(0x0100), PrivacyTier::Restricted);
    assert_eq!(EsfBuilder::get_privacy(0x02FF), PrivacyTier::Restricted);
    assert_eq!(EsfBuilder::get_privacy(0x0300), PrivacyTier::Private);
    assert_eq!(EsfBuilder::get_privacy(0x04FF), PrivacyTier::Private);
    assert_eq!(EsfBuilder::get_privacy(0x0500), PrivacyTier::Encrypted);
    assert_eq!(EsfBuilder::get_privacy(0x05FF), PrivacyTier::Encrypted);
    assert_eq!(EsfBuilder::get_privacy(0x0600), PrivacyTier::Public);
    assert_eq!(EsfBuilder::get_privacy(0x1001), PrivacyTier::Public);
}

#[test]
fn negative_timestamps_and_long_fields() {
    let mut b = EsfBuilder::new(MessageType::Pacs008);
    b.add_datetime(1, -1).unwrap();
    let long = "x".repeat(300);
    b.add_string(2, &long).unwrap();
    let bytes = b.build().unwrap();
    assert_eq!(&bytes[16..28], &[1, 0, 0x0A, 8, 0xFF, 0xFF, 0xFF, 0xFF, 0xFF, 0xFF, 0xFF, 0xFF]);
    // the length byte holds the length modulo 256
    assert_eq!(&bytes[28..32], &[2, 0, 0x01, 44]);
    assert_eq!(bytes.len(), 16 + 12 + 4 + 300);
    let mut out: Vec<u8> = vec![9];
    push_le(&mut out, 0x0102_0304, 3);
    assert_eq!(out, vec![9, 4, 3, 2]);
}

#[test]
fn short_iban_texts_still_have_a_country_code() {
    let short = Iban("DE".to_string());
    assert_eq!(short.country_code(), "DE");
}
