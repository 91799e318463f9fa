use estream_runtime::iso20022::codes::{EsfFieldType, MessageType};
use estream_runtime::iso20022::error::Error;
use estream_runtime::iso20022::esf::EsfReader;
use estream_runtime::iso20022::messages::{
    CreditTransferTransaction, GroupHeader, Pacs002, Pacs008, SettlementInfo, SettlementMethod,
    StatusReason,
};
use estream_runtime::iso20022::types::{
    AccountId, Amount, Bic, ChargeBearer, FinancialInstitutionId, Iban, PartyIdentification,
    PaymentId, RemittanceInfo, TransactionStatus,
};

fn read_all(bytes: &[u8]) -> Vec<(u16, EsfFieldType, Vec<u8>)> {
    let mut reader = EsfReader::new(bytes).unwrap();
    let mut fields = Vec::new();
    while let Some((id, t, data)) = reader.next_field() {
        fields.push((id, t, data.to_vec()));
    }
    fields
}

fn transfer() -> Pacs008 {
    Pacs008 {
        group_header: GroupHeader {
            message_id: "MSG-2024-001".into(),
            creation_date_time: 1_705_314_600,
            number_of_transactions: 1,
            total_interbank_settlement_amount: None,
            settlement_info: SettlementInfo { settlement_method: SettlementMethod::ClearingSystem },
        },
        credit_transfer_transactions: vec![CreditTransferTransaction {
            payment_id: PaymentId {
                instruction_id: Some("INSTR-001".into()),
                end_to_end_id: "E2E-001".into(),
                transaction_id: None,
                uetr: None,
            },
            interbank_settlement_amount: Amount::from_cents(100_000, "USD"),
            interbank_settlement_date: None,
            charge_bearer: Some(ChargeBearer::Shar),
            debtor: PartyIdentification { name: Some("John Doe".into()), ..Default::default() },
            debtor_account: Some(AccountId::Iban(Iban::new("DE89370400440532013000").unwrap())),
            debtor_agent: FinancialInstitutionId { bic: Some(Bic::new("COBADEFFXXX").unwrap()), ..Default::default() },
            creditor_agent: FinancialInstitutionId { bic: Some(Bic::new("BNPAFRPPXXX").unwrap()), ..Default::default() },
            creditor: PartyIdentification { name: Some("Jane Smith".into()), ..Default::default() },
            creditor_account: Some(AccountId::Other("ACC-77".into())),
            remittance_info: Some(RemittanceInfo { unstructured: Some("Invoice 42".into()), structured: None }),
        }],
    }
}

#[test]
fn credit_transfer_fields_come_in_order() {
    let bytes = transfer().to_esf().unwrap();
    let reader = EsfReader::new(&bytes).unwrap();
    assert_eq!(reader.message_type(), Some(MessageType::Pacs008));
    assert_eq!(reader.field_count(), 15);
    let fields = read_all(&bytes);
    let ids: Vec<u16> = fields.iter().map(|f| f.0).collect();
    assert_eq!(
        ids,
        vec![
            0x0001, 0x0002, 0x0003, 0x0101, 0x0102, 0x0201, 0x0202, 0x0203, 0x0301, 0x0401, 0x0402, 0x0303, 0x0403,
            0x0404, 0x0501
        ]
    );
    assert_eq!(fields[0].2, b"MSG-2024-001");
    assert_eq!(fields[1].1, EsfFieldType::DateTime);
    assert_eq!(fields[1].2, 1_705_314_600u64.to_le_bytes());
    assert_eq!(fields[2].2, 1u32.to_le_bytes());
    assert_eq!(fields[5].1, EsfFieldType::U128);
    assert_eq!(fields[5].2, 100_000u128.to_le_bytes());
    assert_eq!(fields[6].2, b"USD");
    assert_eq!(fields[7].1, EsfFieldType::Enum);
    assert_eq!(fields[7].2, b"SHAR");
    assert_eq!(fields[9].1, EsfFieldType::Iban);
    assert_eq!(fields[10].1, EsfFieldType::Bic);
    assert_eq!(fields[10].2, b"COBADEFFXXX");
    assert_eq!(fields[12].1, EsfFieldType::String);
    assert_eq!(fields[12].2, b"ACC-77");
    assert_eq!(fields[14].2, b"Invoice 42");
    let total = u32::from_le_bytes([bytes[10], bytes[11], bytes[12], bytes[13]]);
    assert_eq!(total as usize, bytes.len());
}

#[test]
fn missing_parts_leave_their_fields_out() {
    let mut msg = transfer();
    {
        let tx = &mut msg.credit_transfer_transactions[0];
        tx.payment_id.instruction_id = None;
        tx.charge_bearer = None;
        tx.debtor.name = None;
        tx.debtor_account = None;
        tx.debtor_agent.bic = None;
        tx.creditor.name = None;
        tx.creditor_account = None;
        tx.creditor_agent.bic = None;
        tx.remittance_info = Some(RemittanceInfo::default());
    }
    let ids: Vec<u16> = read_all(&msg.to_esf().unwrap()).iter().map(|f| f.0).collect();
    assert_eq!(ids, vec![0x0001, 0x0002, 0x0003, 0x0102, 0x0201, 0x0202]);
    msg.credit_transfer_transactions.clear();
    let ids: Vec<u16> = read_all(&msg.to_esf().unwrap()).iter().map(|f| f.0).collect();
    assert_eq!(ids, vec![0x0001, 0x0002, 0x0003]);
}

#[test]
fn status_report_is_built_and_converted() {
    let msg = Pacs002::create_response(
        "MSG-2024-001",
        Some("INSTR-001"),
        TransactionStatus::Rejected,
        Some(StatusReason::InsufficientFunds),
        1_705_314_600_123,
    );
    assert_eq!(msg.group_header.message_id, "PACS002-1705314600123");
    assert_eq!(msg.group_header.creation_date_time, 1_705_314_600);
    assert_eq!(msg.transaction_info_and_status.len(), 1);
    let tx = &msg.transaction_info_and_status[0];
    assert_eq!(tx.original_message_id.as_deref(), Some("MSG-2024-001"));
    assert_eq!(tx.original_instruction_id.as_deref(), Some("INSTR-001"));
    assert_eq!(tx.original_end_to_end_id, None);
    assert_eq!(tx.transaction_status, TransactionStatus::Rejected);
    assert_eq!(tx.status_reason_info.as_ref().map(|i| i.reason), Some(StatusReason::InsufficientFunds));
    let bytes = msg.to_esf().unwrap();
    assert_eq!(EsfReader::new(&bytes).unwrap().message_type(), Some(MessageType::Pacs002));
    let fields = read_all(&bytes);
    let ids: Vec<u16> = fields.iter().map(|f| f.0).collect();
    assert_eq!(ids, vec![0x1001, 0x1002, 0x1101, 0x1102, 0x1103]);
    assert_eq!(fields[3].2, b"RJCT");
    assert_eq!(fields[4].2, b"AM04");
    let plain = Pacs002::create_response("M", None, TransactionStatus::Pending, None, -1_500);
    assert_eq!(plain.group_header.message_id, "PACS002--1500");
    assert_eq!(plain.group_header.creation_date_time, -1);
    let ids: Vec<u16> = read_all(&plain.to_esf().unwrap()).iter().map(|f| f.0).collect();
    assert_eq!(ids, vec![0x1001, 0x1002, 0x1102]);
}

#[test]
fn xml_is_not_supported() {
    match Pacs008::parse_xml(b"<Document/>") {
        Err(Error::UnsupportedMessageType { msg_type }) => assert_eq!(msg_type, "XML parsing not yet implemented"),
        _ => panic!("parsed"),
    }
    match transfer().to_xml() {
        Err(Error::UnsupportedMessageType { msg_type }) => assert_eq!(msg_type, "XML generation not yet implemented"),
        _ => panic!("generated"),
    }
    assert!(matches!(Pacs002::parse_xml(b""), Err(Error::UnsupportedMessageType { .. })));
    let report = Pacs002::create_response("M", None, TransactionStatus::Pending, None, 0);
    assert!(matches!(report.to_xml(), Err(Error::UnsupportedMessageType { .. })));
    assert_eq!(Amount::from_cents(5, "EUR").to_cents(), 5);
}
