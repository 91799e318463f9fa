//! Parts of the pacs.008 and pacs.002 messages.

use vstd::prelude::*;
use vstd::string::*;
use vstd::utf8::encode_utf8;
use crate::iso20022::codes::{EsfFieldType, MessageType, str_eq};
use crate::iso20022::error::Error;
use crate::iso20022::esf::{
    EsfBuilder,
    EsfFieldView,
    le_bytes,
    spec_esf,
    spec_field,
    unsigned_pattern,
};
use crate::iso20022::types::{
    AccountId,
    Amount,
    ChargeBearer,
    FinancialInstitutionId,
    PartyIdentification,
    PaymentId,
    RemittanceInfo,
    TransactionStatus,
};
use crate::industrial::text::{decimal_digits, magnitude, push_decimal};

verus! {

/// Settlement method.
#[derive(Debug, Clone, Copy, PartialEq, Eq, Structural)]
pub enum SettlementMethod {
    /// Instructed agent
    InstructedAgent,
    /// Instructing agent
    InstructingAgent,
    /// Clearing system
    ClearingSystem,
}

impl SettlementMethod {
    /// The ISO 20022 code of a settlement method.
    pub open spec fn spec_code(self) -> Seq<char> {
        match self {
            SettlementMethod::InstructedAgent => "INDA"@,
            SettlementMethod::InstructingAgent => "INGA"@,
            SettlementMethod::ClearingSystem => "CLRG"@,
        }
    }

    /// Get the ISO 20022 code.
    pub fn code(&self) -> (s: &'static str)
        ensures
            s@ == self.spec_code(),
    {
        match self {
            SettlementMethod::InstructedAgent => "INDA",
            SettlementMethod::InstructingAgent => "INGA",
            SettlementMethod::ClearingSystem => "CLRG",
        }
    }
}

/// Settlement information.
#[derive(Debug, Clone, Copy, PartialEq, Eq, Structural)]
pub struct SettlementInfo {
    /// Settlement method
    pub settlement_method: SettlementMethod,
}

/// Status reason codes.
#[derive(Debug, Clone, Copy, PartialEq, Eq, Structural)]
pub enum StatusReason {
    /// Account closed
    AccountClosed,
    /// Account blocked
    AccountBlocked,
    /// Insufficient funds
    InsufficientFunds,
    /// Invalid account
    InvalidAccount,
    /// Invalid debtor account
    InvalidDebtorAccount,
    /// Invalid creditor account
    InvalidCreditorAccount,
    /// No mandate
    NoMandate,
    /// Regulatory reason
    RegulatoryReason,
    /// Specific service offered by debtor agent
    AgentDecision,
    /// Other
    Other,
}

impl StatusReason {
    /// The ISO 20022 code of a status reason.
    pub open spec fn spec_code(self) -> Seq<char> {
        match self {
            StatusReason::AccountClosed => "AC04"@,
            StatusReason::AccountBlocked => "AC06"@,
            StatusReason::InsufficientFunds => "AM04"@,
            StatusReason::InvalidAccount => "AC01"@,
            StatusReason::InvalidDebtorAccount => "AC02"@,
            StatusReason::InvalidCreditorAccount => "AC03"@,
            StatusReason::NoMandate => "MD01"@,
            StatusReason::RegulatoryReason => "RR04"@,
            StatusReason::AgentDecision => "AGNT"@,
            StatusReason::Other => "MS03"@,
        }
    }

    /// The status reason that a code names, if it names one.
    pub open spec fn spec_from_code(code: Seq<char>) -> Option<StatusReason> {
        if code == "AC04"@ {
            Some(StatusReason::AccountClosed)
        } else if code == "AC06"@ {
            Some(StatusReason::AccountBlocked)
        } else if code == "AM04"@ {
            Some(StatusReason::InsufficientFunds)
        } else if code == "AC01"@ {
            Some(StatusReason::InvalidAccount)
        } else if code == "AC02"@ {
            Some(StatusReason::InvalidDebtorAccount)
        } else if code == "AC03"@ {
            Some(StatusReason::InvalidCreditorAccount)
        } else if code == "MD01"@ {
            Some(StatusReason::NoMandate)
        } else if code == "RR04"@ {
            Some(StatusReason::RegulatoryReason)
        } else if code == "AGNT"@ {
            Some(StatusReason::AgentDecision)
        } else if code == "MS03"@ {
            Some(StatusReason::Other)
        } else {
            None
        }
    }

    /// Get the ISO 20022 code.
    pub fn code(&self) -> (s: &'static str)
        ensures
            s@ == self.spec_code(),
    {
        match self {
            StatusReason::AccountClosed => "AC04",
            StatusReason::AccountBlocked => "AC06",
            StatusReason::InsufficientFunds => "AM04",
            StatusReason::InvalidAccount => "AC01",
            StatusReason::InvalidDebtorAccount => "AC02",
            StatusReason::InvalidCreditorAccount => "AC03",
            StatusReason::NoMandate => "MD01",
            StatusReason::RegulatoryReason => "RR04",
            StatusReason::AgentDecision => "AGNT",
            StatusReason::Other => "MS03",
        }
    }

    /// Parse from an ISO 20022 code.
    pub fn from_code(code: &str) -> (r: Option<Self>)
        ensures
            r == StatusReason::spec_from_code(code@),
    {
        if str_eq(code, "AC04") {
            Some(StatusReason::AccountClosed)
        } else if str_eq(code, "AC06") {
            Some(StatusReason::AccountBlocked)
        } else if str_eq(code, "AM04") {
            Some(StatusReason::InsufficientFunds)
        } else if str_eq(code, "AC01") {
            Some(StatusReason::InvalidAccount)
        } else if str_eq(code, "AC02") {
            Some(StatusReason::InvalidDebtorAccount)
        } else if str_eq(code, "AC03") {
            Some(StatusReason::InvalidCreditorAccount)
        } else if str_eq(code, "MD01") {
            Some(StatusReason::NoMandate)
        } else if str_eq(code, "RR04") {
            Some(StatusReason::RegulatoryReason)
        } else if str_eq(code, "AGNT") {
            Some(StatusReason::AgentDecision)
        } else if str_eq(code, "MS03") {
            Some(StatusReason::Other)
        } else {
            None
        }
    }
}

/// Status reason information.
#[derive(Debug, Clone)]
pub struct StatusReasonInfo {
    /// Status reason
    pub reason: StatusReason,
    /// Additional information
    pub additional_info: Option<String>,
}

/// Transaction information and status.
#[derive(Debug, Clone)]
pub struct TransactionInfoAndStatus {
    /// Original message identification
    pub original_message_id: Option<String>,
    /// Original instruction identification
    pub original_instruction_id: Option<String>,
    /// Original end-to-end identification
    pub original_end_to_end_id: Option<String>,
    /// Transaction status
    pub transaction_status: TransactionStatus,
    /// Status reason information
    pub status_reason_info: Option<StatusReasonInfo>,
}


/// Group header for pacs.008.
#[derive(Debug, Clone)]
pub struct GroupHeader {
    /// Message identification (unique per message)
    pub message_id: String,
    /// Creation date and time, in seconds since the Unix epoch
    pub creation_date_time: i64,
    /// Number of transactions
    pub number_of_transactions: u32,
    /// Total interbank settlement amount (optional)
    pub total_interbank_settlement_amount: Option<Amount>,
    /// Settlement information
    pub settlement_info: SettlementInfo,
}

/// Credit transfer transaction.
#[derive(Debug, Clone)]
pub struct CreditTransferTransaction {
    /// Payment identification
    pub payment_id: PaymentId,
    /// Interbank settlement amount
    pub interbank_settlement_amount: Amount,
    /// Interbank settlement date, in days since 1970-01-01 (optional)
    pub interbank_settlement_date: Option<i32>,
    /// Charge bearer
    pub charge_bearer: Option<ChargeBearer>,
    /// Debtor
    pub debtor: PartyIdentification,
    /// Debtor account
    pub debtor_account: Option<AccountId>,
    /// Debtor agent
    pub debtor_agent: FinancialInstitutionId,
    /// Creditor agent
    pub creditor_agent: FinancialInstitutionId,
    /// Creditor
    pub creditor: PartyIdentification,
    /// Creditor account
    pub creditor_account: Option<AccountId>,
    /// Remittance information
    pub remittance_info: Option<RemittanceInfo>,
}

/// pacs.008 - FI to FI Customer Credit Transfer.
#[derive(Debug, Clone)]
pub struct Pacs008 {
    /// Group header
    pub group_header: GroupHeader,
    /// Credit transfer transactions
    pub credit_transfer_transactions: Vec<CreditTransferTransaction>,
}

/// Group header for pacs.002.
#[derive(Debug, Clone)]
pub struct StatusReportGroupHeader {
    /// Message identification
    pub message_id: String,
    /// Creation date and time, in seconds since the Unix epoch
    pub creation_date_time: i64,
}

/// pacs.002 - FI to FI Payment Status Report.
#[derive(Debug, Clone)]
pub struct Pacs002 {
    /// Group header
    pub group_header: StatusReportGroupHeader,
    /// Transaction information and status
    pub transaction_info_and_status: Vec<TransactionInfoAndStatus>,
}

/// A text field.
pub open spec fn text_field(id: u16, text: Seq<char>) -> EsfFieldView {
    spec_field(id, EsfFieldType::String, encode_utf8(text))
}

/// A code field.
pub open spec fn code_field(id: u16, code: Seq<char>) -> EsfFieldView {
    spec_field(id, EsfFieldType::Enum, encode_utf8(code))
}

/// The text field of a text that may be missing.
pub open spec fn optional_text(id: u16, text: Option<String>) -> Seq<EsfFieldView> {
    match text {
        Some(t) => seq![text_field(id, t@)],
        None => Seq::<EsfFieldView>::empty(),
    }
}

/// The field of an account that may be missing: an IBAN field for an
/// IBAN, a text field for another identification.
pub open spec fn optional_account(id: u16, account: Option<AccountId>) -> Seq<EsfFieldView> {
    match account {
        Some(AccountId::Iban(iban)) => seq![
            spec_field(id, EsfFieldType::Iban, encode_utf8(iban.0@)),
        ],
        Some(AccountId::Other(other)) => seq![text_field(id, other@)],
        None => Seq::<EsfFieldView>::empty(),
    }
}

/// The BIC field of an agent, if the agent has a BIC.
pub open spec fn optional_bic(id: u16, agent: FinancialInstitutionId) -> Seq<EsfFieldView> {
    match agent.bic {
        Some(bic) => seq![spec_field(id, EsfFieldType::Bic, encode_utf8(bic.0@))],
        None => Seq::<EsfFieldView>::empty(),
    }
}

/// The charge bearer field, if there is a charge bearer.
pub open spec fn optional_bearer(bearer: Option<ChargeBearer>) -> Seq<EsfFieldView> {
    match bearer {
        Some(cb) => seq![code_field(0x0203, cb.spec_code())],
        None => Seq::<EsfFieldView>::empty(),
    }
}

/// The remittance text field, if there is remittance text.
pub open spec fn optional_remittance(info: Option<RemittanceInfo>) -> Seq<EsfFieldView> {
    match info {
        Some(i) => optional_text(0x0501, i.unstructured),
        None => Seq::<EsfFieldView>::empty(),
    }
}

/// The fields of a credit transfer transaction, in their order: payment
/// ids, amount and currency, charge bearer, debtor, debtor account and
/// agent, creditor, creditor account and agent, remittance text.
pub open spec fn transaction_fields(tx: CreditTransferTransaction) -> Seq<EsfFieldView> {
    optional_text(0x0101, tx.payment_id.instruction_id) + seq![
        text_field(0x0102, tx.payment_id.end_to_end_id@),
        spec_field(
            0x0201,
            EsfFieldType::U128,
            le_bytes(tx.interbank_settlement_amount.cents as nat, 16),
        ),
        text_field(0x0202, tx.interbank_settlement_amount.currency@),
    ] + optional_bearer(tx.charge_bearer) + optional_text(0x0301, tx.debtor.name) + optional_account(0x0401, tx.debtor_account)
        + optional_bic(0x0402, tx.debtor_agent) + optional_text(0x0303, tx.creditor.name)
        + optional_account(0x0403, tx.creditor_account) + optional_bic(0x0404, tx.creditor_agent)
        + optional_remittance(tx.remittance_info)
}

/// The fields of a pacs.008 message: the group header, then the first
/// transaction, if there is one.
pub open spec fn pacs008_fields(msg: Pacs008) -> Seq<EsfFieldView> {
    seq![
        text_field(0x0001, msg.group_header.message_id@),
        spec_field(
            0x0002,
            EsfFieldType::DateTime,
            le_bytes(unsigned_pattern(msg.group_header.creation_date_time), 8),
        ),
        spec_field(
            0x0003,
            EsfFieldType::U32,
            le_bytes(msg.group_header.number_of_transactions as nat, 4),
        ),
    ] + (if msg.credit_transfer_transactions@.len() > 0 {
        transaction_fields(msg.credit_transfer_transactions@[0])
    } else {
        Seq::<EsfFieldView>::empty()
    })
}

/// The fields of a pacs.002 message: the group header, then the status of
/// the first transaction, if there is one.
pub open spec fn pacs002_fields(msg: Pacs002) -> Seq<EsfFieldView> {
    seq![
        text_field(0x1001, msg.group_header.message_id@),
        spec_field(
            0x1002,
            EsfFieldType::DateTime,
            le_bytes(unsigned_pattern(msg.group_header.creation_date_time), 8),
        ),
    ] + (if msg.transaction_info_and_status@.len() > 0 {
        let tx = msg.transaction_info_and_status@[0];
        optional_text(0x1101, tx.original_instruction_id) + seq![
            code_field(0x1102, tx.transaction_status.spec_code()),
        ] + (match tx.status_reason_info {
            Some(info) => seq![code_field(0x1103, info.reason.spec_code())],
            None => Seq::<EsfFieldView>::empty(),
        })
    } else {
        Seq::<EsfFieldView>::empty()
    })
}

/// Adds the text field of a text that may be missing.
fn add_optional_text(builder: &mut EsfBuilder, id: u16, text: &Option<String>)
    ensures
        final(builder).message_type() == old(builder).message_type(),
        final(builder).fields() == old(builder).fields() + optional_text(id, *text),
{
    match text {
        Some(t) => {
            let _ = builder.add_string(id, t.as_str());
        },
        None => {},
    }
    assert(builder.fields() =~= old(builder).fields() + optional_text(id, *text));
}

/// Adds the field of an account that may be missing.
fn add_optional_account(builder: &mut EsfBuilder, id: u16, account: &Option<AccountId>)
    ensures
        final(builder).message_type() == old(builder).message_type(),
        final(builder).fields() == old(builder).fields() + optional_account(id, *account),
{
    match account {
        Some(AccountId::Iban(iban)) => {
            let _ = builder.add_iban(id, iban);
        },
        Some(AccountId::Other(other)) => {
            let _ = builder.add_string(id, other.as_str());
        },
        None => {},
    }
    assert(builder.fields() =~= old(builder).fields() + optional_account(id, *account));
}

/// Adds the BIC field of an agent, if the agent has a BIC.
fn add_optional_bic(builder: &mut EsfBuilder, id: u16, agent: &FinancialInstitutionId)
    ensures
        final(builder).message_type() == old(builder).message_type(),
        final(builder).fields() == old(builder).fields() + optional_bic(id, *agent),
{
    match &agent.bic {
        Some(bic) => {
            let _ = builder.add_bic(id, bic);
        },
        None => {},
    }
    assert(builder.fields() =~= old(builder).fields() + optional_bic(id, *agent));
}

/// Appending is associative.
proof fn lemma_append(base: Seq<EsfFieldView>, acc: Seq<EsfFieldView>, part: Seq<EsfFieldView>)
    ensures
        (base + acc) + part == base + (acc + part),
{
    assert((base + acc) + part =~= base + (acc + part));
}

/// Three pushes append a sequence of three.
proof fn lemma_push_three(base: Seq<EsfFieldView>, a: EsfFieldView, b: EsfFieldView, c: EsfFieldView)
    ensures
        base.push(a).push(b).push(c) == base + seq![a, b, c],
{
    assert(base.push(a).push(b).push(c) =~= base + seq![a, b, c]);
}

/// Adds the charge bearer field, if there is a charge bearer.
fn add_optional_bearer(builder: &mut EsfBuilder, bearer: &Option<ChargeBearer>)
    ensures
        final(builder).message_type() == old(builder).message_type(),
        final(builder).fields() == old(builder).fields() + optional_bearer(*bearer),
{
    match bearer {
        Some(cb) => {
            let _ = builder.add_enum(0x0203, cb.code());
        },
        None => {},
    }
    assert(builder.fields() =~= old(builder).fields() + optional_bearer(*bearer));
}

/// Adds the remittance text field, if there is remittance text.
fn add_optional_remittance(builder: &mut EsfBuilder, info: &Option<RemittanceInfo>)
    ensures
        final(builder).message_type() == old(builder).message_type(),
        final(builder).fields() == old(builder).fields() + optional_remittance(*info),
{
    match info {
        Some(i) => {
            add_optional_text(builder, 0x0501, &i.unstructured);
        },
        None => {
            assert(builder.fields() =~= old(builder).fields() + Seq::<EsfFieldView>::empty());
        },
    }
}

/// Adds the three fields that every transaction has: the end-to-end id,
/// the amount and the currency.
fn add_fixed_fields(builder: &mut EsfBuilder, tx: &CreditTransferTransaction)
    ensures
        final(builder).message_type() == old(builder).message_type(),
        final(builder).fields() == old(builder).fields() + seq![
            text_field(0x0102, tx.payment_id.end_to_end_id@),
            spec_field(
                0x0201,
                EsfFieldType::U128,
                le_bytes(tx.interbank_settlement_amount.cents as nat, 16),
            ),
            text_field(0x0202, tx.interbank_settlement_amount.currency@),
        ],
{
    let _ = builder.add_string(0x0102, tx.payment_id.end_to_end_id.as_str());
    let _ = builder.add_amount(0x0201, tx.interbank_settlement_amount.to_cents());
    let _ = builder.add_string(0x0202, tx.interbank_settlement_amount.currency.as_str());
    proof {
        lemma_push_three(
            old(builder).fields(),
            text_field(0x0102, tx.payment_id.end_to_end_id@),
            spec_field(
                0x0201,
                EsfFieldType::U128,
                le_bytes(tx.interbank_settlement_amount.cents as nat, 16),
            ),
            text_field(0x0202, tx.interbank_settlement_amount.currency@),
        );
    }
}

/// Adds the fields of a credit transfer transaction.
fn add_transaction(builder: &mut EsfBuilder, tx: &CreditTransferTransaction)
    ensures
        final(builder).message_type() == old(builder).message_type(),
        final(builder).fields() == old(builder).fields() + transaction_fields(*tx),
{
    let ghost base = builder.fields();
    add_optional_text(builder, 0x0101, &tx.payment_id.instruction_id);
    let ghost mut acc: Seq<EsfFieldView> = optional_text(0x0101, tx.payment_id.instruction_id);
    let ghost mut part: Seq<EsfFieldView> = acc;
    assert(builder.fields() == base + acc);

    add_fixed_fields(builder, tx);
    proof {
        part = seq![
            text_field(0x0102, tx.payment_id.end_to_end_id@),
            spec_field(
                0x0201,
                EsfFieldType::U128,
                le_bytes(tx.interbank_settlement_amount.cents as nat, 16),
            ),
            text_field(0x0202, tx.interbank_settlement_amount.currency@),
        ];
        lemma_append(base, acc, part);
        acc = acc + part;
    }
    assert(builder.fields() == base + acc);

    add_optional_bearer(builder, &tx.charge_bearer);
    proof {
        part = optional_bearer(tx.charge_bearer);
        lemma_append(base, acc, part);
        acc = acc + part;
    }
    assert(builder.fields() == base + acc);

    add_optional_text(builder, 0x0301, &tx.debtor.name);
    proof {
        part = optional_text(0x0301, tx.debtor.name);
        lemma_append(base, acc, part);
        acc = acc + part;
    }
    assert(builder.fields() == base + acc);

    add_optional_account(builder, 0x0401, &tx.debtor_account);
    proof {
        part = optional_account(0x0401, tx.debtor_account);
        lemma_append(base, acc, part);
        acc = acc + part;
    }
    assert(builder.fields() == base + acc);

    add_optional_bic(builder, 0x0402, &tx.debtor_agent);
    proof {
        part = optional_bic(0x0402, tx.debtor_agent);
        lemma_append(base, acc, part);
        acc = acc + part;
    }
    assert(builder.fields() == base + acc);

    add_optional_text(builder, 0x0303, &tx.creditor.name);
    proof {
        part = optional_text(0x0303, tx.creditor.name);
        lemma_append(base, acc, part);
        acc = acc + part;
    }
    assert(builder.fields() == base + acc);

    add_optional_account(builder, 0x0403, &tx.creditor_account);
    proof {
        part = optional_account(0x0403, tx.creditor_account);
        lemma_append(base, acc, part);
        acc = acc + part;
    }
    assert(builder.fields() == base + acc);

    add_optional_bic(builder, 0x0404, &tx.creditor_agent);
    proof {
        part = optional_bic(0x0404, tx.creditor_agent);
        lemma_append(base, acc, part);
        acc = acc + part;
    }
    assert(builder.fields() == base + acc);

    add_optional_remittance(builder, &tx.remittance_info);
    proof {
        part = optional_remittance(tx.remittance_info);
        lemma_append(base, acc, part);
        acc = acc + part;
    }
    assert(builder.fields() == base + acc);
    assert(acc == transaction_fields(*tx));
}

/// The error of an operation on XML, which this library does not read or
/// write.
fn xml_unsupported(what: &str) -> (e: Error)
    ensures
        e matches Error::UnsupportedMessageType { msg_type } && msg_type@ == what@,
{
    Error::UnsupportedMessageType { msg_type: what.to_owned() }
}

impl Pacs008 {
    /// Parse from XML bytes.  XML is not read here: the result is always
    /// `UnsupportedMessageType`.
    pub fn parse_xml(_xml: &[u8]) -> (r: Result<Self, Error>)
        ensures
            r matches Err(Error::UnsupportedMessageType { msg_type }) && msg_type@
                == "XML parsing not yet implemented"@,
    {
        Err(xml_unsupported("XML parsing not yet implemented"))
    }

    /// Generate XML bytes.  XML is not written here: the result is always
    /// `UnsupportedMessageType`.
    pub fn to_xml(&self) -> (r: Result<Vec<u8>, Error>)
        ensures
            r matches Err(Error::UnsupportedMessageType { msg_type }) && msg_type@
                == "XML generation not yet implemented"@,
    {
        Err(xml_unsupported("XML generation not yet implemented"))
    }

    /// Convert to ESF: a pacs.008 message with the fields of the group
    /// header and of the first transaction.
    pub fn to_esf(&self) -> (r: Result<Vec<u8>, Error>)
        ensures
            r matches Ok(bytes) && bytes@ == spec_esf(MessageType::Pacs008, pacs008_fields(*self)),
    {
        let mut builder = EsfBuilder::new(MessageType::Pacs008);
        let _ = builder.add_string(0x0001, self.group_header.message_id.as_str());
        let _ = builder.add_datetime(0x0002, self.group_header.creation_date_time);
        let _ = builder.add_u32(0x0003, self.group_header.number_of_transactions);
        let ghost header = builder.fields();
        assert(header =~= seq![
            text_field(0x0001, self.group_header.message_id@),
            spec_field(
                0x0002,
                EsfFieldType::DateTime,
                le_bytes(unsigned_pattern(self.group_header.creation_date_time), 8),
            ),
            spec_field(
                0x0003,
                EsfFieldType::U32,
                le_bytes(self.group_header.number_of_transactions as nat, 4),
            ),
        ]);
        if self.credit_transfer_transactions.len() > 0 {
            add_transaction(&mut builder, &self.credit_transfer_transactions[0]);
        }
        assert(builder.fields() =~= pacs008_fields(*self));
        builder.build()
    }
}

/// Text of a signed number: a minus sign for a negative number, then the
/// decimal digits of its magnitude.
pub open spec fn signed_text(v: i64) -> Seq<char> {
    if v < 0 {
        seq!['-'] + decimal_digits((-v) as nat)
    } else {
        decimal_digits(v as nat)
    }
}

impl Pacs002 {
    /// Create a status response for a pacs.008 message at the time
    /// `now_millis`, in milliseconds since the Unix epoch.  The message id
    /// is `PACS002-` followed by the time; the creation time is the time in
    /// whole seconds, rounded toward zero.
    pub fn create_response(
        original_msg_id: &str,
        original_instruction_id: Option<&str>,
        status: TransactionStatus,
        status_reason: Option<StatusReason>,
        now_millis: i64,
    ) -> (msg: Self)
        ensures
            msg.group_header.message_id@ == "PACS002-"@ + signed_text(now_millis),
            msg.group_header.creation_date_time as int == (if now_millis >= 0 {
                now_millis as int / 1000
            } else {
                -((-now_millis) as int / 1000)
            }),
            msg.transaction_info_and_status@.len() == 1,
            ({
                let tx = msg.transaction_info_and_status@[0];
                &&& (tx.original_message_id matches Some(id) && id@ == original_msg_id@)
                &&& match original_instruction_id {
                    Some(want) => tx.original_instruction_id matches Some(id) && id@ == want@,
                    None => tx.original_instruction_id is None,
                }
                &&& tx.original_end_to_end_id is None
                &&& tx.transaction_status == status
                &&& match status_reason {
                    Some(reason) => tx.status_reason_info matches Some(info) && info.reason
                        == reason && info.additional_info is None,
                    None => tx.status_reason_info is None,
                }
            }),
    {
        proof {
            reveal_strlit("-");
        }
        let mut message_id: String = "PACS002-".to_owned();
        if now_millis < 0 {
            message_id.append("-");
        }
        push_decimal(&mut message_id, magnitude(now_millis as i128));
        assert(message_id@ =~= "PACS002-"@ + signed_text(now_millis));
        let seconds: i64 = if now_millis >= 0 {
            now_millis / 1000
        } else {
            let m: u128 = magnitude(now_millis as i128);
            -((m / 1000) as i64)
        };
        let instruction: Option<String> = match original_instruction_id {
            Some(id) => Some(id.to_owned()),
            None => None,
        };
        let reason_info: Option<StatusReasonInfo> = match status_reason {
            Some(reason) => Some(StatusReasonInfo { reason, additional_info: None }),
            None => None,
        };
        let mut transactions: Vec<TransactionInfoAndStatus> = Vec::new();
        transactions.push(
            TransactionInfoAndStatus {
                original_message_id: Some(original_msg_id.to_owned()),
                original_instruction_id: instruction,
                original_end_to_end_id: None,
                transaction_status: status,
                status_reason_info: reason_info,
            },
        );
        Pacs002 {
            group_header: StatusReportGroupHeader { message_id, creation_date_time: seconds },
            transaction_info_and_status: transactions,
        }
    }

    /// Parse from XML bytes.  XML is not read here: the result is always
    /// `UnsupportedMessageType`.
    pub fn parse_xml(_xml: &[u8]) -> (r: Result<Self, Error>)
        ensures
            r matches Err(Error::UnsupportedMessageType { msg_type }) && msg_type@
                == "XML parsing not yet implemented"@,
    {
        Err(xml_unsupported("XML parsing not yet implemented"))
    }

    /// Generate XML bytes.  XML is not written here: the result is always
    /// `UnsupportedMessageType`.
    pub fn to_xml(&self) -> (r: Result<Vec<u8>, Error>)
        ensures
            r matches Err(Error::UnsupportedMessageType { msg_type }) && msg_type@
                == "XML generation not yet implemented"@,
    {
        Err(xml_unsupported("XML generation not yet implemented"))
    }

    /// Convert to ESF: a pacs.002 message with the fields of the group
    /// header and of the first transaction's status.
    pub fn to_esf(&self) -> (r: Result<Vec<u8>, Error>)
        ensures
            r matches Ok(bytes) && bytes@ == spec_esf(MessageType::Pacs002, pacs002_fields(*self)),
    {
        let mut builder = EsfBuilder::new(MessageType::Pacs002);
        let _ = builder.add_string(0x1001, self.group_header.message_id.as_str());
        let _ = builder.add_datetime(0x1002, self.group_header.creation_date_time);
        if self.transaction_info_and_status.len() > 0 {
            add_optional_text(
                &mut builder,
                0x1101,
                &self.transaction_info_and_status[0].original_instruction_id,
            );
            let _ = builder.add_enum(
                0x1102,
                self.transaction_info_and_status[0].transaction_status.code(),
            );
            match &self.transaction_info_and_status[0].status_reason_info {
                Some(info) => {
                    let _ = builder.add_enum(0x1103, info.reason.code());
                },
                None => {},
            }
        }
        assert(builder.fields() =~= pacs002_fields(*self));
        builder.build()
    }
}

} // verus!
