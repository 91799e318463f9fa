//! Message types, privacy tiers and ESF field types, with their codes.

use vstd::prelude::*;
use vstd::string::*;

verus! {

/// Compares two texts.
pub fn str_eq(a: &str, b: &str) -> (r: bool)
    ensures
        r == (a@ == b@),
{
    let left: String = a.to_owned();
    let right: String = b.to_owned();
    left == right
}

/// ISO 20022 message types.
#[derive(Debug, Clone, Copy, PartialEq, Eq, Structural, Hash)]
pub enum MessageType {
    /// pacs.008 - FIToFICustomerCreditTransfer
    Pacs008,
    /// pacs.002 - FIToFIPaymentStatusReport
    Pacs002,
    /// camt.053 - BankToCustomerStatement
    Camt053,
    /// camt.052 - BankToCustomerAccountReport
    Camt052,
}

impl MessageType {
    /// The 16-bit code of a message type.
    pub open spec fn spec_code(self) -> u16 {
        match self {
            MessageType::Pacs008 => 0x0008,
            MessageType::Pacs002 => 0x0002,
            MessageType::Camt053 => 0x0053,
            MessageType::Camt052 => 0x0052,
        }
    }

    /// The message type of a code, if the code names one.
    pub open spec fn spec_from_code(code: u16) -> Option<MessageType> {
        if code == 0x0008 {
            Some(MessageType::Pacs008)
        } else if code == 0x0002 {
            Some(MessageType::Pacs002)
        } else if code == 0x0053 {
            Some(MessageType::Camt053)
        } else if code == 0x0052 {
            Some(MessageType::Camt052)
        } else {
            None
        }
    }

    /// The message identifier of a message type.
    pub open spec fn spec_identifier(self) -> Seq<char> {
        match self {
            MessageType::Pacs008 => "pacs.008.001.08"@,
            MessageType::Pacs002 => "pacs.002.001.10"@,
            MessageType::Camt053 => "camt.053.001.08"@,
            MessageType::Camt052 => "camt.052.001.08"@,
        }
    }

    /// The root element name of a message type.
    pub open spec fn spec_root_element(self) -> Seq<char> {
        match self {
            MessageType::Pacs008 => "FIToFICstmrCdtTrf"@,
            MessageType::Pacs002 => "FIToFIPmtStsRpt"@,
            MessageType::Camt053 => "BkToCstmrStmt"@,
            MessageType::Camt052 => "BkToCstmrAcctRpt"@,
        }
    }

    /// Returns the 16-bit code of the message type.
    pub fn code(&self) -> (c: u16)
        ensures
            c == self.spec_code(),
    {
        match self {
            MessageType::Pacs008 => 0x0008,
            MessageType::Pacs002 => 0x0002,
            MessageType::Camt053 => 0x0053,
            MessageType::Camt052 => 0x0052,
        }
    }

    /// Get the message type from a u16 code.
    pub fn from_code(code: u16) -> (r: Option<Self>)
        ensures
            r == MessageType::spec_from_code(code),
    {
        if code == 0x0008 {
            Some(MessageType::Pacs008)
        } else if code == 0x0002 {
            Some(MessageType::Pacs002)
        } else if code == 0x0053 {
            Some(MessageType::Camt053)
        } else if code == 0x0052 {
            Some(MessageType::Camt052)
        } else {
            None
        }
    }

    /// Get the ISO 20022 message identifier string.
    pub fn identifier(&self) -> (s: &'static str)
        ensures
            s@ == self.spec_identifier(),
    {
        match self {
            MessageType::Pacs008 => "pacs.008.001.08",
            MessageType::Pacs002 => "pacs.002.001.10",
            MessageType::Camt053 => "camt.053.001.08",
            MessageType::Camt052 => "camt.052.001.08",
        }
    }

    /// Get the root element name.
    pub fn root_element(&self) -> (s: &'static str)
        ensures
            s@ == self.spec_root_element(),
    {
        match self {
            MessageType::Pacs008 => "FIToFICstmrCdtTrf",
            MessageType::Pacs002 => "FIToFIPmtStsRpt",
            MessageType::Camt053 => "BkToCstmrStmt",
            MessageType::Camt052 => "BkToCstmrAcctRpt",
        }
    }
}

/// The code of a message type names that message type, and a code that
/// names a message type is that type's code.
pub proof fn lemma_message_code_round_trip(t: MessageType, code: u16)
    ensures
        MessageType::spec_from_code(t.spec_code()) == Some(t),
        MessageType::spec_from_code(code) matches Some(m) ==> m.spec_code() == code,
{
}

/// Privacy tier of an ESF field.
#[derive(Debug, Clone, Copy, PartialEq, Eq, Structural, Hash)]
pub enum PrivacyTier {
    /// Visible on ledger
    Public,
    /// Visible to counterparties only
    Restricted,
    /// Visible to sender/receiver only
    Private,
    /// Requires stealth address
    Stealth,
    /// Encrypted
    Encrypted,
}

impl PrivacyTier {
    /// The code of a privacy tier.
    pub open spec fn spec_code(self) -> u8 {
        match self {
            PrivacyTier::Public => 0,
            PrivacyTier::Restricted => 1,
            PrivacyTier::Private => 2,
            PrivacyTier::Stealth => 3,
            PrivacyTier::Encrypted => 4,
        }
    }

    /// Returns the code of the privacy tier.
    pub fn code(&self) -> (c: u8)
        ensures
            c == self.spec_code(),
    {
        match self {
            PrivacyTier::Public => 0,
            PrivacyTier::Restricted => 1,
            PrivacyTier::Private => 2,
            PrivacyTier::Stealth => 3,
            PrivacyTier::Encrypted => 4,
        }
    }
}

/// ESF field types.
#[derive(Debug, Clone, Copy, PartialEq, Eq, Structural, Hash)]
pub enum EsfFieldType {
    /// No type: what a reader takes an unknown code for
    NoType,
    String,
    U8,
    U16,
    U32,
    U64,
    U128,
    I64,
    Bytes,
    Date,
    DateTime,
    Decimal,
    Bic,
    Iban,
    Currency,
    Enum,
}

impl EsfFieldType {
    /// The code of a field type.
    pub open spec fn spec_code(self) -> u8 {
        match self {
            EsfFieldType::NoType => 0x00,
            EsfFieldType::String => 0x01,
            EsfFieldType::U8 => 0x02,
            EsfFieldType::U16 => 0x03,
            EsfFieldType::U32 => 0x04,
            EsfFieldType::U64 => 0x05,
            EsfFieldType::U128 => 0x06,
            EsfFieldType::I64 => 0x07,
            EsfFieldType::Bytes => 0x08,
            EsfFieldType::Date => 0x09,
            EsfFieldType::DateTime => 0x0A,
            EsfFieldType::Decimal => 0x0B,
            EsfFieldType::Bic => 0x0C,
            EsfFieldType::Iban => 0x0D,
            EsfFieldType::Currency => 0x0E,
            EsfFieldType::Enum => 0x0F,
        }
    }

    /// The field type that a reader takes a code for.  The code 0x07 and
    /// every code above 0x0F read as `NoType`.
    pub open spec fn spec_read_code(code: u8) -> EsfFieldType {
        if code == 0x01 {
            EsfFieldType::String
        } else if code == 0x02 {
            EsfFieldType::U8
        } else if code == 0x03 {
            EsfFieldType::U16
        } else if code == 0x04 {
            EsfFieldType::U32
        } else if code == 0x05 {
            EsfFieldType::U64
        } else if code == 0x06 {
            EsfFieldType::U128
        } else if code == 0x08 {
            EsfFieldType::Bytes
        } else if code == 0x09 {
            EsfFieldType::Date
        } else if code == 0x0A {
            EsfFieldType::DateTime
        } else if code == 0x0B {
            EsfFieldType::Decimal
        } else if code == 0x0C {
            EsfFieldType::Bic
        } else if code == 0x0D {
            EsfFieldType::Iban
        } else if code == 0x0E {
            EsfFieldType::Currency
        } else if code == 0x0F {
            EsfFieldType::Enum
        } else {
            EsfFieldType::NoType
        }
    }

    /// Returns the code of the field type.
    pub fn code(&self) -> (c: u8)
        ensures
            c == self.spec_code(),
    {
        match self {
            EsfFieldType::NoType => 0x00,
            EsfFieldType::String => 0x01,
            EsfFieldType::U8 => 0x02,
            EsfFieldType::U16 => 0x03,
            EsfFieldType::U32 => 0x04,
            EsfFieldType::U64 => 0x05,
            EsfFieldType::U128 => 0x06,
            EsfFieldType::I64 => 0x07,
            EsfFieldType::Bytes => 0x08,
            EsfFieldType::Date => 0x09,
            EsfFieldType::DateTime => 0x0A,
            EsfFieldType::Decimal => 0x0B,
            EsfFieldType::Bic => 0x0C,
            EsfFieldType::Iban => 0x0D,
            EsfFieldType::Currency => 0x0E,
            EsfFieldType::Enum => 0x0F,
        }
    }

    /// Returns the field type that a reader takes a code for.
    pub fn read_code(code: u8) -> (t: Self)
        ensures
            t == EsfFieldType::spec_read_code(code),
    {
        if code == 0x01 {
            EsfFieldType::String
        } else if code == 0x02 {
            EsfFieldType::U8
        } else if code == 0x03 {
            EsfFieldType::U16
        } else if code == 0x04 {
            EsfFieldType::U32
        } else if code == 0x05 {
            EsfFieldType::U64
        } else if code == 0x06 {
            EsfFieldType::U128
        } else if code == 0x08 {
            EsfFieldType::Bytes
        } else if code == 0x09 {
            EsfFieldType::Date
        } else if code == 0x0A {
            EsfFieldType::DateTime
        } else if code == 0x0B {
            EsfFieldType::Decimal
        } else if code == 0x0C {
            EsfFieldType::Bic
        } else if code == 0x0D {
            EsfFieldType::Iban
        } else if code == 0x0E {
            EsfFieldType::Currency
        } else if code == 0x0F {
            EsfFieldType::Enum
        } else {
            EsfFieldType::NoType
        }
    }
}

/// A reader takes the code of every field type but `I64` for that type.
pub proof fn lemma_field_type_round_trip(t: EsfFieldType)
    ensures
        t != EsfFieldType::I64 ==> EsfFieldType::spec_read_code(t.spec_code()) == t,
        EsfFieldType::spec_read_code(EsfFieldType::I64.spec_code()) == EsfFieldType::NoType,
{
}

} // verus!
