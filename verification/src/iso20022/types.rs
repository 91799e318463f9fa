//! Common ISO 20022 types used across messages.

use vstd::prelude::*;
use vstd::string::*;
use vstd::utf8::{encode_utf8, is_ascii_chars, is_ascii_chars_encode_utf8};
use crate::iso20022::codes::str_eq;
use crate::iso20022::error::Error;

verus! {

/// Whether a character is an ASCII letter or digit.
pub open spec fn is_alnum_char(c: char) -> bool {
    ('0' <= c <= '9') || ('A' <= c <= 'Z') || ('a' <= c <= 'z')
}

/// Whether a text has the format of a BIC: 8 or 11 bytes, all of them
/// ASCII letters or digits.
pub open spec fn bic_format(s: Seq<char>, byte_len: int) -> bool {
    (byte_len == 8 || byte_len == 11) && forall|i: int|
        0 <= i < s.len() ==> is_alnum_char(#[trigger] s[i])
}

/// BIC (Bank Identifier Code) - 8 or 11 characters.
#[derive(Debug, Clone, PartialEq, Eq)]
pub struct Bic(pub String);

impl Bic {
    /// Validity of a BIC: its text has the format of one.
    pub open spec fn wf(&self) -> bool {
        bic_format(self.0@, self.0@.len() as int)
    }

    /// Creates a new BIC, validating the format.
    pub fn new(bic: &str) -> (r: Result<Self, Error>)
        ensures
            bic_format(bic@, bic.spec_bytes().len() as int) ==> (r matches Ok(b) && b.0@ == bic@
                && b.wf()),
            !bic_format(bic@, bic.spec_bytes().len() as int) ==> (r matches Err(
                Error::InvalidBic { value },
            ) && value@ == bic@),
    {
        let len: usize = bic.as_bytes().len();
        if len != 8 && len != 11 {
            return Err(Error::InvalidBic { value: bic.to_owned() });
        }
        if !bic.is_ascii() {
            proof {
                let i = choose|i: int| 0 <= i < bic@.len() && !('\0' <= #[trigger] bic@[i] <= '\u{7f}');
                assert(!is_alnum_char(bic@[i]));
            }
            return Err(Error::InvalidBic { value: bic.to_owned() });
        }
        proof {
            is_ascii_chars_encode_utf8(bic@);
        }
        let bytes: &[u8] = bic.as_bytes();
        let mut i: usize = 0;
        while i < bytes.len()
            invariant
                0 <= i <= bytes@.len(),
                bytes@ == bic.spec_bytes(),
                bytes@.len() == bic@.len(),
                is_ascii_chars(bic@),
                forall|k: int| 0 <= k < bic@.len() ==> #[trigger] bic@[k] as u8 == bytes@[k],
                forall|k: int| 0 <= k < i ==> is_alnum_char(#[trigger] bic@[k]),
            decreases bytes@.len() - i,
        {
            let b: u8 = bytes[i];
            let alnum: bool = (b >= 0x30 && b <= 0x39) || (b >= 0x41 && b <= 0x5A) || (b >= 0x61
                && b <= 0x7A);
            proof {
                let c: char = bic@[i as int];
                assert(c as u8 == b);
                assert('\0' <= c <= '\u{7f}');
                assert(alnum == is_alnum_char(c));
            }
            if !alnum {
                return Err(Error::InvalidBic { value: bic.to_owned() });
            }
            i = i + 1;
        }
        Ok(Bic(bic.to_owned()))
    }

    /// Get the institution code (first 4 characters).
    pub fn institution_code(&self) -> (s: &str)
        requires
            self.wf(),
        ensures
            s@ == self.0@.subrange(0, 4),
    {
        proof {
            self.lemma_ascii();
        }
        self.0.as_str().substring_ascii(0, 4)
    }

    /// Get the country code (characters 5-6).
    pub fn country_code(&self) -> (s: &str)
        requires
            self.wf(),
        ensures
            s@ == self.0@.subrange(4, 6),
    {
        proof {
            self.lemma_ascii();
        }
        self.0.as_str().substring_ascii(4, 6)
    }

    /// Get the location code (characters 7-8).
    pub fn location_code(&self) -> (s: &str)
        requires
            self.wf(),
        ensures
            s@ == self.0@.subrange(6, 8),
    {
        proof {
            self.lemma_ascii();
        }
        self.0.as_str().substring_ascii(6, 8)
    }

    /// Get the branch code (characters 9-11, if present).
    pub fn branch_code(&self) -> (r: Option<&str>)
        requires
            self.wf(),
        ensures
            self.0@.len() == 11 ==> (r matches Some(s) && s@ == self.0@.subrange(8, 11)),
            self.0@.len() != 11 ==> r is None,
    {
        proof {
            self.lemma_ascii();
            is_ascii_chars_encode_utf8(self.0@);
        }
        if self.0.as_str().as_bytes().len() == 11 {
            Some(self.0.as_str().substring_ascii(8, 11))
        } else {
            None
        }
    }

    /// A valid BIC is ASCII text.
    pub proof fn lemma_ascii(&self)
        requires
            self.wf(),
        ensures
            is_ascii_chars(self.0@),
            self.0@.len() == 8 || self.0@.len() == 11,
    {
        assert forall|i: int| 0 <= i < self.0@.len() implies '\0' <= #[trigger] self.0@[i]
            <= '\u{7f}' by {
            assert(is_alnum_char(self.0@[i]));
        }
    }
}

/// The upper-case form of a text, as `str::to_uppercase` gives it.
pub uninterp spec fn uppercase_text(s: Seq<char>) -> Seq<char>;

/// A text without its spaces.
pub open spec fn without_spaces(s: Seq<char>) -> Seq<char> {
    s.filter(|c: char| c != ' ')
}

/// Calls `str::replace` to take the spaces out of a text.  The method
/// replaces every match of the pattern, here the space character, by the
/// given text, here the empty one: every other character stays, in order.
#[verifier::external_body]
fn remove_spaces(s: &str) -> (r: String)
    ensures
        r@ == without_spaces(s@),
{
    s.replace(' ', "")
}

/// Calls `str::to_uppercase`.  The result is named, not spelled out: it is
/// the upper-case form of the text under the Unicode case mappings.
#[verifier::external_body]
fn to_uppercase(s: &str) -> (r: String)
    ensures
        r@ == uppercase_text(s@),
{
    s.to_uppercase()
}

/// IBAN (International Bank Account Number).
#[derive(Debug, Clone, PartialEq, Eq)]
pub struct Iban(pub String);

impl Iban {
    /// Checks a normalised IBAN text: it is accepted if it takes between
    /// 15 and 34 bytes.
    pub fn from_normalised(text: String) -> (r: Result<Self, Error>)
        ensures
            15 <= encode_utf8(text@).len() <= 34 ==> r == Ok::<Iban, Error>(Iban(text)),
            !(15 <= encode_utf8(text@).len() <= 34) ==> r == Err::<Iban, Error>(
                Error::InvalidIban { value: text },
            ),
    {
        let len: usize = text.as_str().as_bytes().len();
        if len < 15 || len > 34 {
            return Err(Error::InvalidIban { value: text });
        }
        Ok(Iban(text))
    }

    /// Creates a new IBAN: the spaces are taken out, the text is turned to
    /// upper case, and the result is accepted if it takes between 15 and
    /// 34 bytes.
    pub fn new(iban: &str) -> (r: Result<Self, Error>)
        ensures
            r matches Ok(v) ==> v.0@ == uppercase_text(without_spaces(iban@)) && 15
                <= encode_utf8(v.0@).len() <= 34,
            r matches Err(e) ==> (e matches Error::InvalidIban { value } && value@
                == uppercase_text(without_spaces(iban@)) && !(15
                <= encode_utf8(value@).len() <= 34)),
    {
        let stripped: String = remove_spaces(iban);
        let upper: String = to_uppercase(stripped.as_str());
        Iban::from_normalised(upper)
    }

    /// Get the country code (first 2 characters).
    pub fn country_code(&self) -> (s: &str)
        requires
            is_ascii_chars(self.0@),
            self.0@.len() >= 2,
        ensures
            s@ == self.0@.subrange(0, 2),
    {
        self.0.as_str().substring_ascii(0, 2)
    }

    /// Get the check digits (characters 3-4).
    pub fn check_digits(&self) -> (s: &str)
        requires
            is_ascii_chars(self.0@),
            self.0@.len() >= 4,
        ensures
            s@ == self.0@.subrange(2, 4),
    {
        self.0.as_str().substring_ascii(2, 4)
    }

    /// Get the BBAN (Basic Bank Account Number).
    pub fn bban(&self) -> (s: &str)
        requires
            is_ascii_chars(self.0@),
            self.0@.len() >= 4,
        ensures
            s@ == self.0@.subrange(4, self.0@.len() as int),
    {
        proof {
            is_ascii_chars_encode_utf8(self.0@);
        }
        let len: usize = self.0.as_str().as_bytes().len();
        self.0.as_str().substring_ascii(4, len)
    }
}

/// Party identification.
#[derive(Debug, Clone, Default)]
pub struct PartyIdentification {
    /// Party name
    pub name: Option<String>,
    /// Postal address
    pub postal_address: Option<PostalAddress>,
    /// Contact details
    pub contact_details: Option<ContactDetails>,
}

/// Postal address.
#[derive(Debug, Clone, Default)]
pub struct PostalAddress {
    /// Street name
    pub street_name: Option<String>,
    /// Building number
    pub building_number: Option<String>,
    /// Post code
    pub post_code: Option<String>,
    /// Town name
    pub town_name: Option<String>,
    /// Country code (ISO 3166-1 alpha-2)
    pub country: Option<String>,
}

/// Contact details.
#[derive(Debug, Clone, Default)]
pub struct ContactDetails {
    /// Phone number
    pub phone_number: Option<String>,
    /// Email address
    pub email_address: Option<String>,
}

/// Account identification.
#[derive(Debug, Clone)]
pub enum AccountId {
    /// IBAN
    Iban(Iban),
    /// Other identification
    Other(String),
}

/// Financial institution identification.
#[derive(Debug, Clone, Default)]
pub struct FinancialInstitutionId {
    /// BIC
    pub bic: Option<Bic>,
    /// Clearing system member identification
    pub clearing_system_member_id: Option<String>,
    /// Name
    pub name: Option<String>,
}

/// Payment identification.
#[derive(Debug, Clone, Default)]
pub struct PaymentId {
    /// Instruction identification (assigned by the instructing party)
    pub instruction_id: Option<String>,
    /// End-to-end identification (from debtor to creditor)
    pub end_to_end_id: String,
    /// Transaction identification (assigned by the first agent)
    pub transaction_id: Option<String>,
    /// UETR (Unique End-to-end Transaction Reference)
    pub uetr: Option<String>,
}

/// Transaction status.
#[derive(Debug, Clone, Copy, PartialEq, Eq, Structural)]
pub enum TransactionStatus {
    /// Accepted Settlement Completed
    AcceptedSettlementCompleted,
    /// Accepted Settlement In Progress
    AcceptedSettlementInProgress,
    /// Pending
    Pending,
    /// Rejected
    Rejected,
    /// Accepted Technical Validation
    AcceptedTechnicalValidation,
    /// Accepted Customer Profile
    AcceptedCustomerProfile,
}

impl TransactionStatus {
    /// The ISO 20022 code of a status.
    pub open spec fn spec_code(self) -> Seq<char> {
        match self {
            TransactionStatus::AcceptedSettlementCompleted => "ACSC"@,
            TransactionStatus::AcceptedSettlementInProgress => "ACSP"@,
            TransactionStatus::Pending => "PDNG"@,
            TransactionStatus::Rejected => "RJCT"@,
            TransactionStatus::AcceptedTechnicalValidation => "ACTC"@,
            TransactionStatus::AcceptedCustomerProfile => "ACCP"@,
        }
    }

    /// The status that a code names, if it names one.
    pub open spec fn spec_from_code(code: Seq<char>) -> Option<TransactionStatus> {
        if code == "ACSC"@ {
            Some(TransactionStatus::AcceptedSettlementCompleted)
        } else if code == "ACSP"@ {
            Some(TransactionStatus::AcceptedSettlementInProgress)
        } else if code == "PDNG"@ {
            Some(TransactionStatus::Pending)
        } else if code == "RJCT"@ {
            Some(TransactionStatus::Rejected)
        } else if code == "ACTC"@ {
            Some(TransactionStatus::AcceptedTechnicalValidation)
        } else if code == "ACCP"@ {
            Some(TransactionStatus::AcceptedCustomerProfile)
        } else {
            None
        }
    }

    /// Get the ISO 20022 code.
    pub fn code(&self) -> (s: &'static str)
        ensures
            s@ == self.spec_code(),
    {
        match self {
            TransactionStatus::AcceptedSettlementCompleted => "ACSC",
            TransactionStatus::AcceptedSettlementInProgress => "ACSP",
            TransactionStatus::Pending => "PDNG",
            TransactionStatus::Rejected => "RJCT",
            TransactionStatus::AcceptedTechnicalValidation => "ACTC",
            TransactionStatus::AcceptedCustomerProfile => "ACCP",
        }
    }

    /// Parse from an ISO 20022 code.
    pub fn from_code(code: &str) -> (r: Option<Self>)
        ensures
            r == TransactionStatus::spec_from_code(code@),
    {
        if str_eq(code, "ACSC") {
            Some(TransactionStatus::AcceptedSettlementCompleted)
        } else if str_eq(code, "ACSP") {
            Some(TransactionStatus::AcceptedSettlementInProgress)
        } else if str_eq(code, "PDNG") {
            Some(TransactionStatus::Pending)
        } else if str_eq(code, "RJCT") {
            Some(TransactionStatus::Rejected)
        } else if str_eq(code, "ACTC") {
            Some(TransactionStatus::AcceptedTechnicalValidation)
        } else if str_eq(code, "ACCP") {
            Some(TransactionStatus::AcceptedCustomerProfile)
        } else {
            None
        }
    }
}

/// The code of a transaction status names that status.
pub proof fn lemma_transaction_status_round_trip(status: TransactionStatus)
    ensures
        TransactionStatus::spec_from_code(status.spec_code()) == Some(status),
{
    reveal_strlit("ACSC");
    reveal_strlit("ACSP");
    reveal_strlit("PDNG");
    reveal_strlit("RJCT");
    reveal_strlit("ACTC");
    reveal_strlit("ACCP");
    assert("ACSC"@[3] != "ACSP"@[3]);
    assert("ACSC"@[0] != "PDNG"@[0]);
    assert("ACSC"@[0] != "RJCT"@[0]);
    assert("ACSC"@[2] != "ACTC"@[2]);
    assert("ACSC"@[2] != "ACCP"@[2]);
    assert("ACSP"@[0] != "PDNG"@[0]);
    assert("ACSP"@[0] != "RJCT"@[0]);
    assert("ACSP"@[2] != "ACTC"@[2]);
    assert("ACSP"@[2] != "ACCP"@[2]);
    assert("PDNG"@[0] != "RJCT"@[0]);
    assert("PDNG"@[0] != "ACTC"@[0]);
    assert("PDNG"@[0] != "ACCP"@[0]);
    assert("RJCT"@[0] != "ACTC"@[0]);
    assert("RJCT"@[0] != "ACCP"@[0]);
    assert("ACTC"@[2] != "ACCP"@[2]);
}

/// Charge bearer type.
#[derive(Debug, Clone, Copy, PartialEq, Eq, Structural)]
pub enum ChargeBearer {
    /// Borne by debtor
    Debt,
    /// Borne by creditor
    Cred,
    /// Shared between debtor and creditor
    Shar,
    /// Following service level
    Slev,
}

impl ChargeBearer {
    /// The ISO 20022 code of a charge bearer.
    pub open spec fn spec_code(self) -> Seq<char> {
        match self {
            ChargeBearer::Debt => "DEBT"@,
            ChargeBearer::Cred => "CRED"@,
            ChargeBearer::Shar => "SHAR"@,
            ChargeBearer::Slev => "SLEV"@,
        }
    }

    /// The charge bearer that a code names, if it names one.
    pub open spec fn spec_from_code(code: Seq<char>) -> Option<ChargeBearer> {
        if code == "DEBT"@ {
            Some(ChargeBearer::Debt)
        } else if code == "CRED"@ {
            Some(ChargeBearer::Cred)
        } else if code == "SHAR"@ {
            Some(ChargeBearer::Shar)
        } else if code == "SLEV"@ {
            Some(ChargeBearer::Slev)
        } else {
            None
        }
    }

    /// Get the ISO 20022 code.
    pub fn code(&self) -> (s: &'static str)
        ensures
            s@ == self.spec_code(),
    {
        match self {
            ChargeBearer::Debt => "DEBT",
            ChargeBearer::Cred => "CRED",
            ChargeBearer::Shar => "SHAR",
            ChargeBearer::Slev => "SLEV",
        }
    }

    /// Parse from an ISO 20022 code.
    pub fn from_code(code: &str) -> (r: Option<Self>)
        ensures
            r == ChargeBearer::spec_from_code(code@),
    {
        if str_eq(code, "DEBT") {
            Some(ChargeBearer::Debt)
        } else if str_eq(code, "CRED") {
            Some(ChargeBearer::Cred)
        } else if str_eq(code, "SHAR") {
            Some(ChargeBearer::Shar)
        } else if str_eq(code, "SLEV") {
            Some(ChargeBearer::Slev)
        } else {
            None
        }
    }
}

/// The code of a charge bearer names that charge bearer.
pub proof fn lemma_charge_bearer_round_trip(bearer: ChargeBearer)
    ensures
        ChargeBearer::spec_from_code(bearer.spec_code()) == Some(bearer),
{
    reveal_strlit("DEBT");
    reveal_strlit("CRED");
    reveal_strlit("SHAR");
    reveal_strlit("SLEV");
    assert("DEBT"@[0] != "CRED"@[0]);
    assert("DEBT"@[0] != "SHAR"@[0]);
    assert("DEBT"@[0] != "SLEV"@[0]);
    assert("CRED"@[0] != "SHAR"@[0]);
    assert("CRED"@[0] != "SLEV"@[0]);
    assert("SHAR"@[1] != "SLEV"@[1]);
}


/// ISO 20022 amount with currency, held in cents.
#[derive(Debug, Clone, PartialEq, Eq)]
pub struct Amount {
    /// Amount in cents
    pub cents: u128,
    /// ISO 4217 currency code (3 characters)
    pub currency: String,
}

impl Amount {
    /// Create an amount from cents.
    pub fn from_cents(cents: u128, currency: &str) -> (a: Self)
        ensures
            a.cents == cents,
            a.currency@ == currency@,
    {
        Amount { cents, currency: currency.to_owned() }
    }

    /// The amount in cents.
    pub fn to_cents(&self) -> (c: u128)
        ensures
            c == self.cents,
    {
        self.cents
    }
}

/// Referred document information.
#[derive(Debug, Clone)]
pub struct ReferredDocument {
    /// Document type
    pub document_type: String,
    /// Document number
    pub number: String,
    /// Document date, in days since 1970-01-01
    pub date_days: Option<i32>,
}

/// Structured remittance information.
#[derive(Debug, Clone, Default)]
pub struct StructuredRemittanceInfo {
    /// Creditor reference information
    pub creditor_reference: Option<String>,
    /// Referred document information
    pub referred_document: Option<ReferredDocument>,
}

/// Remittance information.
#[derive(Debug, Clone, Default)]
pub struct RemittanceInfo {
    /// Unstructured remittance information (free text)
    pub unstructured: Option<String>,
    /// Structured remittance information
    pub structured: Option<StructuredRemittanceInfo>,
}

} // verus!
