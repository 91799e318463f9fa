//! Errors of ISO 20022 parsing and conversion.

use vstd::prelude::*;
use vstd::std_specs::convert::FromSpecImpl;

verus! {

/// ISO 20022 parsing and conversion errors.
#[derive(Debug, Clone)]
pub enum Error {
    /// Invalid XML syntax
    XmlSyntax { offset: usize, message: String },
    /// Unknown element in XML
    UnknownElement { element: String, path: String },
    /// Schema validation failed
    SchemaValidation { message: String },
    /// Required field missing
    MissingField { field: String },
    /// Invalid field value
    InvalidFieldValue { field: String, message: String },
    /// Field overflow (value too long)
    FieldOverflow { field: String, max_len: usize },
    /// Depth overflow (too deeply nested)
    DepthOverflow { max_depth: usize },
    /// Tag mismatch (close tag does not match open tag)
    TagMismatch { expected: String, found: String },
    /// Invalid character encoding
    InvalidEncoding { offset: usize },
    /// Invalid amount format
    InvalidAmount { value: String },
    /// Invalid date format
    InvalidDate { value: String },
    /// Invalid BIC format
    InvalidBic { value: String },
    /// Invalid IBAN format
    InvalidIban { value: String },
    /// Invalid currency code
    InvalidCurrency { value: String },
    /// Unsupported message type
    UnsupportedMessageType { msg_type: String },
    /// ESF conversion error
    EsfConversion { message: String },
}

/// Error codes of the parser (E3xxx series).
#[derive(Debug, Clone, Copy, PartialEq, Eq, Structural)]
pub enum ErrorCode {
    /// E3001: Invalid XML syntax
    Syntax,
    /// E3002: Unknown element
    UnknownElement,
    /// E3003: Schema validation failed
    Schema,
    /// E3004: Field overflow
    Overflow,
    /// E3005: Depth overflow
    Depth,
    /// E3006: Tag mismatch
    Mismatch,
    /// E3007: Invalid encoding
    Encoding,
    /// E3008: Timeout
    Timeout,
}

impl ErrorCode {
    /// The number of an error code.
    pub open spec fn spec_code(self) -> u16 {
        match self {
            ErrorCode::Syntax => 0x3001,
            ErrorCode::UnknownElement => 0x3002,
            ErrorCode::Schema => 0x3003,
            ErrorCode::Overflow => 0x3004,
            ErrorCode::Depth => 0x3005,
            ErrorCode::Mismatch => 0x3006,
            ErrorCode::Encoding => 0x3007,
            ErrorCode::Timeout => 0x3008,
        }
    }

    /// The code of an error: syntax, unknown element, field overflow,
    /// depth overflow, tag mismatch and encoding have their own; every
    /// other error is a schema error.
    pub open spec fn spec_of(err: Error) -> ErrorCode {
        match err {
            Error::XmlSyntax { .. } => ErrorCode::Syntax,
            Error::UnknownElement { .. } => ErrorCode::UnknownElement,
            Error::SchemaValidation { .. } => ErrorCode::Schema,
            Error::FieldOverflow { .. } => ErrorCode::Overflow,
            Error::DepthOverflow { .. } => ErrorCode::Depth,
            Error::TagMismatch { .. } => ErrorCode::Mismatch,
            Error::InvalidEncoding { .. } => ErrorCode::Encoding,
            _ => ErrorCode::Schema,
        }
    }

    /// Returns the number of the error code.
    pub fn code(&self) -> (c: u16)
        ensures
            c == self.spec_code(),
    {
        match self {
            ErrorCode::Syntax => 0x3001,
            ErrorCode::UnknownElement => 0x3002,
            ErrorCode::Schema => 0x3003,
            ErrorCode::Overflow => 0x3004,
            ErrorCode::Depth => 0x3005,
            ErrorCode::Mismatch => 0x3006,
            ErrorCode::Encoding => 0x3007,
            ErrorCode::Timeout => 0x3008,
        }
    }

    /// Returns the code of an error.
    pub fn of(err: &Error) -> (c: Self)
        ensures
            c == ErrorCode::spec_of(*err),
    {
        match err {
            Error::XmlSyntax { .. } => ErrorCode::Syntax,
            Error::UnknownElement { .. } => ErrorCode::UnknownElement,
            Error::SchemaValidation { .. } => ErrorCode::Schema,
            Error::FieldOverflow { .. } => ErrorCode::Overflow,
            Error::DepthOverflow { .. } => ErrorCode::Depth,
            Error::TagMismatch { .. } => ErrorCode::Mismatch,
            Error::InvalidEncoding { .. } => ErrorCode::Encoding,
            _ => ErrorCode::Schema,
        }
    }
}

impl From<&Error> for ErrorCode {
    /// The code of an error.
    fn from(err: &Error) -> (c: ErrorCode) {
        ErrorCode::of(err)
    }
}

impl FromSpecImpl<&Error> for ErrorCode {
    open spec fn obeys_from_spec() -> bool {
        true
    }

    open spec fn from_spec(err: &Error) -> ErrorCode {
        ErrorCode::spec_of(*err)
    }
}

} // verus!
