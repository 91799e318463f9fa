//! ISO 20022 message codes, the ESF field container, and the pacs.008 and
//! pacs.002 messages with their conversion to ESF.

pub mod codes;
pub mod error;
pub mod esf;
pub mod messages;
pub mod schema;
pub mod types;
