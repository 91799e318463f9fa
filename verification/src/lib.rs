//! Verified core of an industrial protocol gateway.
//!
//! The gateway polls registers on MODBUS TCP devices, decodes and scales the
//! raw words, evaluates threshold alarms and publishes value, alarm and
//! protocol events as batched topic/payload records.  Every component here is
//! a plain state machine: it takes timestamps, received bytes and random draws
//! as arguments and returns the frames to send and the events to publish, so
//! that each step carries a machine-checked contract.
//!
//! Numbers with a fraction are fixed-point integers throughout: engineering
//! values, scales and thresholds count millionths, the backoff factor counts
//! thousandths and the sampling rate parts per million.
//!
//! A second, smaller module holds the ISO 20022 helpers: message codes, the
//! ESF field container, BIC and IBAN wrappers, the pacs.008 and pacs.002
//! messages and the path hash.

pub mod industrial;
pub mod iso20022;
