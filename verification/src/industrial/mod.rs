//! Industrial protocol gateway: protocol engine, poll scheduler, stream
//! emitter and telemetry bridge, with the types they share.

pub mod types;
pub mod error;
pub mod text;
pub mod config;
pub mod protocol;
pub mod value;
pub mod emitter;
pub mod schedule_entry;
pub mod scheduler;
pub mod transport;
pub mod streamsight;
pub mod gateway;
