//! Error values of the gateway.

use vstd::prelude::*;

verus! {

/// Gateway errors.  Each variant carries the fields needed to render its
/// message.
#[derive(Debug, Clone)]
pub enum IndustrialError {
    /// TCP connection failed
    ConnectionFailed { address: String, reason: String },
    /// Connection timeout
    ConnectionTimeout { address: String, timeout_ms: u32 },
    /// Connection refused
    ConnectionRefused { address: String },
    /// Connection reset
    ConnectionReset { address: String },
    /// Not connected
    NotConnected { device_id: String },
    /// MODBUS exception response
    ModbusException { function_code: u8, exception_code: u8, message: String },
    /// Response timeout
    ResponseTimeout { transaction_id: u32 },
    /// Invalid response
    InvalidResponse { reason: String },
    /// Transaction id mismatch
    TransactionMismatch { expected: u16, actual: u16 },
    /// CRC error (serial framing)
    CrcError { expected: u16, actual: u16 },
    /// Invalid configuration
    InvalidConfig { reason: String },
    /// Device not found
    DeviceNotFound { device_id: String },
    /// Register not found
    RegisterNotFound { device_id: String, name: String },
    /// Limit exceeded
    LimitExceeded { limit_name: String, max: u32, requested: u32 },
    /// Serial port error
    SerialError { port: String, reason: String },
    /// Framing error
    FramingError { port: String },
    /// Parity error
    ParityError { port: String },
    /// Gateway not running
    GatewayNotRunning,
    /// Gateway already running
    GatewayAlreadyRunning,
    /// Shutdown error
    ShutdownError { reason: String },
    /// Internal error
    Internal { reason: String },
    /// I/O error, described by its message
    Io(String),
    /// Channel send error
    ChannelSend,
    /// Channel receive error
    ChannelReceive,
}

/// Name of a MODBUS exception code.
pub open spec fn spec_exception_message(exception_code: u8) -> Seq<char> {
    if exception_code == 1 {
        "Illegal Function"@
    } else if exception_code == 2 {
        "Illegal Data Address"@
    } else if exception_code == 3 {
        "Illegal Data Value"@
    } else if exception_code == 4 {
        "Slave Device Failure"@
    } else if exception_code == 5 {
        "Acknowledge"@
    } else if exception_code == 6 {
        "Slave Device Busy"@
    } else {
        "Unknown Exception"@
    }
}

/// Returns the name of a MODBUS exception code.
pub fn exception_message(exception_code: u8) -> (s: &'static str)
    ensures
        s@ == spec_exception_message(exception_code),
{
    if exception_code == 1 {
        "Illegal Function"
    } else if exception_code == 2 {
        "Illegal Data Address"
    } else if exception_code == 3 {
        "Illegal Data Value"
    } else if exception_code == 4 {
        "Slave Device Failure"
    } else if exception_code == 5 {
        "Acknowledge"
    } else if exception_code == 6 {
        "Slave Device Busy"
    } else {
        "Unknown Exception"
    }
}

impl IndustrialError {
    /// Telemetry code of an error: connection 100-104, protocol 200 plus the
    /// exception code and 210-213, configuration 300-303, serial 400-402,
    /// gateway 500-502, internal 900-903.
    pub open spec fn spec_error_code(&self) -> int {
        match self {
            IndustrialError::ConnectionFailed { .. } => 100,
            IndustrialError::ConnectionTimeout { .. } => 101,
            IndustrialError::ConnectionRefused { .. } => 102,
            IndustrialError::ConnectionReset { .. } => 103,
            IndustrialError::NotConnected { .. } => 104,
            IndustrialError::ModbusException { exception_code, .. } => 200 + *exception_code,
            IndustrialError::ResponseTimeout { .. } => 210,
            IndustrialError::InvalidResponse { .. } => 211,
            IndustrialError::TransactionMismatch { .. } => 212,
            IndustrialError::CrcError { .. } => 213,
            IndustrialError::InvalidConfig { .. } => 300,
            IndustrialError::DeviceNotFound { .. } => 301,
            IndustrialError::RegisterNotFound { .. } => 302,
            IndustrialError::LimitExceeded { .. } => 303,
            IndustrialError::SerialError { .. } => 400,
            IndustrialError::FramingError { .. } => 401,
            IndustrialError::ParityError { .. } => 402,
            IndustrialError::GatewayNotRunning => 500,
            IndustrialError::GatewayAlreadyRunning => 501,
            IndustrialError::ShutdownError { .. } => 502,
            IndustrialError::Internal { .. } => 900,
            IndustrialError::Io(_) => 901,
            IndustrialError::ChannelSend => 902,
            IndustrialError::ChannelReceive => 903,
        }
    }

    /// Whether a request that failed with this error may be retried:
    /// timeouts, connection resets, framing and parity faults, and the
    /// exception codes 5 (Acknowledge) and 6 (Slave Device Busy).  Every
    /// other error is fatal for the request.
    pub open spec fn spec_is_recoverable(&self) -> bool {
        match self {
            IndustrialError::ConnectionTimeout { .. } => true,
            IndustrialError::ConnectionReset { .. } => true,
            IndustrialError::ResponseTimeout { .. } => true,
            IndustrialError::ModbusException { exception_code, .. } => *exception_code == 5
                || *exception_code == 6,
            IndustrialError::FramingError { .. } => true,
            IndustrialError::ParityError { .. } => true,
            _ => false,
        }
    }

    /// Returns the error code for telemetry.
    pub fn error_code(&self) -> (code: u16)
        ensures
            code == self.spec_error_code(),
    {
        match self {
            IndustrialError::ConnectionFailed { .. } => 100,
            IndustrialError::ConnectionTimeout { .. } => 101,
            IndustrialError::ConnectionRefused { .. } => 102,
            IndustrialError::ConnectionReset { .. } => 103,
            IndustrialError::NotConnected { .. } => 104,
            IndustrialError::ModbusException { exception_code, .. } => 200 + (*exception_code as u16),
            IndustrialError::ResponseTimeout { .. } => 210,
            IndustrialError::InvalidResponse { .. } => 211,
            IndustrialError::TransactionMismatch { .. } => 212,
            IndustrialError::CrcError { .. } => 213,
            IndustrialError::InvalidConfig { .. } => 300,
            IndustrialError::DeviceNotFound { .. } => 301,
            IndustrialError::RegisterNotFound { .. } => 302,
            IndustrialError::LimitExceeded { .. } => 303,
            IndustrialError::SerialError { .. } => 400,
            IndustrialError::FramingError { .. } => 401,
            IndustrialError::ParityError { .. } => 402,
            IndustrialError::GatewayNotRunning => 500,
            IndustrialError::GatewayAlreadyRunning => 501,
            IndustrialError::ShutdownError { .. } => 502,
            IndustrialError::Internal { .. } => 900,
            IndustrialError::Io(_) => 901,
            IndustrialError::ChannelSend => 902,
            IndustrialError::ChannelReceive => 903,
        }
    }

    /// Returns whether this error is recoverable.
    pub fn is_recoverable(&self) -> (b: bool)
        ensures
            b == self.spec_is_recoverable(),
    {
        match self {
            IndustrialError::ConnectionTimeout { .. } => true,
            IndustrialError::ConnectionReset { .. } => true,
            IndustrialError::ResponseTimeout { .. } => true,
            IndustrialError::ModbusException { exception_code, .. } => *exception_code == 5
                || *exception_code == 6,
            IndustrialError::FramingError { .. } => true,
            IndustrialError::ParityError { .. } => true,
            _ => false,
        }
    }

    /// Creates a MODBUS exception error from an exception code.
    pub fn modbus_exception(function_code: u8, exception_code: u8) -> (e: Self)
        ensures
            e matches IndustrialError::ModbusException { function_code: fc, exception_code: ec, message }
                && fc == function_code && ec == exception_code && message@
                == spec_exception_message(exception_code),
    {
        let message: String = exception_message(exception_code).to_owned();
        IndustrialError::ModbusException { function_code, exception_code, message }
    }
}

/// A MODBUS exception maps to the telemetry code 200 plus its exception
/// code, and is recoverable exactly for the codes 5 and 6.
pub proof fn lemma_exception_code_mapping(e: IndustrialError)
    requires
        e is ModbusException,
    ensures
        e.spec_error_code() == 200 + e->exception_code,
        e.spec_is_recoverable() <==> (e->exception_code == 5 || e->exception_code == 6),
{
}

} // verus!
