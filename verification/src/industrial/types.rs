//! Types shared by every component of the gateway.

use vstd::prelude::*;

verus! {

/// Register data types.
#[derive(Debug, Clone, Copy, PartialEq, Eq, Structural)]
pub enum DataType {
    /// Unsigned 16-bit integer
    UInt16,
    /// Signed 16-bit integer
    Int16,
    /// Unsigned 32-bit integer (2 registers)
    UInt32,
    /// Signed 32-bit integer (2 registers)
    Int32,
    /// 32-bit floating point (2 registers)
    Float32,
    /// 64-bit floating point (4 registers)
    Float64,
    /// Boolean (single register)
    Boolean,
    /// String (16 registers)
    String,
}

impl DataType {
    /// Number of 16-bit registers that one value of this type occupies.
    pub open spec fn spec_word_count(self) -> u16 {
        match self {
            DataType::UInt16 | DataType::Int16 | DataType::Boolean => 1,
            DataType::UInt32 | DataType::Int32 | DataType::Float32 => 2,
            DataType::Float64 => 4,
            DataType::String => 16,
        }
    }

    /// Returns the number of 16-bit registers required for this data type.
    pub fn word_count(&self) -> (n: u16)
        ensures
            n == self.spec_word_count(),
            1 <= n <= 16,
    {
        match self {
            DataType::UInt16 | DataType::Int16 | DataType::Boolean => 1,
            DataType::UInt32 | DataType::Int32 | DataType::Float32 => 2,
            DataType::Float64 => 4,
            DataType::String => 16,
        }
    }
}

/// Register classes of MODBUS.
#[derive(Debug, Clone, Copy, PartialEq, Eq, Structural)]
pub enum RegisterType {
    /// Holding registers (read/write, FC 03/06/16)
    Holding,
    /// Input registers (read-only, FC 04)
    Input,
    /// Coils (read/write bits, FC 01/05/15)
    Coil,
    /// Discrete inputs (read-only bits, FC 02)
    Discrete,
}

impl RegisterType {
    /// Function code that reads this register class.
    pub open spec fn spec_read_function_code(self) -> u8 {
        match self {
            RegisterType::Holding => 0x03,
            RegisterType::Input => 0x04,
            RegisterType::Coil => 0x01,
            RegisterType::Discrete => 0x02,
        }
    }

    /// Function code that writes one register of this class, if it is
    /// writable.
    pub open spec fn spec_write_function_code(self) -> Option<u8> {
        match self {
            RegisterType::Holding => Some(0x06u8),
            RegisterType::Coil => Some(0x05u8),
            RegisterType::Input | RegisterType::Discrete => None,
        }
    }

    /// Function code that writes several registers of this class, if it is
    /// writable.
    pub open spec fn spec_write_multiple_function_code(self) -> Option<u8> {
        match self {
            RegisterType::Holding => Some(0x10u8),
            RegisterType::Coil => Some(0x0Fu8),
            RegisterType::Input | RegisterType::Discrete => None,
        }
    }

    /// Returns the MODBUS function code for reading this register type.
    pub fn read_function_code(&self) -> (fc: u8)
        ensures
            fc == self.spec_read_function_code(),
    {
        match self {
            RegisterType::Holding => 0x03,
            RegisterType::Input => 0x04,
            RegisterType::Coil => 0x01,
            RegisterType::Discrete => 0x02,
        }
    }

    /// Returns the MODBUS function code for writing a single register of this
    /// type (`None` if read-only).
    pub fn write_function_code(&self) -> (fc: Option<u8>)
        ensures
            fc == self.spec_write_function_code(),
    {
        match self {
            RegisterType::Holding => Some(0x06),
            RegisterType::Coil => Some(0x05),
            RegisterType::Input | RegisterType::Discrete => None,
        }
    }

    /// Returns the MODBUS function code for writing several registers of this
    /// type (`None` if read-only).
    pub fn write_multiple_function_code(&self) -> (fc: Option<u8>)
        ensures
            fc == self.spec_write_multiple_function_code(),
    {
        match self {
            RegisterType::Holding => Some(0x10),
            RegisterType::Coil => Some(0x0F),
            RegisterType::Input | RegisterType::Discrete => None,
        }
    }
}

impl Default for RegisterType {
    fn default() -> (r: Self)
        ensures
            r == RegisterType::Holding,
    {
        RegisterType::Holding
    }
}

/// Connection state of a transport.
#[derive(Debug, Clone, Copy, PartialEq, Eq, Structural)]
pub enum ConnectionState {
    /// Not connected
    Disconnected,
    /// Connection in progress
    Connecting,
    /// Connected and ready
    Connected,
    /// Attempting to reconnect
    Reconnecting,
    /// Error state
    Error,
}

impl ConnectionState {
    /// The variant's name as text.
    pub open spec fn spec_name(self) -> Seq<char> {
        match self {
            ConnectionState::Disconnected => "Disconnected"@,
            ConnectionState::Connecting => "Connecting"@,
            ConnectionState::Connected => "Connected"@,
            ConnectionState::Reconnecting => "Reconnecting"@,
            ConnectionState::Error => "Error"@,
        }
    }

    /// Returns the variant's name, as telemetry payloads carry it.
    pub fn name(&self) -> (s: &'static str)
        ensures
            s@ == self.spec_name(),
    {
        match self {
            ConnectionState::Disconnected => "Disconnected",
            ConnectionState::Connecting => "Connecting",
            ConnectionState::Connected => "Connected",
            ConnectionState::Reconnecting => "Reconnecting",
            ConnectionState::Error => "Error",
        }
    }
}

/// Device status.
#[derive(Debug, Clone, Copy, PartialEq, Eq, Structural)]
pub enum DeviceState {
    /// Status unknown
    Unknown,
    /// Device is online and responding
    Online,
    /// Device is offline
    Offline,
    /// Device has error
    Error,
}

/// Alarm condition operators.
#[derive(Debug, Clone, Copy, PartialEq, Eq, Structural)]
pub enum AlarmCondition {
    /// Value > threshold
    GreaterThan,
    /// Value < threshold
    LessThan,
    /// Value == threshold
    Equal,
    /// Value != threshold
    NotEqual,
    /// Value >= threshold
    GreaterOrEqual,
    /// Value <= threshold
    LessOrEqual,
    /// threshold_lo <= Value <= threshold_hi
    Between,
    /// Value < threshold_lo OR Value > threshold_hi
    Outside,
}

/// Alarm severity levels.
#[derive(Debug, Clone, Copy, PartialEq, Eq, Structural)]
pub enum AlarmSeverity {
    /// Informational
    Info,
    /// Warning
    Warning,
    /// Critical
    Critical,
}

impl AlarmSeverity {
    /// The variant's name as text.
    pub open spec fn spec_name(self) -> Seq<char> {
        match self {
            AlarmSeverity::Info => "Info"@,
            AlarmSeverity::Warning => "Warning"@,
            AlarmSeverity::Critical => "Critical"@,
        }
    }

    /// Returns the variant's name, as telemetry payloads carry it.
    pub fn name(&self) -> (s: &'static str)
        ensures
            s@ == self.spec_name(),
    {
        match self {
            AlarmSeverity::Info => "Info",
            AlarmSeverity::Warning => "Warning",
            AlarmSeverity::Critical => "Critical",
        }
    }
}

impl Default for AlarmSeverity {
    fn default() -> (r: Self)
        ensures
            r == AlarmSeverity::Warning,
    {
        AlarmSeverity::Warning
    }
}

/// Alarm state.
#[derive(Debug, Clone, Copy, PartialEq, Eq, Structural)]
pub enum AlarmState {
    /// Normal (not active)
    Normal,
    /// Active (condition met)
    Active,
    /// Acknowledged by operator
    Acknowledged,
    /// Shelved (temporarily suppressed)
    Shelved,
}

impl AlarmState {
    /// The variant's name as text.
    pub open spec fn spec_name(self) -> Seq<char> {
        match self {
            AlarmState::Normal => "Normal"@,
            AlarmState::Active => "Active"@,
            AlarmState::Acknowledged => "Acknowledged"@,
            AlarmState::Shelved => "Shelved"@,
        }
    }

    /// Returns the variant's name, as telemetry payloads carry it.
    pub fn name(&self) -> (s: &'static str)
        ensures
            s@ == self.spec_name(),
    {
        match self {
            AlarmState::Normal => "Normal",
            AlarmState::Active => "Active",
            AlarmState::Acknowledged => "Acknowledged",
            AlarmState::Shelved => "Shelved",
        }
    }
}

/// OPC-style data quality codes.
#[derive(Debug, Clone, Copy, PartialEq, Eq, Structural)]
pub enum Quality {
    /// Value is good
    Good,
    /// Value overridden locally
    GoodLocalOverride,
    /// Value is uncertain
    Uncertain,
    /// Last known good value
    UncertainLastUsable,
    /// Value is bad
    Bad,
    /// Configuration error
    BadConfigError,
    /// Not connected to device
    BadNotConnected,
    /// Device failure
    BadDeviceFailure,
    /// Sensor failure
    BadSensorFailure,
    /// Communication failure
    BadCommFailure,
    /// Out of service
    BadOutOfService,
}

impl Quality {
    /// Numeric quality code: below 64 is the Good family, 64 to 191 the
    /// Uncertain family, 192 and above the Bad family.
    pub open spec fn spec_code(self) -> u8 {
        match self {
            Quality::Good => 0,
            Quality::GoodLocalOverride => 1,
            Quality::Uncertain => 64,
            Quality::UncertainLastUsable => 65,
            Quality::Bad => 192,
            Quality::BadConfigError => 193,
            Quality::BadNotConnected => 194,
            Quality::BadDeviceFailure => 195,
            Quality::BadSensorFailure => 196,
            Quality::BadCommFailure => 197,
            Quality::BadOutOfService => 198,
        }
    }

    /// Returns the numeric quality code.
    pub fn code(&self) -> (c: u8)
        ensures
            c == self.spec_code(),
    {
        match self {
            Quality::Good => 0,
            Quality::GoodLocalOverride => 1,
            Quality::Uncertain => 64,
            Quality::UncertainLastUsable => 65,
            Quality::Bad => 192,
            Quality::BadConfigError => 193,
            Quality::BadNotConnected => 194,
            Quality::BadDeviceFailure => 195,
            Quality::BadSensorFailure => 196,
            Quality::BadCommFailure => 197,
            Quality::BadOutOfService => 198,
        }
    }

    /// Returns true if quality is good.
    pub fn is_good(&self) -> (b: bool)
        ensures
            b == (self.spec_code() < 64),
    {
        self.code() < 64
    }

    /// Returns true if quality is uncertain.
    pub fn is_uncertain(&self) -> (b: bool)
        ensures
            b == (64 <= self.spec_code() < 192),
    {
        let code: u8 = self.code();
        code >= 64 && code < 192
    }

    /// Returns true if quality is bad.
    pub fn is_bad(&self) -> (b: bool)
        ensures
            b == (self.spec_code() >= 192),
    {
        self.code() >= 192
    }
}

/// Every quality code belongs to exactly one of the three families.
pub proof fn lemma_quality_families_partition(q: Quality)
    ensures
        (q.spec_code() < 64) || (64 <= q.spec_code() < 192) || (q.spec_code() >= 192),
        !((q.spec_code() < 64) && (q.spec_code() >= 192)),
{
}

/// Connection metrics.
#[derive(Debug, Clone, Copy, PartialEq, Eq, Structural)]
pub struct ConnectionMetrics {
    /// Bytes sent
    pub bytes_sent: u64,
    /// Bytes received
    pub bytes_received: u64,
    /// Packets sent
    pub packets_sent: u64,
    /// Packets received
    pub packets_received: u64,
    /// Retransmissions
    pub retransmissions: u32,
    /// Average round-trip time in microseconds
    pub avg_rtt_us: u32,
}

impl Default for ConnectionMetrics {
    fn default() -> (m: Self)
        ensures
            m == (ConnectionMetrics {
                bytes_sent: 0,
                bytes_received: 0,
                packets_sent: 0,
                packets_received: 0,
                retransmissions: 0,
                avg_rtt_us: 0,
            }),
    {
        ConnectionMetrics {
            bytes_sent: 0,
            bytes_received: 0,
            packets_sent: 0,
            packets_received: 0,
            retransmissions: 0,
            avg_rtt_us: 0,
        }
    }
}

/// Gateway metrics.
#[derive(Debug, Clone, Copy, PartialEq, Eq, Structural)]
pub struct GatewayMetrics {
    /// Total requests sent
    pub requests_total: u64,
    /// Successful responses
    pub responses_success: u64,
    /// Failed responses
    pub responses_failed: u64,
    /// Timeouts
    pub timeouts: u64,
    /// Average latency in microseconds
    pub avg_latency_us: u32,
    /// Max latency in microseconds
    pub max_latency_us: u32,
    /// 99th-percentile latency in microseconds
    pub p99_latency_us: u32,
    /// Active alarms
    pub alarms_active: u16,
    /// Devices online
    pub devices_online: u16,
    /// Devices configured
    pub devices_configured: u16,
}

impl Default for GatewayMetrics {
    fn default() -> (m: Self)
        ensures
            m == (GatewayMetrics {
                requests_total: 0,
                responses_success: 0,
                responses_failed: 0,
                timeouts: 0,
                avg_latency_us: 0,
                max_latency_us: 0,
                p99_latency_us: 0,
                alarms_active: 0,
                devices_online: 0,
                devices_configured: 0,
            }),
    {
        GatewayMetrics {
            requests_total: 0,
            responses_success: 0,
            responses_failed: 0,
            timeouts: 0,
            avg_latency_us: 0,
            max_latency_us: 0,
            p99_latency_us: 0,
            alarms_active: 0,
            devices_online: 0,
            devices_configured: 0,
        }
    }
}

/// Exponential moving average with weight 1/8 for the new sample:
/// `(7 * avg + sample) / 8`.
pub open spec fn spec_latency_ema(avg: u32, sample: u32) -> u32 {
    ((7 * avg + sample) / 8) as u32
}

/// Folds one latency sample into a running average.
pub fn latency_ema(avg: u32, sample: u32) -> (r: u32)
    ensures
        r == spec_latency_ema(avg, sample),
        r as int == (7 * avg + sample) / 8,
{
    let wide: u64 = (avg as u64) * 7 + (sample as u64);
    (wide / 8) as u32
}

/// Reads the system clock through `std::time::SystemTime::now` and returns
/// the nanoseconds since the Unix epoch (zero if the clock is set before
/// it).  Nothing is claimed of the value.
#[verifier::external_body]
pub fn timestamp_ns() -> u64 {
    std::time::SystemTime::now()
        .duration_since(std::time::UNIX_EPOCH)
        .unwrap_or(std::time::Duration::ZERO)
        .as_nanos() as u64
}

} // verus!
