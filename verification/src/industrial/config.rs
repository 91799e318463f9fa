//! Configuration descriptors and their validation.
//!
//! Fractional quantities are fixed-point integers: engineering values,
//! scales, offsets and thresholds count millionths (`_micro`), the backoff
//! factor counts thousandths (`_milli`) and the sampling rate counts parts
//! per million (`_ppm`).

use vstd::prelude::*;
use crate::industrial::error::IndustrialError;
use crate::industrial::types::{AlarmCondition, AlarmSeverity, DataType, RegisterType};

verus! {

/// Most devices that one gateway accepts.
pub const MAX_DEVICES: usize = 10;

/// Most registers that one gateway accepts.
pub const MAX_REGISTERS: usize = 256;

/// Most alarms that one gateway accepts.
pub const MAX_ALARMS: usize = 64;

/// One whole unit in millionths.
pub const MICRO: i64 = 1_000_000;

/// Default MODBUS TCP port.
pub fn default_modbus_port() -> (v: u16)
    ensures
        v == 502,
{
    502
}

/// Default unit selector.
pub fn default_unit_id() -> (v: u8)
    ensures
        v == 1,
{
    1
}

/// Default connect timeout in milliseconds.
pub fn default_connect_timeout() -> (v: u32)
    ensures
        v == 5000,
{
    5000
}

/// Default response timeout in milliseconds.
pub fn default_response_timeout() -> (v: u32)
    ensures
        v == 1000,
{
    1000
}

/// Default number of retries.
pub fn default_retry_count() -> (v: u8)
    ensures
        v == 3,
{
    3
}

/// Default retry delay in milliseconds.
pub fn default_retry_delay() -> (v: u32)
    ensures
        v == 100,
{
    100
}

/// Default of every enabling flag.
pub fn default_true() -> (v: bool)
    ensures
        v,
{
    true
}

/// Default scale, 1.0, in millionths.
pub fn default_scale() -> (v: i64)
    ensures
        v == MICRO,
{
    MICRO
}

/// Default poll interval in milliseconds.
pub fn default_poll_interval() -> (v: u32)
    ensures
        v == 1000,
{
    1000
}

/// Default priority (normal).
pub fn default_priority() -> (v: u8)
    ensures
        v == 1,
{
    1
}

/// Default batch interval in milliseconds.
pub fn default_batch_interval() -> (v: u32)
    ensures
        v == 100,
{
    100
}

/// Default batch size in events.
pub fn default_batch_size() -> (v: u16)
    ensures
        v == 32,
{
    32
}

/// Default sampling rate, 1.0, in parts per million.
pub fn default_sampling_rate() -> (v: u32)
    ensures
        v == 1_000_000,
{
    1_000_000
}

/// Default global poll rate cap per second.
pub fn default_max_polls() -> (v: u32)
    ensures
        v == 100,
{
    100
}

/// Default backoff factor, 1.5, in thousandths.
pub fn default_backoff_factor() -> (v: u32)
    ensures
        v == 1500,
{
    1500
}

/// Default maximum backoff interval in milliseconds.
pub fn default_max_backoff() -> (v: u32)
    ensures
        v == 60000,
{
    60000
}

/// Word order for multi-word data types.
#[derive(Debug, Clone, Copy, PartialEq, Eq, Structural)]
pub enum WordOrder {
    /// Most significant word first
    BigEndian,
    /// Least significant word first
    LittleEndian,
}

impl Default for WordOrder {
    fn default() -> (r: Self)
        ensures
            r == WordOrder::BigEndian,
    {
        WordOrder::BigEndian
    }
}

/// MODBUS device descriptor.
#[derive(Debug)]
pub struct DeviceConfig {
    /// Unique device identifier
    pub device_id: String,
    /// Human-readable name
    pub name: String,
    /// Device IPv4 address, one octet per element
    pub ip_address: [u8; 4],
    /// MODBUS port (default 502)
    pub port: u16,
    /// MODBUS unit selector
    pub unit_id: u8,
    /// Connection timeout in milliseconds
    pub connect_timeout_ms: u32,
    /// Response timeout in milliseconds
    pub response_timeout_ms: u32,
    /// Number of retries on failure
    pub retry_count: u8,
    /// Retry delay in milliseconds
    pub retry_delay_ms: u32,
    /// Whether the device is enabled
    pub enabled: bool,
}

impl Default for DeviceConfig {
    fn default() -> (c: Self)
        ensures
            c.device_id@.len() == 0,
            c.name@.len() == 0,
            c.ip_address@ == seq![127u8, 0u8, 0u8, 1u8],
            c.port == 502,
            c.unit_id == 1,
            c.connect_timeout_ms == 5000,
            c.response_timeout_ms == 1000,
            c.retry_count == 3,
            c.retry_delay_ms == 100,
            c.enabled,
    {
        let ip: [u8; 4] = [127, 0, 0, 1];
        assert(ip@ =~= seq![127u8, 0u8, 0u8, 1u8]);
        DeviceConfig {
            device_id: String::new(),
            name: String::new(),
            ip_address: ip,
            port: default_modbus_port(),
            unit_id: default_unit_id(),
            connect_timeout_ms: default_connect_timeout(),
            response_timeout_ms: default_response_timeout(),
            retry_count: default_retry_count(),
            retry_delay_ms: default_retry_delay(),
            enabled: default_true(),
        }
    }
}

impl Clone for DeviceConfig {
    fn clone(&self) -> (c: Self)
        ensures
            c == *self,
    {
        DeviceConfig {
            device_id: self.device_id.clone(),
            name: self.name.clone(),
            ip_address: self.ip_address,
            port: self.port,
            unit_id: self.unit_id,
            connect_timeout_ms: self.connect_timeout_ms,
            response_timeout_ms: self.response_timeout_ms,
            retry_count: self.retry_count,
            retry_delay_ms: self.retry_delay_ms,
            enabled: self.enabled,
        }
    }
}

/// Register descriptor.
#[derive(Debug)]
pub struct RegisterConfig {
    /// Device this register belongs to
    pub device_id: String,
    /// Register name (tag name); alarms bind to it
    pub name: String,
    /// Register address (0-based)
    pub address: u16,
    /// Register class
    pub register_type: RegisterType,
    /// Data type
    pub data_type: DataType,
    /// Word order for multi-word types
    pub word_order: WordOrder,
    /// Scale factor in millionths (scaled = raw * scale + offset)
    pub scale_micro: i64,
    /// Offset in millionths
    pub offset_micro: i64,
    /// Engineering unit
    pub unit: String,
    /// Polling interval in milliseconds
    pub poll_interval_ms: u32,
    /// Only emit when the value changes
    pub emit_on_change: bool,
    /// Change threshold in millionths
    pub change_threshold_micro: i64,
    /// Priority (0=low, 1=normal, 2=high, 3=critical)
    pub priority: u8,
}

impl Default for RegisterConfig {
    fn default() -> (c: Self)
        ensures
            c.device_id@.len() == 0,
            c.name@.len() == 0,
            c.address == 0,
            c.register_type == RegisterType::Holding,
            c.data_type == DataType::UInt16,
            c.word_order == WordOrder::BigEndian,
            c.scale_micro == MICRO,
            c.offset_micro == 0,
            c.unit@.len() == 0,
            c.poll_interval_ms == 1000,
            c.emit_on_change,
            c.change_threshold_micro == 0,
            c.priority == 1,
    {
        RegisterConfig {
            device_id: String::new(),
            name: String::new(),
            address: 0,
            register_type: RegisterType::Holding,
            data_type: DataType::UInt16,
            word_order: WordOrder::BigEndian,
            scale_micro: default_scale(),
            offset_micro: 0,
            unit: String::new(),
            poll_interval_ms: default_poll_interval(),
            emit_on_change: default_true(),
            change_threshold_micro: 0,
            priority: default_priority(),
        }
    }
}

impl Clone for RegisterConfig {
    fn clone(&self) -> (c: Self)
        ensures
            c == *self,
    {
        RegisterConfig {
            device_id: self.device_id.clone(),
            name: self.name.clone(),
            address: self.address,
            register_type: self.register_type,
            data_type: self.data_type,
            word_order: self.word_order,
            scale_micro: self.scale_micro,
            offset_micro: self.offset_micro,
            unit: self.unit.clone(),
            poll_interval_ms: self.poll_interval_ms,
            emit_on_change: self.emit_on_change,
            change_threshold_micro: self.change_threshold_micro,
            priority: self.priority,
        }
    }
}

/// Alarm descriptor.
#[derive(Debug)]
pub struct AlarmConfig {
    /// Unique alarm identifier
    pub alarm_id: String,
    /// Name of the register the alarm watches
    pub register_name: String,
    /// Alarm name
    pub name: String,
    /// Alarm condition
    pub condition: AlarmCondition,
    /// Low threshold in millionths
    pub threshold_lo_micro: i64,
    /// High threshold in millionths
    pub threshold_hi_micro: i64,
    /// Hysteresis for clearing, in millionths
    pub hysteresis_micro: i64,
    /// Debounce time in milliseconds
    pub debounce_ms: u32,
    /// Alarm severity
    pub severity: AlarmSeverity,
    /// Whether the alarm is enabled
    pub enabled: bool,
}

impl Default for AlarmConfig {
    fn default() -> (c: Self)
        ensures
            c.alarm_id@.len() == 0,
            c.register_name@.len() == 0,
            c.name@.len() == 0,
            c.condition == AlarmCondition::GreaterThan,
            c.threshold_lo_micro == 0,
            c.threshold_hi_micro == 0,
            c.hysteresis_micro == 0,
            c.debounce_ms == 0,
            c.severity == AlarmSeverity::Warning,
            c.enabled,
    {
        AlarmConfig {
            alarm_id: String::new(),
            register_name: String::new(),
            name: String::new(),
            condition: AlarmCondition::GreaterThan,
            threshold_lo_micro: 0,
            threshold_hi_micro: 0,
            hysteresis_micro: 0,
            debounce_ms: 0,
            severity: AlarmSeverity::Warning,
            enabled: default_true(),
        }
    }
}

impl Clone for AlarmConfig {
    fn clone(&self) -> (c: Self)
        ensures
            c == *self,
    {
        AlarmConfig {
            alarm_id: self.alarm_id.clone(),
            register_name: self.register_name.clone(),
            name: self.name.clone(),
            condition: self.condition,
            threshold_lo_micro: self.threshold_lo_micro,
            threshold_hi_micro: self.threshold_hi_micro,
            hysteresis_micro: self.hysteresis_micro,
            debounce_ms: self.debounce_ms,
            severity: self.severity,
            enabled: self.enabled,
        }
    }
}

/// Telemetry bridge settings of a gateway.
#[derive(Debug, Clone, Copy, PartialEq, Eq, Structural)]
pub struct StreamSightConfig {
    /// Whether telemetry is enabled
    pub enabled: bool,
    /// Minimum severity to emit (0=debug, 1=info, 2=warning, 3=error)
    pub severity_filter: u8,
    /// Batch interval in milliseconds
    pub batch_interval_ms: u32,
    /// Maximum batch size
    pub batch_size: u16,
    /// Sampling rate for debug events in parts per million (1_000_000 keeps
    /// every event)
    pub sampling_rate_ppm: u32,
}

impl Default for StreamSightConfig {
    fn default() -> (c: Self)
        ensures
            c == (StreamSightConfig {
                enabled: true,
                severity_filter: 0,
                batch_interval_ms: 100,
                batch_size: 32,
                sampling_rate_ppm: 1_000_000,
            }),
    {
        StreamSightConfig {
            enabled: default_true(),
            severity_filter: 0,
            batch_interval_ms: default_batch_interval(),
            batch_size: default_batch_size(),
            sampling_rate_ppm: default_sampling_rate(),
        }
    }
}

/// Global gateway settings.
#[derive(Debug, Clone, Copy, PartialEq, Eq, Structural)]
pub struct GatewaySettings {
    /// Maximum polls per second
    pub max_polls_per_second: u32,
    /// Enable adaptive scheduling
    pub adaptive_scheduling: bool,
    /// Backoff factor on errors, in thousandths
    pub backoff_factor_milli: u32,
    /// Maximum backoff interval in milliseconds
    pub max_backoff_interval_ms: u32,
}

impl Default for GatewaySettings {
    fn default() -> (c: Self)
        ensures
            c == (GatewaySettings {
                max_polls_per_second: 100,
                adaptive_scheduling: true,
                backoff_factor_milli: 1500,
                max_backoff_interval_ms: 60000,
            }),
    {
        GatewaySettings {
            max_polls_per_second: default_max_polls(),
            adaptive_scheduling: default_true(),
            backoff_factor_milli: default_backoff_factor(),
            max_backoff_interval_ms: default_max_backoff(),
        }
    }
}

/// A length as a 32-bit count, saturating.
pub fn count_u32(n: usize) -> (c: u32)
    ensures
        c as int == (if n <= u32::MAX {
            n as int
        } else {
            u32::MAX as int
        }),
{
    if n > u32::MAX as usize {
        u32::MAX
    } else {
        n as u32
    }
}

/// Complete gateway configuration.
#[derive(Debug)]
pub struct GatewayConfig {
    /// Unique gateway identifier (32 bytes)
    pub gateway_id: [u8; 32],
    /// Human-readable name
    pub name: String,
    /// Device descriptors
    pub devices: Vec<DeviceConfig>,
    /// Register descriptors
    pub registers: Vec<RegisterConfig>,
    /// Alarm descriptors
    pub alarms: Vec<AlarmConfig>,
    /// Telemetry settings
    pub streamsight: StreamSightConfig,
    /// Global settings
    pub settings: GatewaySettings,
}

/// Whether a device with this identifier is among `devices`.
pub open spec fn device_known(devices: Seq<DeviceConfig>, device_id: Seq<char>) -> bool {
    exists|i: int| 0 <= i < devices.len() && #[trigger] devices[i].device_id@ == device_id
}

/// Index of the first register from `from` on that names no known
/// device; the number of registers if there is none.
pub open spec fn first_unbound(
    devices: Seq<DeviceConfig>,
    registers: Seq<RegisterConfig>,
    from: int,
) -> int
    decreases registers.len() - from,
{
    if from < 0 || from >= registers.len() {
        registers.len() as int
    } else if !device_known(devices, registers[from].device_id@) {
        from
    } else {
        first_unbound(devices, registers, from + 1)
    }
}

/// What is wrong with a configuration.
pub enum ConfigFault {
    /// More than 10 devices
    TooManyDevices,
    /// More than 256 registers
    TooManyRegisters,
    /// More than 64 alarms
    TooManyAlarms,
    /// The register at this index names no configured device
    UnknownDevice { register: int },
}

/// The limit that a configuration of these sizes exceeds, if it exceeds
/// one: devices are tested first, then registers, then alarms.
pub open spec fn limit_fault(devices: nat, registers: nat, alarms: nat) -> Option<ConfigFault> {
    if devices > MAX_DEVICES {
        Some(ConfigFault::TooManyDevices)
    } else if registers > MAX_REGISTERS {
        Some(ConfigFault::TooManyRegisters)
    } else if alarms > MAX_ALARMS {
        Some(ConfigFault::TooManyAlarms)
    } else {
        None
    }
}

/// The first fault of a configuration, if it has one: an exceeded limit,
/// or else the first register that names no configured device.
pub open spec fn config_fault(
    devices: Seq<DeviceConfig>,
    registers: Seq<RegisterConfig>,
    alarms: nat,
) -> Option<ConfigFault> {
    match limit_fault(devices.len(), registers.len(), alarms) {
        Some(fault) => Some(fault),
        None => if first_unbound(devices, registers, 0) < registers.len() {
            Some(ConfigFault::UnknownDevice { register: first_unbound(devices, registers, 0) })
        } else {
            None
        },
    }
}

/// A count as a 32-bit number, saturating.
pub open spec fn saturated_count(n: nat) -> u32 {
    if n <= u32::MAX {
        n as u32
    } else {
        u32::MAX
    }
}

/// Whether an error is `LimitExceeded` with the given name and limit, and
/// the number requested, saturated to 32 bits.
pub open spec fn limit_error(e: IndustrialError, name: Seq<char>, limit: u32, wanted: nat) -> bool {
    e matches IndustrialError::LimitExceeded { limit_name, max, requested } && limit_name@ == name
        && max == limit && requested == saturated_count(wanted)
}

/// Whether an error reports a fault: an exceeded limit is `LimitExceeded`
/// with the limit's name, the limit and the number requested; an unknown
/// device is `DeviceNotFound` with the device id that the register names.
pub open spec fn fault_matches(
    e: IndustrialError,
    fault: ConfigFault,
    devices: nat,
    registers: Seq<RegisterConfig>,
    alarms: nat,
) -> bool {
    match fault {
        ConfigFault::TooManyDevices => limit_error(e, "devices"@, 10, devices),
        ConfigFault::TooManyRegisters => limit_error(e, "registers"@, 256, registers.len()),
        ConfigFault::TooManyAlarms => limit_error(e, "alarms"@, 64, alarms),
        ConfigFault::UnknownDevice { register } => e matches IndustrialError::DeviceNotFound {
            device_id,
        } && device_id@ == registers[register].device_id@,
    }
}

/// Looks a device identifier up among the devices.
pub fn has_device(devices: &Vec<DeviceConfig>, device_id: &String) -> (found: bool)
    ensures
        found == device_known(devices@, device_id@),
{
    let mut i: usize = 0;
    while i < devices.len()
        invariant
            0 <= i <= devices.len(),
            forall|k: int| 0 <= k < i ==> (#[trigger] devices@[k]).device_id@ != device_id@,
        decreases devices.len() - i,
    {
        if devices[i].device_id == *device_id {
            return true;
        }
        i = i + 1;
    }
    false
}

/// Tests the limits of a configuration of these sizes.
pub fn check_limits(devices: usize, registers: usize, alarms: usize) -> (r: Result<
    (),
    IndustrialError,
>)
    ensures
        match limit_fault(devices as nat, registers as nat, alarms as nat) {
            Some(ConfigFault::TooManyDevices) => r matches Err(e) && limit_error(
                e,
                "devices"@,
                10,
                devices as nat,
            ),
            Some(ConfigFault::TooManyRegisters) => r matches Err(e) && limit_error(
                e,
                "registers"@,
                256,
                registers as nat,
            ),
            Some(_) => r matches Err(e) && limit_error(e, "alarms"@, 64, alarms as nat),
            None => r is Ok,
        },
{
    if devices > MAX_DEVICES {
        return Err(
            IndustrialError::LimitExceeded {
                limit_name: "devices".to_owned(),
                max: 10,
                requested: count_u32(devices),
            },
        );
    }
    if registers > MAX_REGISTERS {
        return Err(
            IndustrialError::LimitExceeded {
                limit_name: "registers".to_owned(),
                max: 256,
                requested: count_u32(registers),
            },
        );
    }
    if alarms > MAX_ALARMS {
        return Err(
            IndustrialError::LimitExceeded {
                limit_name: "alarms".to_owned(),
                max: 64,
                requested: count_u32(alarms),
            },
        );
    }
    Ok(())
}

/// A configuration without a fault holds at most 10 devices, 256
/// registers and 64 alarms, and each of its registers names a configured
/// device; and the other way round.
pub proof fn lemma_no_fault_means_valid(
    devices: Seq<DeviceConfig>,
    registers: Seq<RegisterConfig>,
    alarms: nat,
)
    ensures
        config_fault(devices, registers, alarms) is None <==> (devices.len() <= MAX_DEVICES
            && registers.len() <= MAX_REGISTERS && alarms <= MAX_ALARMS && forall|j: int|
            0 <= j < registers.len() ==> device_known(devices, #[trigger] registers[j].device_id@)),
{
    lemma_first_unbound(devices, registers, 0);
    if first_unbound(devices, registers, 0) < registers.len() {
        assert(!device_known(devices, registers[first_unbound(devices, registers, 0)].device_id@));
    }
}

/// Where `first_unbound` finds a register, it names no known device and
/// every register before it does; where it finds none, every register
/// from `from` on names a known device.
pub proof fn lemma_first_unbound(
    devices: Seq<DeviceConfig>,
    registers: Seq<RegisterConfig>,
    from: int,
)
    requires
        0 <= from,
    ensures
        first_unbound(devices, registers, from) <= registers.len(),
        first_unbound(devices, registers, from) < registers.len() ==> from <= first_unbound(
            devices,
            registers,
            from,
        ) && !device_known(
            devices,
            registers[first_unbound(devices, registers, from)].device_id@,
        ),
        forall|j: int|
            from <= j < first_unbound(devices, registers, from) && j < registers.len()
                ==> device_known(devices, #[trigger] registers[j].device_id@),
    decreases registers.len() - from,
{
    if from < registers.len() && device_known(devices, registers[from].device_id@) {
        lemma_first_unbound(devices, registers, from + 1);
    }
}

/// Whether no two registers share a name.  Alarms bind to registers by
/// name, so a configuration should hold each name once.
pub open spec fn names_unique(registers: Seq<RegisterConfig>) -> bool {
    forall|i: int, j: int|
        0 <= i < j < registers.len() ==> (#[trigger] registers[i]).name@
            != (#[trigger] registers[j]).name@
}

/// Tests whether no two registers share a name.
pub fn register_names_unique(registers: &Vec<RegisterConfig>) -> (unique: bool)
    ensures
        unique == names_unique(registers@),
{
    let mut j: usize = 0;
    while j < registers.len()
        invariant
            0 <= j <= registers@.len(),
            forall|a: int, b: int|
                0 <= a < b < j ==> (#[trigger] registers@[a]).name@
                    != (#[trigger] registers@[b]).name@,
        decreases registers@.len() - j,
    {
        let mut i: usize = 0;
        while i < j
            invariant
                0 <= i <= j < registers@.len(),
                forall|a: int| 0 <= a < i ==> (#[trigger] registers@[a]).name@
                    != registers@[j as int].name@,
            decreases j - i,
        {
            if registers[i].name == registers[j].name {
                return false;
            }
            i = i + 1;
        }
        j = j + 1;
    }
    true
}

impl GatewayConfig {
    /// The first fault of the configuration, if it has one.
    pub open spec fn fault(&self) -> Option<ConfigFault> {
        config_fault(self.devices@, self.registers@, self.alarms@.len())
    }

    /// A configuration is valid when it has no fault: it holds at most 10
    /// devices, 256 registers and 64 alarms, and every register names a
    /// configured device.
    pub open spec fn spec_valid(&self) -> bool {
        self.fault() is None
    }

    /// Creates a new configuration builder.
    pub fn builder() -> (b: GatewayConfigBuilder)
        ensures
            b.gateway_id is None,
            b.name is None,
            b.devices@.len() == 0,
            b.registers@.len() == 0,
            b.alarms@.len() == 0,
            b.streamsight is None,
            b.settings is None,
    {
        GatewayConfigBuilder {
            gateway_id: None,
            name: None,
            devices: Vec::new(),
            registers: Vec::new(),
            alarms: Vec::new(),
            streamsight: None,
            settings: None,
        }
    }

    /// Validates the configuration.  The limits are tested in the order
    /// devices, registers, alarms; after them the registers in order, and
    /// the first one that names an unknown device is reported.
    pub fn validate(&self) -> (r: Result<(), IndustrialError>)
        ensures
            match self.fault() {
                None => r is Ok,
                Some(fault) => r matches Err(e) && fault_matches(
                    e,
                    fault,
                    self.devices@.len(),
                    self.registers@,
                    self.alarms@.len(),
                ),
            },
    {
        match check_limits(self.devices.len(), self.registers.len(), self.alarms.len()) {
            Err(e) => {
                return Err(e);
            },
            Ok(()) => {},
        }
        let mut j: usize = 0;
        while j < self.registers.len()
            invariant
                0 <= j <= self.registers@.len(),
                limit_fault(self.devices@.len(), self.registers@.len(), self.alarms@.len())
                    is None,
                first_unbound(self.devices@, self.registers@, 0) == first_unbound(
                    self.devices@,
                    self.registers@,
                    j as int,
                ),
            decreases self.registers@.len() - j,
        {
            if !has_device(&self.devices, &self.registers[j].device_id) {
                return Err(
                    IndustrialError::DeviceNotFound {
                        device_id: self.registers[j].device_id.clone(),
                    },
                );
            }
            j = j + 1;
        }
        Ok(())
    }
}

/// Gateway configuration builder.
#[derive(Debug)]
pub struct GatewayConfigBuilder {
    /// Gateway identifier, once set
    pub gateway_id: Option<[u8; 32]>,
    /// Gateway name, once set
    pub name: Option<String>,
    /// Devices added so far
    pub devices: Vec<DeviceConfig>,
    /// Registers added so far
    pub registers: Vec<RegisterConfig>,
    /// Alarms added so far
    pub alarms: Vec<AlarmConfig>,
    /// Telemetry settings, once set
    pub streamsight: Option<StreamSightConfig>,
    /// Global settings, once set
    pub settings: Option<GatewaySettings>,
}

impl GatewayConfigBuilder {
    /// Sets the gateway identifier.
    pub fn gateway_id(self, id: [u8; 32]) -> (b: Self)
        ensures
            b.gateway_id == Some(id),
            b.name == self.name,
            b.devices == self.devices,
            b.registers == self.registers,
            b.alarms == self.alarms,
            b.streamsight == self.streamsight,
            b.settings == self.settings,
    {
        let mut b = self;
        b.gateway_id = Some(id);
        b
    }

    /// Sets the gateway name.
    pub fn name(self, name: &str) -> (b: Self)
        ensures
            b.name matches Some(n) && n@ == name@,
            b.gateway_id == self.gateway_id,
            b.devices == self.devices,
            b.registers == self.registers,
            b.alarms == self.alarms,
            b.streamsight == self.streamsight,
            b.settings == self.settings,
    {
        let mut b = self;
        b.name = Some(name.to_owned());
        b
    }

    /// Adds a device.
    pub fn add_device(self, device: DeviceConfig) -> (b: Self)
        ensures
            b.devices@ == self.devices@.push(device),
            b.gateway_id == self.gateway_id,
            b.name == self.name,
            b.registers == self.registers,
            b.alarms == self.alarms,
            b.streamsight == self.streamsight,
            b.settings == self.settings,
    {
        let mut b = self;
        b.devices.push(device);
        b
    }

    /// Adds a register.
    pub fn add_register(self, register: RegisterConfig) -> (b: Self)
        ensures
            b.registers@ == self.registers@.push(register),
            b.gateway_id == self.gateway_id,
            b.name == self.name,
            b.devices == self.devices,
            b.alarms == self.alarms,
            b.streamsight == self.streamsight,
            b.settings == self.settings,
    {
        let mut b = self;
        b.registers.push(register);
        b
    }

    /// Adds an alarm.
    pub fn add_alarm(self, alarm: AlarmConfig) -> (b: Self)
        ensures
            b.alarms@ == self.alarms@.push(alarm),
            b.gateway_id == self.gateway_id,
            b.name == self.name,
            b.devices == self.devices,
            b.registers == self.registers,
            b.streamsight == self.streamsight,
            b.settings == self.settings,
    {
        let mut b = self;
        b.alarms.push(alarm);
        b
    }

    /// Sets the telemetry settings.
    pub fn streamsight(self, config: StreamSightConfig) -> (b: Self)
        ensures
            b.streamsight == Some(config),
            b.gateway_id == self.gateway_id,
            b.name == self.name,
            b.devices == self.devices,
            b.registers == self.registers,
            b.alarms == self.alarms,
            b.settings == self.settings,
    {
        let mut b = self;
        b.streamsight = Some(config);
        b
    }

    /// Sets the global settings.
    pub fn settings(self, settings: GatewaySettings) -> (b: Self)
        ensures
            b.settings == Some(settings),
            b.gateway_id == self.gateway_id,
            b.name == self.name,
            b.devices == self.devices,
            b.registers == self.registers,
            b.alarms == self.alarms,
            b.streamsight == self.streamsight,
    {
        let mut b = self;
        b.settings = Some(settings);
        b
    }

    /// The configuration that `build` assembles from a builder whose
    /// identifier is set: the name defaults to "Industrial Gateway", the
    /// settings to their defaults.
    pub open spec fn assembles(self, c: GatewayConfig) -> bool {
        &&& self.gateway_id == Some(c.gateway_id)
        &&& c.name@ == (match self.name {
            Some(n) => n@,
            None => "Industrial Gateway"@,
        })
        &&& c.devices == self.devices
        &&& c.registers == self.registers
        &&& c.alarms == self.alarms
        &&& c.streamsight == (match self.streamsight {
            Some(s) => s,
            None => StreamSightConfig {
                enabled: true,
                severity_filter: 0,
                batch_interval_ms: 100,
                batch_size: 32,
                sampling_rate_ppm: 1_000_000,
            },
        })
        &&& c.settings == (match self.settings {
            Some(s) => s,
            None => GatewaySettings {
                max_polls_per_second: 100,
                adaptive_scheduling: true,
                backoff_factor_milli: 1500,
                max_backoff_interval_ms: 60000,
            },
        })
    }

    /// Builds the configuration.  Without a gateway identifier the result is
    /// `InvalidConfig`; otherwise the assembled configuration is validated
    /// and returned exactly when it has no fault.
    pub fn build(self) -> (r: Result<GatewayConfig, IndustrialError>)
        ensures
            self.gateway_id is None ==> (r matches Err(IndustrialError::InvalidConfig { reason })
                && reason@ == "gateway_id is required"@),
            self.gateway_id is Some ==> (match config_fault(
                self.devices@,
                self.registers@,
                self.alarms@.len(),
            ) {
                None => r matches Ok(c) && self.assembles(c) && c.spec_valid(),
                Some(fault) => r matches Err(e) && fault_matches(
                    e,
                    fault,
                    self.devices@.len(),
                    self.registers@,
                    self.alarms@.len(),
                ),
            }),
    {
        let id: [u8; 32] = match self.gateway_id {
            Some(id) => id,
            None => {
                return Err(
                    IndustrialError::InvalidConfig { reason: "gateway_id is required".to_owned() },
                );
            },
        };
        let name: String = match self.name {
            Some(n) => n,
            None => "Industrial Gateway".to_owned(),
        };
        let streamsight: StreamSightConfig = match self.streamsight {
            Some(s) => s,
            None => StreamSightConfig::default(),
        };
        let settings: GatewaySettings = match self.settings {
            Some(s) => s,
            None => GatewaySettings::default(),
        };
        let config = GatewayConfig {
            gateway_id: id,
            name,
            devices: self.devices,
            registers: self.registers,
            alarms: self.alarms,
            streamsight,
            settings,
        };
        match config.validate() {
            Ok(()) => Ok(config),
            Err(e) => Err(e),
        }
    }
}

} // verus!
