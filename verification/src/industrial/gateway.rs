//! Gateway composite: one configuration bound to its protocol engines,
//! scheduler, emitter and bridge.
//!
//! The gateway holds no sockets and no channels.  Its driver connects the
//! devices, runs the scheduler's steps and forwards what the components
//! return.

use vstd::prelude::*;
use vstd::string::*;
use crate::industrial::config::{
    AlarmConfig,
    DeviceConfig,
    GatewayConfig,
    MAX_REGISTERS,
    RegisterConfig,
    check_limits,
    count_u32,
    fault_matches,
    limit_fault,
};
use crate::industrial::emitter::{
    EmitterConfig,
    EmitterOutput,
    EmitterState,
    StreamEmitter,
    alarm_views,
    alarms_unique,
    process_from,
    raw_batch,
    registers_unique,
    spec_add_alarm,
    spec_add_register,
    stream_views,
};
use crate::industrial::error::IndustrialError;
use crate::industrial::protocol::{
    InFlight,
    ModbusReadRequest,
    ModbusTcpClient,
    ModbusWriteRequest,
    ReadCompletion,
    ReadTicket,
    spec_tcp_config,
};
use crate::industrial::scheduler::{
    PollComplete,
    PollItem,
    PollScheduler,
    PollStatus,
    SchedulerAction,
    SchedulerConfig,
    SchedulerState,
    action_matches,
    spec_add_poll,
    spec_poll_complete,
    spec_poll_state,
    state_wf,
};
use crate::industrial::schedule_entry::ScheduleEntry;
use crate::industrial::streamsight::{
    BridgeConfig,
    BridgeMetrics,
    BridgeState,
    GatewayHealthEvent,
    LexEvent,
    StreamSightBridge,
    TelemetryEvent,
    accounted,
    lex_views,
    spec_flush,
    spec_process,
    spec_process_batch,
};
use crate::industrial::text::hex_lower;
use crate::industrial::transport::TcpConfig;
use crate::industrial::types::{DeviceState, GatewayMetrics, Quality, RegisterType, timestamp_ns};

verus! {

/// Version of the gateway, as health events report it.
pub const VERSION: &'static str = "0.1.0";

/// Standard tier of the gateway.
#[derive(Debug, Clone, Copy, PartialEq, Eq, Structural)]
pub struct GatewayStandard;

/// Premium tier of the gateway.
#[derive(Debug, Clone, Copy, PartialEq, Eq, Structural)]
pub struct GatewayPremium;

/// The devices that are enabled, in their order.
pub open spec fn enabled_devices(devices: Seq<DeviceConfig>) -> Seq<DeviceConfig>
    decreases devices.len(),
{
    if devices.len() == 0 {
        Seq::<DeviceConfig>::empty()
    } else if devices.last().enabled {
        enabled_devices(devices.drop_last()).push(devices.last())
    } else {
        enabled_devices(devices.drop_last())
    }
}

/// The poll item of a register under a poll id.
pub open spec fn spec_poll_item(config: RegisterConfig, poll_id: u32) -> PollItem {
    PollItem {
        poll_id,
        device_id: config.device_id,
        name: config.name,
        register_type: config.register_type,
        address: config.address,
        count: config.data_type.spec_word_count(),
        base_interval_ms: config.poll_interval_ms,
        current_interval_ms: config.poll_interval_ms,
        priority: config.priority,
        enabled: true,
    }
}

/// The scheduler after the first `n` registers were added at `now_ns`,
/// the register at position `i` under the poll id `i + 1`.
pub open spec fn polls_added(
    state: SchedulerState,
    registers: Seq<RegisterConfig>,
    n: int,
    now_ns: u64,
) -> SchedulerState
    decreases n,
{
    if n <= 0 {
        state
    } else {
        spec_add_poll(
            polls_added(state, registers, n - 1, now_ns),
            spec_poll_item(registers[n - 1], n as u32),
            now_ns,
        )
    }
}

/// The emitter after the first `n` registers were added.
pub open spec fn registers_added(state: EmitterState, registers: Seq<RegisterConfig>, n: int) -> EmitterState
    decreases n,
{
    if n <= 0 {
        state
    } else {
        spec_add_register(registers_added(state, registers, n - 1), registers[n - 1])
    }
}

/// The emitter after the first `n` alarms were added.
pub open spec fn alarms_added(state: EmitterState, alarms: Seq<AlarmConfig>, n: int) -> EmitterState
    decreases n,
{
    if n <= 0 {
        state
    } else {
        spec_add_alarm(alarms_added(state, alarms, n - 1), alarms[n - 1])
    }
}

/// The scheduler of a new gateway, before any register is added.
pub open spec fn initial_scheduler(config: GatewayConfig) -> SchedulerState {
    SchedulerState {
        config: SchedulerConfig {
            max_polls_per_second: config.settings.max_polls_per_second,
            adaptive_enabled: config.settings.adaptive_scheduling,
            backoff_factor_milli: config.settings.backoff_factor_milli,
            max_backoff_interval_ms: config.settings.max_backoff_interval_ms,
        },
        items: Map::<u32, PollItem>::empty(),
        status: Map::<u32, PollStatus>::empty(),
        schedule: Seq::<ScheduleEntry>::empty(),
        sequence: 1,
        last_dispatch_ns: None,
        running: false,
    }
}

/// The emitter of a new gateway, before any register or alarm is added.
pub open spec fn initial_emitter(config: GatewayConfig) -> EmitterState {
    EmitterState {
        gateway_id: config.gateway_id@,
        registers: Seq::empty(),
        alarms: Seq::empty(),
        event_id: 1,
    }
}

/// Index of the first engine from `from` on whose device has the given
/// id; the number of engines if there is none.
pub open spec fn client_index(clients: Seq<ModbusTcpClient>, device: Seq<char>, from: int) -> int
    decreases clients.len() - from,
{
    if from < 0 || from >= clients.len() {
        clients.len() as int
    } else if clients[from].config().device_id@ == device {
        from
    } else {
        client_index(clients, device, from + 1)
    }
}

/// Gateway of the free tier: MODBUS TCP with up to 10 devices, 256
/// registers and 64 alarms.
pub struct GatewayLite {
    config: GatewayConfig,
    clients: Vec<ModbusTcpClient>,
    scheduler: PollScheduler,
    emitter: StreamEmitter,
    bridge: StreamSightBridge,
    started_ns: Option<u64>,
    running: bool,
    metrics: GatewayMetrics,
}

impl GatewayLite {
    /// The configuration.
    pub closed spec fn config(&self) -> GatewayConfig {
        self.config
    }

    /// The protocol engines, one per enabled device.
    pub closed spec fn clients(&self) -> Seq<ModbusTcpClient> {
        self.clients@
    }

    /// The scheduler.
    pub closed spec fn scheduler(&self) -> SchedulerState {
        self.scheduler@
    }

    /// The emitter.
    pub closed spec fn emitter(&self) -> EmitterState {
        self.emitter@
    }

    /// The bridge.
    pub closed spec fn bridge(&self) -> BridgeState {
        self.bridge@
    }

    /// Whether the gateway runs.
    pub closed spec fn running(&self) -> bool {
        self.running
    }

    /// When the gateway was started, if it was.
    pub closed spec fn started_ns(&self) -> Option<u64> {
        self.started_ns
    }

    /// The metrics.
    pub closed spec fn gateway_metrics(&self) -> GatewayMetrics {
        self.metrics
    }

    /// Validity of the gateway: each of its components is valid, and the
    /// bridge carries the gateway's id.
    pub open spec fn wf(&self) -> bool {
        &&& forall|i: int| 0 <= i < self.clients().len() ==> (#[trigger] self.clients()[i]).wf()
        &&& state_wf(self.scheduler())
        &&& registers_unique(self.emitter().registers)
        &&& alarms_unique(self.emitter().alarms)
        &&& accounted(self.bridge())
        &&& self.bridge().config.gateway_id@ == self.config().gateway_id@
    }

    /// Whether the gateway is the one that `new_at` creates from a
    /// configuration at the time `now_ns`: one protocol engine per enabled
    /// device, a scheduler with one poll item per register (the register
    /// at position `i` under the poll id `i + 1`, due at `now_ns`), an
    /// emitter with every register and alarm, and a bridge under the
    /// configured filter, batch size and sampling rate.  The gateway is not
    /// running.
    pub open spec fn created_from(&self, config: GatewayConfig, now_ns: u64) -> bool {
        &&& self.wf()
        &&& self.config() == config
        &&& !self.running()
        &&& self.started_ns() is None
        &&& self.gateway_metrics() == (GatewayMetrics {
            requests_total: 0,
            responses_success: 0,
            responses_failed: 0,
            timeouts: 0,
            avg_latency_us: 0,
            max_latency_us: 0,
            p99_latency_us: 0,
            alarms_active: 0,
            devices_online: 0,
            devices_configured: 0,
        })
        &&& self.clients().len() == enabled_devices(config.devices@).len()
        &&& forall|i: int|
            0 <= i < self.clients().len() ==> (#[trigger] self.clients()[i]).config()
                == enabled_devices(config.devices@)[i] && self.clients()[i].counter() == 1
                && self.clients()[i].inflight() == Map::<u16, InFlight>::empty()
        &&& self.scheduler() == polls_added(
            initial_scheduler(config),
            config.registers@,
            config.registers@.len() as int,
            now_ns,
        )
        &&& self.emitter() == alarms_added(
            registers_added(
                initial_emitter(config),
                config.registers@,
                config.registers@.len() as int,
            ),
            config.alarms@,
            config.alarms@.len() as int,
        )
        &&& self.bridge().config.gateway_id@ == config.gateway_id@
        &&& self.bridge().config.namespace@ == "lex://estream/sys/industrial"@
        &&& self.bridge().config.severity_filter == config.streamsight.severity_filter
        &&& self.bridge().config.batch_size == config.streamsight.batch_size
        &&& self.bridge().config.flush_interval_ms == config.streamsight.batch_interval_ms
        &&& self.bridge().config.sampling_rate_ppm == config.streamsight.sampling_rate_ppm
        &&& self.bridge().sequence == 1
        &&& self.bridge().buffer.len() == 0
        &&& self.bridge().metrics == (BridgeMetrics {
            events_received: 0,
            events_emitted: 0,
            events_filtered: 0,
            events_sampled_out: 0,
            batches_sent: 0,
            bytes_sent: 0,
        })
    }

    /// Creates a gateway at the time `now_ns`.
    ///
    /// More than 10 devices, 256 registers or 64 alarms give
    /// `LimitExceeded`, tested in that order.  Otherwise the result is the
    /// gateway that `created_from` describes.
    pub fn new_at(config: GatewayConfig, now_ns: u64) -> (r: Result<Self, IndustrialError>)
        ensures
            match limit_fault(
                config.devices@.len(),
                config.registers@.len(),
                config.alarms@.len(),
            ) {
                Some(fault) => r matches Err(e) && fault_matches(
                    e,
                    fault,
                    config.devices@.len(),
                    config.registers@,
                    config.alarms@.len(),
                ),
                None => r matches Ok(g) && g.created_from(config, now_ns),
            },
    {
        match check_limits(config.devices.len(), config.registers.len(), config.alarms.len()) {
            Err(e) => {
                return Err(e);
            },
            Ok(()) => {},
        }
        let mut scheduler = PollScheduler::new(
            SchedulerConfig {
                max_polls_per_second: config.settings.max_polls_per_second,
                adaptive_enabled: config.settings.adaptive_scheduling,
                backoff_factor_milli: config.settings.backoff_factor_milli,
                max_backoff_interval_ms: config.settings.max_backoff_interval_ms,
            },
        );
        let mut emitter = StreamEmitter::new(
            EmitterConfig {
                gateway_id: config.gateway_id,
                emit_on_change_only: false,
                change_threshold_micro: 0,
                batch_enabled: true,
                batch_size: 32,
                batch_timeout_ms: 100,
            },
        );
        assert(emitter@.registers =~= Seq::empty());
        assert(emitter@.alarms =~= Seq::empty());
        assert(emitter@ == initial_emitter(config));
        let bridge = StreamSightBridge::new(
            BridgeConfig {
                gateway_id: config.gateway_id,
                namespace: "lex://estream/sys/industrial".to_owned(),
                buffer_size: 256,
                batch_size: config.streamsight.batch_size,
                flush_interval_ms: config.streamsight.batch_interval_ms,
                severity_filter: config.streamsight.severity_filter,
                sampling_rate_ppm: config.streamsight.sampling_rate_ppm,
            },
        );
        let mut clients: Vec<ModbusTcpClient> = Vec::new();
        let mut d: usize = 0;
        assert(config.devices@.subrange(0, 0) =~= Seq::<DeviceConfig>::empty());
        while d < config.devices.len()
            invariant
                0 <= d <= config.devices@.len(),
                clients@.len() == enabled_devices(config.devices@.subrange(0, d as int)).len(),
                forall|i: int|
                    0 <= i < clients@.len() ==> (#[trigger] clients@[i]).wf() && clients@[i].config()
                        == enabled_devices(config.devices@.subrange(0, d as int))[i]
                        && clients@[i].counter() == 1 && clients@[i].inflight() == Map::<
                        u16,
                        InFlight,
                    >::empty(),
            decreases config.devices@.len() - d,
        {
            assert(config.devices@.subrange(0, d + 1).drop_last() =~= config.devices@.subrange(
                0,
                d as int,
            ));
            if config.devices[d].enabled {
                clients.push(ModbusTcpClient::new(config.devices[d].clone()));
            }
            d = d + 1;
        }
        assert(config.devices@.subrange(0, d as int) =~= config.devices@);
        let mut i: usize = 0;
        while i < config.registers.len()
            invariant
                0 <= i <= config.registers@.len(),
                config.registers@.len() <= MAX_REGISTERS,
                scheduler.wf(),
                emitter.wf(),
                scheduler@ == polls_added(
                    initial_scheduler(config),
                    config.registers@,
                    i as int,
                    now_ns,
                ),
                emitter@ == registers_added(initial_emitter(config), config.registers@, i as int),
            decreases config.registers@.len() - i,
        {
            let item: PollItem = PollItem::from_register(&config.registers[i], (i + 1) as u32);
            scheduler.add_poll_at(item, now_ns);
            emitter.add_register(config.registers[i].clone());
            i = i + 1;
        }
        let mut a: usize = 0;
        while a < config.alarms.len()
            invariant
                0 <= a <= config.alarms@.len(),
                emitter.wf(),
                emitter@ == alarms_added(
                    registers_added(
                        initial_emitter(config),
                        config.registers@,
                        config.registers@.len() as int,
                    ),
                    config.alarms@,
                    a as int,
                ),
            decreases config.alarms@.len() - a,
        {
            emitter.add_alarm(config.alarms[a].clone());
            a = a + 1;
        }
        Ok(
            GatewayLite {
                config,
                clients,
                scheduler,
                emitter,
                bridge,
                started_ns: None,
                running: false,
                metrics: GatewayMetrics::default(),
            },
        )
    }

    /// Creates a gateway at the current time: `new_at` at the time that
    /// the clock returned.
    pub fn new(config: GatewayConfig) -> (r: Result<Self, IndustrialError>)
        ensures
            match limit_fault(
                config.devices@.len(),
                config.registers@.len(),
                config.alarms@.len(),
            ) {
                Some(fault) => r matches Err(e) && fault_matches(
                    e,
                    fault,
                    config.devices@.len(),
                    config.registers@,
                    config.alarms@.len(),
                ),
                None => r matches Ok(g) && exists|now_ns: u64| #[trigger]
                    g.created_from(config, now_ns),
            },
    {
        let now_ns: u64 = timestamp_ns();
        GatewayLite::new_at(config, now_ns)
    }

    /// Returns the gateway id.
    pub fn gateway_id(&self) -> (id: &[u8; 32])
        ensures
            *id == self.config().gateway_id,
    {
        &self.config.gateway_id
    }

    /// Returns the gateway name.
    pub fn name(&self) -> (n: &str)
        ensures
            n@ == self.config().name@,
    {
        self.config.name.as_str()
    }

    /// Returns whether the gateway is running.
    pub fn is_running(&self) -> (b: bool)
        ensures
            b == self.running(),
    {
        self.running
    }

    /// Gets the current metrics.
    pub fn metrics(&self) -> (m: GatewayMetrics)
        ensures
            m == self.gateway_metrics(),
    {
        self.metrics
    }

    /// Returns the number of protocol engines.
    pub fn client_count(&self) -> (n: usize)
        ensures
            n == self.clients().len(),
    {
        self.clients.len()
    }

    /// Returns how many events the bridge received.
    pub fn events_received(&self) -> (n: u64)
        ensures
            n == self.bridge().metrics.events_received,
    {
        self.bridge.metrics().events_received
    }

    /// Looks up the engine of a device.
    pub fn find_client(&self, device_id: &str) -> (r: Option<usize>)
        ensures
            match r {
                Some(idx) => idx < self.clients().len() && idx == client_index(
                    self.clients(),
                    device_id@,
                    0,
                ),
                None => client_index(self.clients(), device_id@, 0) == self.clients().len(),
            },
    {
        let target: String = device_id.to_owned();
        let mut i: usize = 0;
        while i < self.clients.len()
            invariant
                0 <= i <= self.clients@.len(),
                target@ == device_id@,
                client_index(self.clients@, device_id@, 0) == client_index(
                    self.clients@,
                    device_id@,
                    i as int,
                ),
            decreases self.clients@.len() - i,
        {
            let id: String = self.clients[i].device_id().to_owned();
            if id == target {
                return Some(i);
            }
            i = i + 1;
        }
        None
    }

    /// Starts the gateway, after the driver connected the devices:
    /// `devices_online` of them are connected.  A running gateway answers
    /// `GatewayAlreadyRunning` and changes nothing.
    pub fn start(&mut self, devices_online: u16, now_ns: u64) -> (r: Result<(), IndustrialError>)
        requires
            old(self).wf(),
        ensures
            final(self).wf(),
            final(self).config() == old(self).config(),
            final(self).clients() == old(self).clients(),
            final(self).emitter() == old(self).emitter(),
            final(self).bridge() == old(self).bridge(),
            old(self).running() ==> r == Err::<(), IndustrialError>(
                IndustrialError::GatewayAlreadyRunning,
            ) && final(self).scheduler() == old(self).scheduler() && final(self).running()
                && final(self).gateway_metrics() == old(self).gateway_metrics()
                && final(self).started_ns() == old(self).started_ns(),
            !old(self).running() ==> r is Ok && final(self).running() && final(self).started_ns()
                == Some(now_ns) && final(self).scheduler() == (SchedulerState {
                running: true,
                ..old(self).scheduler()
            }) && final(self).gateway_metrics() == (GatewayMetrics {
                devices_online: if old(self).gateway_metrics().devices_online + devices_online
                    > u16::MAX {
                    u16::MAX
                } else {
                    (old(self).gateway_metrics().devices_online + devices_online) as u16
                },
                devices_configured: if old(self).clients().len() > u16::MAX {
                    u16::MAX
                } else {
                    old(self).clients().len() as u16
                },
                ..old(self).gateway_metrics()
            }),
    {
        if self.running {
            return Err(IndustrialError::GatewayAlreadyRunning);
        }
        self.metrics.devices_online = if self.metrics.devices_online > u16::MAX - devices_online {
            u16::MAX
        } else {
            self.metrics.devices_online + devices_online
        };
        self.metrics.devices_configured = if self.clients.len() > u16::MAX as usize {
            u16::MAX
        } else {
            self.clients.len() as u16
        };
        self.scheduler.start();
        self.running = true;
        self.started_ns = Some(now_ns);
        Ok(())
    }

    /// Stops the gateway: the scheduler stops and the bridge is flushed.
    /// Returns the flushed batch.  A gateway that is not running answers
    /// `GatewayNotRunning` and changes nothing.
    pub fn stop(&mut self) -> (r: Result<Vec<LexEvent>, IndustrialError>)
        requires
            old(self).wf(),
        ensures
            final(self).wf(),
            final(self).config() == old(self).config(),
            final(self).clients() == old(self).clients(),
            final(self).emitter() == old(self).emitter(),
            final(self).gateway_metrics() == old(self).gateway_metrics(),
            !old(self).running() ==> r == Err::<Vec<LexEvent>, IndustrialError>(
                IndustrialError::GatewayNotRunning,
            ) && final(self).scheduler() == old(self).scheduler() && final(self).bridge() == old(self).bridge() && !final(self).running(),
            old(self).running() ==> (r matches Ok(batch) && lex_views(batch@) == old(self).bridge().buffer) && !final(self).running() && final(self).scheduler() == (
            SchedulerState { running: false, ..old(self).scheduler() }) && final(self).bridge()
                == spec_flush(old(self).bridge()),
    {
        if !self.running {
            return Err(IndustrialError::GatewayNotRunning);
        }
        self.scheduler.stop();
        let batch: Vec<LexEvent> = self.bridge.flush();
        self.running = false;
        proof {
            assert forall|i: int| 0 <= i < self.clients().len() implies (
            #[trigger] self.clients()[i]).wf() by {
                assert(old(self).clients()[i].wf());
            }
        }
        Ok(batch)
    }

    /// Gets the status of a device whose transport the driver reports as
    /// connected or not: `None` for a device without an engine.
    pub fn device_status(&self, device_id: &str, connected: bool) -> (r: Option<DeviceState>)
        ensures
            r == (if client_index(self.clients(), device_id@, 0) < self.clients().len() {
                Some(
                    if connected {
                        DeviceState::Online
                    } else {
                        DeviceState::Offline
                    },
                )
            } else {
                None::<DeviceState>
            }),
    {
        match self.find_client(device_id) {
            Some(_) => Some(
                if connected {
                    DeviceState::Online
                } else {
                    DeviceState::Offline
                },
            ),
            None => None,
        }
    }

    /// Starts a manual read of holding registers on a device, outside of
    /// scheduled polling, under the request id 0.  A device without an
    /// engine gives `DeviceNotFound`.
    pub fn read_register(&mut self, device_id: &str, address: u16, count: u16, now_ns: u64) -> (r:
        Result<ReadTicket, IndustrialError>)
        requires
            old(self).wf(),
        ensures
            final(self).wf(),
            final(self).config() == old(self).config(),
            final(self).scheduler() == old(self).scheduler(),
            final(self).emitter() == old(self).emitter(),
            final(self).bridge() == old(self).bridge(),
            final(self).running() == old(self).running(),
            final(self).gateway_metrics() == old(self).gateway_metrics(),
            final(self).clients().len() == old(self).clients().len(),
            client_index(old(self).clients(), device_id@, 0) == old(self).clients().len() ==> (
            r matches Err(IndustrialError::DeviceNotFound { device_id: d }) && d@ == device_id@)
                && final(self).clients() == old(self).clients(),
            client_index(old(self).clients(), device_id@, 0) < old(self).clients().len() ==> ({
                let idx = client_index(old(self).clients(), device_id@, 0);
                &&& old(self).clients()[idx].read_started(
                    final(self).clients()[idx],
                    ModbusReadRequest {
                        request_id: 0,
                        register_type: RegisterType::Holding,
                        address,
                        quantity: count,
                    },
                    now_ns,
                    r,
                )
                &&& forall|k: int|
                    0 <= k < old(self).clients().len() && k != idx ==> #[trigger] final(self).clients()[k] == old(self).clients()[k]
            }),
    {
        let idx: usize = match self.find_client(device_id) {
            Some(idx) => idx,
            None => {
                return Err(IndustrialError::DeviceNotFound { device_id: device_id.to_owned() });
            },
        };
        self.clients[idx].read_holding_registers(0, address, count, now_ns)
    }

    /// Builds the frame of a manual write of one holding register on a
    /// device.  A device without an engine gives `DeviceNotFound`.
    pub fn write_register(&mut self, device_id: &str, address: u16, value: u16) -> (r: Result<
        Vec<u8>,
        IndustrialError,
    >)
        requires
            old(self).wf(),
        ensures
            final(self).wf(),
            final(self).config() == old(self).config(),
            final(self).scheduler() == old(self).scheduler(),
            final(self).emitter() == old(self).emitter(),
            final(self).bridge() == old(self).bridge(),
            final(self).running() == old(self).running(),
            final(self).gateway_metrics() == old(self).gateway_metrics(),
            final(self).clients().len() == old(self).clients().len(),
            client_index(old(self).clients(), device_id@, 0) == old(self).clients().len() ==> (
            r matches Err(IndustrialError::DeviceNotFound { device_id: d }) && d@ == device_id@)
                && final(self).clients() == old(self).clients(),
            client_index(old(self).clients(), device_id@, 0) < old(self).clients().len() ==> ({
                let idx = client_index(old(self).clients(), device_id@, 0);
                &&& old(self).clients()[idx].single_write_built(
                    final(self).clients()[idx],
                    RegisterType::Holding,
                    address,
                    seq![value],
                    r,
                )
                &&& forall|k: int|
                    0 <= k < old(self).clients().len() && k != idx ==> #[trigger] final(self).clients()[k] == old(self).clients()[k]
            }),
    {
        let idx: usize = match self.find_client(device_id) {
            Some(idx) => idx,
            None => {
                return Err(IndustrialError::DeviceNotFound { device_id: device_id.to_owned() });
            },
        };
        let mut values: Vec<u16> = Vec::new();
        values.push(value);
        assert(values@ =~= seq![value]);
        let request = ModbusWriteRequest {
            request_id: 0,
            register_type: RegisterType::Holding,
            address,
            values,
        };
        self.clients[idx].write_single(&request)
    }

    /// The health event of the gateway at `now_ns`, after
    /// `uptime_seconds` of running.
    pub open spec fn health_matches(&self, event: GatewayHealthEvent, uptime_seconds: u64, now_ns: u64) -> bool {
        &&& event.gateway_id@ == hex_lower(self.config().gateway_id@.subrange(0, 16))
        &&& event.version@ == VERSION@
        &&& event.uptime_seconds == uptime_seconds
        &&& event.devices_configured == self.gateway_metrics().devices_configured
        &&& event.devices_online == self.gateway_metrics().devices_online
        &&& event.registers_configured as int == (if self.config().registers@.len() <= u32::MAX {
            self.config().registers@.len() as int
        } else {
            u32::MAX as int
        })
        &&& event.alarms_active == self.gateway_metrics().alarms_active
        &&& event.requests_total == self.gateway_metrics().requests_total
        &&& event.requests_failed == self.gateway_metrics().responses_failed
        &&& event.avg_latency_us == self.gateway_metrics().avg_latency_us
        &&& event.timestamp_ns == now_ns
    }

    /// Builds the health event of the gateway.
    pub fn health_event(&self, uptime_seconds: u64, now_ns: u64) -> (event: GatewayHealthEvent)
        requires
            self.wf(),
        ensures
            self.health_matches(event, uptime_seconds, now_ns),
    {
        GatewayHealthEvent {
            gateway_id: self.bridge.gateway_id_hex(),
            version: VERSION.to_owned(),
            uptime_seconds,
            devices_configured: self.metrics.devices_configured,
            devices_online: self.metrics.devices_online,
            registers_configured: count_u32(self.config.registers.len()),
            alarms_active: self.metrics.alarms_active,
            requests_total: self.metrics.requests_total,
            requests_failed: self.metrics.responses_failed,
            avg_latency_us: self.metrics.avg_latency_us,
            timestamp_ns: now_ns,
        }
    }

    /// Emits a health event through the bridge and returns the batch that
    /// the bridge hands out.
    pub fn emit_health(&mut self, uptime_seconds: u64, draw_ppm: u32, now_ns: u64) -> (batch: Vec<
        LexEvent,
    >)
        requires
            old(self).wf(),
            old(self).bridge().metrics.events_received < u64::MAX,
        ensures
            final(self).wf(),
            final(self).config() == old(self).config(),
            final(self).clients() == old(self).clients(),
            final(self).scheduler() == old(self).scheduler(),
            final(self).emitter() == old(self).emitter(),
            final(self).running() == old(self).running(),
            final(self).gateway_metrics() == old(self).gateway_metrics(),
            exists|event: GatewayHealthEvent|
                old(self).health_matches(event, uptime_seconds, now_ns) && final(self).bridge()
                    == #[trigger] spec_process(
                    old(self).bridge(),
                    TelemetryEvent::GatewayHealth(event),
                    draw_ppm,
                    now_ns,
                ) && lex_views(batch@) == spec_process_batch(
                    old(self).bridge(),
                    TelemetryEvent::GatewayHealth(event),
                    draw_ppm,
                    now_ns,
                ),
    {
        let event: GatewayHealthEvent = self.health_event(uptime_seconds, now_ns);
        let ghost witness = event;
        let batch: Vec<LexEvent> = self.bridge.process_at(
            TelemetryEvent::GatewayHealth(event),
            draw_ppm,
            now_ns,
        );
        assert(old(self).health_matches(witness, uptime_seconds, now_ns));
        proof {
            assert forall|i: int| 0 <= i < self.clients().len() implies (
            #[trigger] self.clients()[i]).wf() by {
                assert(old(self).clients()[i].wf());
            }
        }
        batch
    }

    /// One step of the gateway's scheduler at the time `now_ns`.
    pub fn poll(&mut self, now_ns: u64) -> (action: SchedulerAction)
        requires
            old(self).wf(),
        ensures
            final(self).wf(),
            final(self).config() == old(self).config(),
            final(self).clients() == old(self).clients(),
            final(self).emitter() == old(self).emitter(),
            final(self).bridge() == old(self).bridge(),
            final(self).running() == old(self).running(),
            final(self).gateway_metrics() == old(self).gateway_metrics(),
            final(self).scheduler() == spec_poll_state(old(self).scheduler(), now_ns),
            action_matches(action, old(self).scheduler(), now_ns),
    {
        let action: SchedulerAction = self.scheduler.poll(now_ns);
        proof {
            assert forall|i: int| 0 <= i < self.clients().len() implies (
            #[trigger] self.clients()[i]).wf() by {
                assert(old(self).clients()[i].wf());
            }
        }
        action
    }

    /// Reports the completion of a poll to the gateway's scheduler.
    pub fn poll_complete(&mut self, complete: PollComplete)
        requires
            old(self).wf(),
        ensures
            final(self).wf(),
            final(self).config() == old(self).config(),
            final(self).clients() == old(self).clients(),
            final(self).emitter() == old(self).emitter(),
            final(self).bridge() == old(self).bridge(),
            final(self).running() == old(self).running(),
            final(self).gateway_metrics() == old(self).gateway_metrics(),
            final(self).scheduler() == spec_poll_complete(old(self).scheduler(), complete),
    {
        self.scheduler.poll_complete(complete);
        proof {
            assert forall|i: int| 0 <= i < self.clients().len() implies (
            #[trigger] self.clients()[i]).wf() by {
                assert(old(self).clients()[i].wf());
            }
        }
    }

    /// Starts a read on a device's engine.  A device without an engine
    /// gives `DeviceNotFound`.
    pub fn begin_read(&mut self, device_id: &str, request: ModbusReadRequest, now_ns: u64) -> (r:
        Result<ReadTicket, IndustrialError>)
        requires
            old(self).wf(),
        ensures
            final(self).wf(),
            final(self).config() == old(self).config(),
            final(self).scheduler() == old(self).scheduler(),
            final(self).emitter() == old(self).emitter(),
            final(self).bridge() == old(self).bridge(),
            final(self).running() == old(self).running(),
            final(self).gateway_metrics() == old(self).gateway_metrics(),
            final(self).clients().len() == old(self).clients().len(),
            client_index(old(self).clients(), device_id@, 0) == old(self).clients().len() ==> (
            r matches Err(IndustrialError::DeviceNotFound { device_id: d }) && d@ == device_id@)
                && final(self).clients() == old(self).clients(),
            client_index(old(self).clients(), device_id@, 0) < old(self).clients().len() ==> ({
                let idx = client_index(old(self).clients(), device_id@, 0);
                &&& old(self).clients()[idx].read_started(
                    final(self).clients()[idx],
                    request,
                    now_ns,
                    r,
                )
                &&& forall|k: int|
                    0 <= k < old(self).clients().len() && k != idx ==> #[trigger] final(self).clients()[k] == old(self).clients()[k]
            }),
    {
        let idx: usize = match self.find_client(device_id) {
            Some(idx) => idx,
            None => {
                return Err(IndustrialError::DeviceNotFound { device_id: device_id.to_owned() });
            },
        };
        self.clients[idx].read(request, now_ns)
    }

    /// Ends a read on a device's engine with what the transport returned.
    /// For a device without an engine the result is `DeviceNotFound`,
    /// without an event.
    pub fn complete_read(
        &mut self,
        device_id: &str,
        transaction_id: u16,
        outcome: Result<Vec<u8>, IndustrialError>,
        recv_ns: u64,
    ) -> (done: ReadCompletion)
        requires
            old(self).wf(),
        ensures
            final(self).wf(),
            final(self).config() == old(self).config(),
            final(self).scheduler() == old(self).scheduler(),
            final(self).emitter() == old(self).emitter(),
            final(self).bridge() == old(self).bridge(),
            final(self).running() == old(self).running(),
            final(self).gateway_metrics() == old(self).gateway_metrics(),
            final(self).clients().len() == old(self).clients().len(),
            client_index(old(self).clients(), device_id@, 0) == old(self).clients().len() ==> (
            done.result matches Err(IndustrialError::DeviceNotFound { device_id: d }) && d@
                == device_id@) && done.event is None && final(self).clients() == old(self).clients(),
            client_index(old(self).clients(), device_id@, 0) < old(self).clients().len() ==> ({
                let idx = client_index(old(self).clients(), device_id@, 0);
                &&& old(self).clients()[idx].read_completed(
                    final(self).clients()[idx],
                    transaction_id,
                    outcome,
                    recv_ns,
                    done,
                )
                &&& forall|k: int|
                    0 <= k < old(self).clients().len() && k != idx ==> #[trigger] final(self).clients()[k] == old(self).clients()[k]
            }),
    {
        let idx: usize = match self.find_client(device_id) {
            Some(idx) => idx,
            None => {
                return ReadCompletion {
                    result: Err(IndustrialError::DeviceNotFound { device_id: device_id.to_owned() }),
                    event: None,
                };
            },
        };
        self.clients[idx].complete_read(transaction_id, outcome, recv_ns)
    }

    /// Processes the raw words of one read through the gateway's emitter,
    /// at the server time `server_timestamp_ns`.
    pub fn process_raw_at(
        &mut self,
        device_id: &str,
        start_address: u16,
        values: &[u16],
        quality: Quality,
        source_timestamp_ns: Option<u64>,
        server_timestamp_ns: u64,
    ) -> (out: EmitterOutput)
        requires
            old(self).wf(),
        ensures
            final(self).wf(),
            final(self).config() == old(self).config(),
            final(self).clients() == old(self).clients(),
            final(self).scheduler() == old(self).scheduler(),
            final(self).bridge() == old(self).bridge(),
            final(self).running() == old(self).running(),
            final(self).gateway_metrics() == old(self).gateway_metrics(),
            ({
                let batch = raw_batch(
                    device_id@,
                    start_address,
                    values@,
                    quality,
                    source_timestamp_ns,
                    server_timestamp_ns,
                );
                &&& final(self).emitter() == process_from(old(self).emitter(), batch, 0).state
                &&& stream_views(out.events@) == process_from(old(self).emitter(), batch, 0).events
                &&& alarm_views(out.alarms@) == process_from(old(self).emitter(), batch, 0).alarms
            }),
    {
        let out: EmitterOutput = self.emitter.process_raw_at(
            device_id,
            start_address,
            values,
            quality,
            source_timestamp_ns,
            server_timestamp_ns,
        );
        proof {
            assert forall|i: int| 0 <= i < self.clients().len() implies (
            #[trigger] self.clients()[i]).wf() by {
                assert(old(self).clients()[i].wf());
            }
        }
        out
    }

    /// Hands an event to the gateway's bridge at the time `now_ns`, with
    /// `draw_ppm` as the random draw for sampling.  Returns the batch that
    /// the bridge hands out.
    pub fn publish(&mut self, event: TelemetryEvent, draw_ppm: u32, now_ns: u64) -> (batch: Vec<
        LexEvent,
    >)
        requires
            old(self).wf(),
            old(self).bridge().metrics.events_received < u64::MAX,
        ensures
            final(self).wf(),
            final(self).config() == old(self).config(),
            final(self).clients() == old(self).clients(),
            final(self).scheduler() == old(self).scheduler(),
            final(self).emitter() == old(self).emitter(),
            final(self).running() == old(self).running(),
            final(self).gateway_metrics() == old(self).gateway_metrics(),
            final(self).bridge() == spec_process(old(self).bridge(), event, draw_ppm, now_ns),
            lex_views(batch@) == spec_process_batch(old(self).bridge(), event, draw_ppm, now_ns),
    {
        let batch: Vec<LexEvent> = self.bridge.process_at(event, draw_ppm, now_ns);
        proof {
            assert forall|i: int| 0 <= i < self.clients().len() implies (
            #[trigger] self.clients()[i]).wf() by {
                assert(old(self).clients()[i].wf());
            }
        }
        batch
    }

    /// Flushes the gateway's bridge and returns the batch.
    pub fn flush(&mut self) -> (batch: Vec<LexEvent>)
        requires
            old(self).wf(),
        ensures
            final(self).wf(),
            final(self).config() == old(self).config(),
            final(self).clients() == old(self).clients(),
            final(self).scheduler() == old(self).scheduler(),
            final(self).emitter() == old(self).emitter(),
            final(self).running() == old(self).running(),
            final(self).gateway_metrics() == old(self).gateway_metrics(),
            final(self).bridge() == spec_flush(old(self).bridge()),
            lex_views(batch@) == old(self).bridge().buffer,
    {
        let batch: Vec<LexEvent> = self.bridge.flush();
        proof {
            assert forall|i: int| 0 <= i < self.clients().len() implies (
            #[trigger] self.clients()[i]).wf() by {
                assert(old(self).clients()[i].wf());
            }
        }
        batch
    }

    /// Counts the bytes that the driver wrote to the output channel.
    pub fn record_bytes_sent(&mut self, bytes: u64)
        requires
            old(self).wf(),
        ensures
            final(self).wf(),
            final(self).config() == old(self).config(),
            final(self).clients() == old(self).clients(),
            final(self).scheduler() == old(self).scheduler(),
            final(self).emitter() == old(self).emitter(),
            final(self).running() == old(self).running(),
            final(self).gateway_metrics() == old(self).gateway_metrics(),
            final(self).bridge() == (BridgeState {
                metrics: BridgeMetrics {
                    bytes_sent: if old(self).bridge().metrics.bytes_sent + bytes > u64::MAX {
                        u64::MAX
                    } else {
                        (old(self).bridge().metrics.bytes_sent + bytes) as u64
                    },
                    ..old(self).bridge().metrics
                },
                ..old(self).bridge()
            }),
    {
        self.bridge.record_bytes_sent(bytes);
        proof {
            assert forall|i: int| 0 <= i < self.clients().len() implies (
            #[trigger] self.clients()[i]).wf() by {
                assert(old(self).clients()[i].wf());
            }
        }
    }

    /// Returns the transport configuration of each engine, in order.
    pub fn transport_configs(&self) -> (configs: Vec<TcpConfig>)
        ensures
            configs@.len() == self.clients().len(),
            forall|i: int|
                0 <= i < configs@.len() ==> #[trigger] configs@[i]
                    == spec_tcp_config(self.clients()[i].config()),
    {
        let mut configs: Vec<TcpConfig> = Vec::new();
        let mut i: usize = 0;
        while i < self.clients.len()
            invariant
                0 <= i <= self.clients@.len(),
                configs@.len() == i,
                forall|k: int|
                    0 <= k < i ==> #[trigger] configs@[k]
                        == spec_tcp_config(
                        self.clients@[k].config(),
                    ),
            decreases self.clients@.len() - i,
        {
            configs.push(self.clients[i].tcp_config());
            i = i + 1;
        }
        configs
    }
}

} // verus!
