//! Telemetry bridge: turns the events of every subsystem into
//! topic/payload records, filters them by severity, samples debug events
//! and hands the records out in batches.
//!
//! A payload is an ordered list of key/value fields.  The bridge sends
//! nothing itself: `process` and `flush` return the batch to forward.

use vstd::prelude::*;
use vstd::string::*;
use crate::industrial::emitter::{AlarmEventOutput, StreamEvent};
use crate::industrial::protocol::ModbusEvent;
use crate::industrial::text::{hex_encode, hex_lower};
use crate::industrial::transport::TcpEvent;
use crate::industrial::types::{AlarmSeverity, AlarmState, timestamp_ns};
use crate::industrial::value::Reading;

verus! {

/// Bridge configuration.
#[derive(Debug)]
pub struct BridgeConfig {
    /// Gateway id
    pub gateway_id: [u8; 32],
    /// Topic namespace
    pub namespace: String,
    /// Buffer size
    pub buffer_size: u16,
    /// Batch size
    pub batch_size: u16,
    /// Flush interval in milliseconds
    pub flush_interval_ms: u32,
    /// Minimum severity to emit (0=debug, 1=info, 2=warning, 3=error)
    pub severity_filter: u8,
    /// Sampling rate for debug events in parts per million
    pub sampling_rate_ppm: u32,
}

impl Default for BridgeConfig {
    fn default() -> (c: Self)
        ensures
            c.gateway_id@ == Seq::new(32, |i: int| 0u8),
            c.namespace@ == "lex://estream/sys/industrial"@,
            c.buffer_size == 256,
            c.batch_size == 32,
            c.flush_interval_ms == 100,
            c.severity_filter == 0,
            c.sampling_rate_ppm == 1_000_000,
    {
        let id: [u8; 32] = [0u8; 32];
        assert(id@ =~= Seq::new(32, |i: int| 0u8));
        BridgeConfig {
            gateway_id: id,
            namespace: "lex://estream/sys/industrial".to_owned(),
            buffer_size: 256,
            batch_size: 32,
            flush_interval_ms: 100,
            severity_filter: 0,
            sampling_rate_ppm: 1_000_000,
        }
    }
}

/// Severity levels for telemetry.
#[derive(Debug, Clone, Copy, PartialEq, Eq, Structural, PartialOrd, Ord)]
pub enum Severity {
    Debug,
    Info,
    Warning,
    Error,
}

impl Severity {
    /// The level of a severity: 0 for debug up to 3 for error.
    pub open spec fn spec_level(self) -> u8 {
        match self {
            Severity::Debug => 0,
            Severity::Info => 1,
            Severity::Warning => 2,
            Severity::Error => 3,
        }
    }

    /// Returns the level of a severity.
    pub fn level(&self) -> (l: u8)
        ensures
            l == self.spec_level(),
    {
        match self {
            Severity::Debug => 0,
            Severity::Info => 1,
            Severity::Warning => 2,
            Severity::Error => 3,
        }
    }
}

/// The telemetry severity of an alarm severity.
pub open spec fn spec_alarm_severity(severity: AlarmSeverity) -> Severity {
    match severity {
        AlarmSeverity::Info => Severity::Info,
        AlarmSeverity::Warning => Severity::Warning,
        AlarmSeverity::Critical => Severity::Error,
    }
}

/// A value of a payload field.
#[derive(Debug, Clone)]
pub enum PayloadValue {
    /// A truth value
    Bool(bool),
    /// An unsigned number
    U64(u64),
    /// A fixed-point number in millionths, or no number
    Number(Reading),
    /// A text
    Text(String),
}

/// A value of a payload field, with its text as a character sequence.
pub enum PayloadValueView {
    Bool(bool),
    U64(u64),
    Number(Reading),
    Text(Seq<char>),
}

impl View for PayloadValue {
    type V = PayloadValueView;

    open spec fn view(&self) -> PayloadValueView {
        match self {
            PayloadValue::Bool(b) => PayloadValueView::Bool(*b),
            PayloadValue::U64(v) => PayloadValueView::U64(*v),
            PayloadValue::Number(r) => PayloadValueView::Number(*r),
            PayloadValue::Text(s) => PayloadValueView::Text(s@),
        }
    }
}

/// One key/value field of a payload.
#[derive(Debug, Clone)]
pub struct PayloadField {
    /// Key
    pub key: String,
    /// Value
    pub value: PayloadValue,
}

/// A payload field with its texts as character sequences.
pub struct PayloadFieldView {
    pub key: Seq<char>,
    pub value: PayloadValueView,
}

impl View for PayloadField {
    type V = PayloadFieldView;

    open spec fn view(&self) -> PayloadFieldView {
        PayloadFieldView { key: self.key@, value: self.value@ }
    }
}

/// The views of the fields of a payload.
pub open spec fn payload_views(fields: Seq<PayloadField>) -> Seq<PayloadFieldView> {
    Seq::new(fields.len(), |i: int| fields[i]@)
}

/// A text field.
pub open spec fn text_view(key: Seq<char>, value: Seq<char>) -> PayloadFieldView {
    PayloadFieldView { key, value: PayloadValueView::Text(value) }
}

/// A number field.
pub open spec fn u64_view(key: Seq<char>, value: int) -> PayloadFieldView {
    PayloadFieldView { key, value: PayloadValueView::U64(value as u64) }
}

/// A truth-value field.
pub open spec fn bool_view(key: Seq<char>, value: bool) -> PayloadFieldView {
    PayloadFieldView { key, value: PayloadValueView::Bool(value) }
}

/// A fixed-point field.
pub open spec fn number_view(key: Seq<char>, value: Reading) -> PayloadFieldView {
    PayloadFieldView { key, value: PayloadValueView::Number(value) }
}

/// Builds a text field.
pub fn text_field(key: &str, value: &str) -> (f: PayloadField)
    ensures
        f@ == text_view(key@, value@),
{
    PayloadField { key: key.to_owned(), value: PayloadValue::Text(value.to_owned()) }
}

/// Builds a number field.
pub fn u64_field(key: &str, value: u64) -> (f: PayloadField)
    ensures
        f@ == u64_view(key@, value as int),
{
    PayloadField { key: key.to_owned(), value: PayloadValue::U64(value) }
}

/// Builds a truth-value field.
pub fn bool_field(key: &str, value: bool) -> (f: PayloadField)
    ensures
        f@ == bool_view(key@, value),
{
    PayloadField { key: key.to_owned(), value: PayloadValue::Bool(value) }
}

/// Builds a fixed-point field.
pub fn number_field(key: &str, value: Reading) -> (f: PayloadField)
    ensures
        f@ == number_view(key@, value),
{
    PayloadField { key: key.to_owned(), value: PayloadValue::Number(value) }
}

/// A record ready for the output channel.
#[derive(Debug, Clone)]
pub struct LexEvent {
    /// Topic
    pub topic: String,
    /// Payload
    pub payload: Vec<PayloadField>,
    /// Severity level
    pub severity: u8,
    /// Timestamp
    pub timestamp_ns: u64,
    /// Sequence number
    pub sequence_number: u64,
}

/// A record with its texts as character sequences.
pub struct LexEventView {
    pub topic: Seq<char>,
    pub payload: Seq<PayloadFieldView>,
    pub severity: u8,
    pub timestamp_ns: u64,
    pub sequence_number: u64,
}

impl View for LexEvent {
    type V = LexEventView;

    open spec fn view(&self) -> LexEventView {
        LexEventView {
            topic: self.topic@,
            payload: payload_views(self.payload@),
            severity: self.severity,
            timestamp_ns: self.timestamp_ns,
            sequence_number: self.sequence_number,
        }
    }
}

/// The views of a sequence of records.
pub open spec fn lex_views(events: Seq<LexEvent>) -> Seq<LexEventView> {
    Seq::new(events.len(), |i: int| events[i]@)
}

/// Bridge metrics.
#[derive(Debug, Clone, Copy, PartialEq, Eq, Structural)]
pub struct BridgeMetrics {
    /// Events received
    pub events_received: u64,
    /// Events emitted
    pub events_emitted: u64,
    /// Events filtered (severity)
    pub events_filtered: u64,
    /// Events sampled out
    pub events_sampled_out: u64,
    /// Batches sent
    pub batches_sent: u64,
    /// Bytes sent
    pub bytes_sent: u64,
}

impl Default for BridgeMetrics {
    fn default() -> (m: Self)
        ensures
            m == (BridgeMetrics {
                events_received: 0,
                events_emitted: 0,
                events_filtered: 0,
                events_sampled_out: 0,
                batches_sent: 0,
                bytes_sent: 0,
            }),
    {
        BridgeMetrics {
            events_received: 0,
            events_emitted: 0,
            events_filtered: 0,
            events_sampled_out: 0,
            batches_sent: 0,
            bytes_sent: 0,
        }
    }
}

/// Gateway health event.
#[derive(Debug, Clone)]
pub struct GatewayHealthEvent {
    pub gateway_id: String,
    pub version: String,
    pub uptime_seconds: u64,
    pub devices_configured: u16,
    pub devices_online: u16,
    pub registers_configured: u32,
    pub alarms_active: u16,
    pub requests_total: u64,
    pub requests_failed: u64,
    pub avg_latency_us: u32,
    pub timestamp_ns: u64,
}

/// An event of any subsystem.
#[derive(Debug)]
pub enum TelemetryEvent {
    /// Transport event
    TcpEvent(TcpEvent),
    /// Protocol event
    ModbusEvent(ModbusEvent),
    /// Value event
    StreamEvent(StreamEvent),
    /// Alarm event
    AlarmEvent(AlarmEventOutput),
    /// Gateway health
    GatewayHealth(GatewayHealthEvent),
}

/// A topic of the bridge: the namespace, the lowercase hex of the first
/// 16 bytes of the gateway id, and a suffix.
pub open spec fn bridge_topic(namespace: Seq<char>, gateway_id: Seq<u8>, suffix: Seq<char>) -> Seq<
    char,
> {
    namespace + "/"@ + hex_lower(gateway_id.subrange(0, 16)) + suffix
}

/// Payload of a transport event.
pub open spec fn spec_tcp_payload(event: TcpEvent) -> Seq<PayloadFieldView> {
    match event {
        TcpEvent::StateChange { old_state, new_state, timestamp_ns } => seq![
            text_view("type"@, "state_change"@),
            text_view("old_state"@, old_state.spec_name()),
            text_view("new_state"@, new_state.spec_name()),
            u64_view("timestamp_ns"@, timestamp_ns as int),
        ],
        TcpEvent::RequestSent { request_id, bytes, timestamp_ns } => seq![
            text_view("type"@, "request_sent"@),
            u64_view("request_id"@, request_id as int),
            u64_view("bytes"@, bytes as int),
            u64_view("timestamp_ns"@, timestamp_ns as int),
        ],
        TcpEvent::ResponseReceived { request_id, bytes, latency_us, timestamp_ns } => seq![
            text_view("type"@, "response_received"@),
            u64_view("request_id"@, request_id as int),
            u64_view("bytes"@, bytes as int),
            u64_view("latency_us"@, latency_us as int),
            u64_view("timestamp_ns"@, timestamp_ns as int),
        ],
        TcpEvent::Error { error_code, message, timestamp_ns } => seq![
            text_view("type"@, "error"@),
            u64_view("error_code"@, error_code as int),
            text_view("message"@, message@),
            u64_view("timestamp_ns"@, timestamp_ns as int),
        ],
    }
}

/// Severity of a transport event: state changes are informational,
/// requests and responses debug, errors warnings.
pub open spec fn spec_tcp_severity(event: TcpEvent) -> Severity {
    match event {
        TcpEvent::StateChange { .. } => Severity::Info,
        TcpEvent::RequestSent { .. } => Severity::Debug,
        TcpEvent::ResponseReceived { .. } => Severity::Debug,
        TcpEvent::Error { .. } => Severity::Warning,
    }
}

/// Payload of a protocol event.
pub open spec fn spec_modbus_payload(event: ModbusEvent) -> Seq<PayloadFieldView> {
    match event {
        ModbusEvent::Request {
            device_id,
            transaction_id,
            function_code,
            address,
            quantity,
            timestamp_ns,
        } => seq![
            text_view("type"@, "request"@),
            text_view("device_id"@, device_id@),
            u64_view("transaction_id"@, transaction_id as int),
            u64_view("function_code"@, function_code as int),
            u64_view("address"@, address as int),
            u64_view("quantity"@, quantity as int),
            u64_view("timestamp_ns"@, timestamp_ns as int),
        ],
        ModbusEvent::Response { device_id, transaction_id, success, latency_us, timestamp_ns } => seq![
            text_view("type"@, "response"@),
            text_view("device_id"@, device_id@),
            u64_view("transaction_id"@, transaction_id as int),
            bool_view("success"@, success),
            u64_view("latency_us"@, latency_us as int),
            u64_view("timestamp_ns"@, timestamp_ns as int),
        ],
        ModbusEvent::Exception {
            device_id,
            transaction_id,
            function_code,
            exception_code,
            timestamp_ns,
        } => seq![
            text_view("type"@, "exception"@),
            text_view("device_id"@, device_id@),
            u64_view("transaction_id"@, transaction_id as int),
            u64_view("function_code"@, function_code as int),
            u64_view("exception_code"@, exception_code as int),
            u64_view("timestamp_ns"@, timestamp_ns as int),
        ],
    }
}

/// Severity of a protocol event: exceptions are warnings, requests and
/// responses debug.
pub open spec fn spec_modbus_severity(event: ModbusEvent) -> Severity {
    match event {
        ModbusEvent::Exception { .. } => Severity::Warning,
        _ => Severity::Debug,
    }
}

/// Payload of a value event.
pub open spec fn spec_stream_payload(event: StreamEvent) -> Seq<PayloadFieldView> {
    seq![
        text_view("type"@, "value"@),
        u64_view("event_id"@, event.event_id as int),
        text_view("name"@, event.name@),
        number_view("value"@, event.value),
        text_view("unit"@, event.unit@),
        u64_view("quality"@, event.quality.spec_code() as int),
        u64_view("source_timestamp_ns"@, event.source_timestamp_ns as int),
        u64_view("server_timestamp_ns"@, event.server_timestamp_ns as int),
    ]
}

/// Payload of an alarm event.
pub open spec fn spec_alarm_payload(event: AlarmEventOutput) -> Seq<PayloadFieldView> {
    seq![
        text_view(
            "type"@,
            if event.state == AlarmState::Active {
                "alarm_active"@
            } else {
                "alarm_cleared"@
            },
        ),
        text_view("alarm_id"@, event.alarm_id@),
        text_view("name"@, event.name@),
        text_view("state"@, event.state.spec_name()),
        text_view("severity"@, event.severity.spec_name()),
        number_view("current_value"@, event.current_value),
        number_view("threshold_value"@, Reading::Number(event.threshold_value as i128)),
        text_view("message"@, event.message@),
        u64_view("timestamp_ns"@, event.timestamp_ns as int),
    ]
}

/// Payload of a health event.
pub open spec fn spec_health_payload(event: GatewayHealthEvent) -> Seq<PayloadFieldView> {
    seq![
        text_view("gateway_id"@, event.gateway_id@),
        text_view("version"@, event.version@),
        u64_view("uptime_seconds"@, event.uptime_seconds as int),
        u64_view("devices_configured"@, event.devices_configured as int),
        u64_view("devices_online"@, event.devices_online as int),
        u64_view("registers_configured"@, event.registers_configured as int),
        u64_view("alarms_active"@, event.alarms_active as int),
        u64_view("requests_total"@, event.requests_total as int),
        u64_view("requests_failed"@, event.requests_failed as int),
        u64_view("avg_latency_us"@, event.avg_latency_us as int),
        u64_view("timestamp_ns"@, event.timestamp_ns as int),
    ]
}

/// The topic suffix of an event.
pub open spec fn spec_topic_suffix(event: TelemetryEvent) -> Seq<char> {
    match event {
        TelemetryEvent::TcpEvent(_) => "/connection"@,
        TelemetryEvent::ModbusEvent(_) => "/protocol/modbus"@,
        TelemetryEvent::StreamEvent(e) => "/device/"@ + e.device_id@ + "/telemetry"@,
        TelemetryEvent::AlarmEvent(_) => "/alarm"@,
        TelemetryEvent::GatewayHealth(_) => "/health"@,
    }
}

/// The payload of an event.
pub open spec fn spec_payload(event: TelemetryEvent) -> Seq<PayloadFieldView> {
    match event {
        TelemetryEvent::TcpEvent(e) => spec_tcp_payload(e),
        TelemetryEvent::ModbusEvent(e) => spec_modbus_payload(e),
        TelemetryEvent::StreamEvent(e) => spec_stream_payload(e),
        TelemetryEvent::AlarmEvent(e) => spec_alarm_payload(e),
        TelemetryEvent::GatewayHealth(e) => spec_health_payload(e),
    }
}

/// The severity of an event.
pub open spec fn spec_severity(event: TelemetryEvent) -> Severity {
    match event {
        TelemetryEvent::TcpEvent(e) => spec_tcp_severity(e),
        TelemetryEvent::ModbusEvent(e) => spec_modbus_severity(e),
        TelemetryEvent::StreamEvent(_) => Severity::Debug,
        TelemetryEvent::AlarmEvent(e) => spec_alarm_severity(e.severity),
        TelemetryEvent::GatewayHealth(_) => Severity::Info,
    }
}

/// What becomes of an event.
pub enum Admission {
    /// Dropped: its severity is below the filter
    Filtered,
    /// Dropped: a debug event whose draw is above the sampling rate
    SampledOut,
    /// Taken into the buffer
    Buffered,
}

/// What becomes of an event of a severity under a filter and a sampling
/// rate, for a draw in parts per million.
pub open spec fn spec_admission(
    severity: Severity,
    severity_filter: u8,
    sampling_rate_ppm: u32,
    draw_ppm: u32,
) -> Admission {
    if severity.spec_level() < severity_filter {
        Admission::Filtered
    } else if severity == Severity::Debug && sampling_rate_ppm < 1_000_000 && draw_ppm
        > sampling_rate_ppm {
        Admission::SampledOut
    } else {
        Admission::Buffered
    }
}

/// The bridge as a mathematical value.
pub struct BridgeState {
    /// Configuration
    pub config: BridgeConfig,
    /// Metrics
    pub metrics: BridgeMetrics,
    /// Sequence number of the next record
    pub sequence: u64,
    /// The records that wait for their batch
    pub buffer: Seq<LexEventView>,
}

/// The record of an event.
pub open spec fn spec_lex_event(
    config: BridgeConfig,
    event: TelemetryEvent,
    sequence: u64,
    now_ns: u64,
) -> LexEventView {
    LexEventView {
        topic: bridge_topic(config.namespace@, config.gateway_id@, spec_topic_suffix(event)),
        payload: spec_payload(event),
        severity: spec_severity(event).spec_level(),
        timestamp_ns: now_ns,
        sequence_number: sequence,
    }
}

/// The sequence number after `v`, wrapping at 64 bits.
pub open spec fn next_sequence(v: u64) -> u64 {
    if v == u64::MAX {
        0
    } else {
        (v + 1) as u64
    }
}

/// The bridge after a flush: the buffer is empty; if it held records,
/// they count as emitted and as one batch.
pub open spec fn spec_flush(state: BridgeState) -> BridgeState {
    if state.buffer.len() == 0 {
        state
    } else {
        BridgeState {
            config: state.config,
            metrics: BridgeMetrics {
                events_emitted: (state.metrics.events_emitted + state.buffer.len()) as u64,
                batches_sent: (state.metrics.batches_sent + 1) as u64,
                ..state.metrics
            },
            sequence: state.sequence,
            buffer: Seq::<LexEventView>::empty(),
        }
    }
}

/// The bridge after an event was taken in, before any flush.
pub open spec fn spec_intake(state: BridgeState, event: TelemetryEvent, draw_ppm: u32, now_ns: u64) -> BridgeState {
    let received = BridgeMetrics {
        events_received: (state.metrics.events_received + 1) as u64,
        ..state.metrics
    };
    match spec_admission(
        spec_severity(event),
        state.config.severity_filter,
        state.config.sampling_rate_ppm,
        draw_ppm,
    ) {
        Admission::Filtered => BridgeState {
            metrics: BridgeMetrics {
                events_filtered: (received.events_filtered + 1) as u64,
                ..received
            },
            ..state
        },
        Admission::SampledOut => BridgeState {
            metrics: BridgeMetrics {
                events_sampled_out: (received.events_sampled_out + 1) as u64,
                ..received
            },
            ..state
        },
        Admission::Buffered => BridgeState {
            config: state.config,
            metrics: received,
            sequence: next_sequence(state.sequence),
            buffer: state.buffer.push(spec_lex_event(state.config, event, state.sequence, now_ns)),
        },
    }
}

/// Whether an intake fills the batch, so that the buffer is flushed.
pub open spec fn spec_fills_batch(state: BridgeState, event: TelemetryEvent, draw_ppm: u32) -> bool {
    spec_admission(
        spec_severity(event),
        state.config.severity_filter,
        state.config.sampling_rate_ppm,
        draw_ppm,
    ) is Buffered && state.buffer.len() + 1 >= state.config.batch_size
}

/// The bridge after `process`.
pub open spec fn spec_process(state: BridgeState, event: TelemetryEvent, draw_ppm: u32, now_ns: u64) -> BridgeState {
    if spec_fills_batch(state, event, draw_ppm) {
        spec_flush(spec_intake(state, event, draw_ppm, now_ns))
    } else {
        spec_intake(state, event, draw_ppm, now_ns)
    }
}

/// The batch that `process` hands out: the whole buffer where the intake
/// fills the batch, nothing otherwise.
pub open spec fn spec_process_batch(
    state: BridgeState,
    event: TelemetryEvent,
    draw_ppm: u32,
    now_ns: u64,
) -> Seq<LexEventView> {
    if spec_fills_batch(state, event, draw_ppm) {
        spec_intake(state, event, draw_ppm, now_ns).buffer
    } else {
        Seq::<LexEventView>::empty()
    }
}

/// Accounting of a bridge: every event received was emitted, filtered,
/// sampled out, or waits in the buffer; and no batch was empty.
pub open spec fn accounted(state: BridgeState) -> bool {
    &&& state.metrics.events_received == state.metrics.events_emitted
        + state.metrics.events_filtered + state.metrics.events_sampled_out + state.buffer.len()
    &&& state.metrics.batches_sent <= state.metrics.events_emitted
}

/// Accounting is kept by `process` and by `flush`.
pub proof fn lemma_accounting_is_kept(
    state: BridgeState,
    event: TelemetryEvent,
    draw_ppm: u32,
    now_ns: u64,
)
    requires
        accounted(state),
        state.metrics.events_received < u64::MAX,
    ensures
        accounted(spec_process(state, event, draw_ppm, now_ns)),
        accounted(spec_intake(state, event, draw_ppm, now_ns)),
        accounted(spec_flush(state)),
        spec_process(state, event, draw_ppm, now_ns).metrics.events_received
            == state.metrics.events_received + 1,
{
}

/// Telemetry bridge.
pub struct StreamSightBridge {
    config: BridgeConfig,
    metrics: BridgeMetrics,
    sequence: u64,
    buffer: Vec<LexEvent>,
}

impl View for StreamSightBridge {
    type V = BridgeState;

    closed spec fn view(&self) -> BridgeState {
        BridgeState {
            config: self.config,
            metrics: self.metrics,
            sequence: self.sequence,
            buffer: lex_views(self.buffer@),
        }
    }
}

impl StreamSightBridge {
    /// Validity of the bridge: its accounting holds.
    pub open spec fn wf(&self) -> bool {
        accounted(self@)
    }

    /// Creates a bridge with an empty buffer and all metrics at zero.  The
    /// first record gets the sequence number 1.
    pub fn new(config: BridgeConfig) -> (bridge: Self)
        ensures
            bridge.wf(),
            bridge@.config == config,
            bridge@.sequence == 1,
            bridge@.buffer.len() == 0,
            bridge@.metrics == (BridgeMetrics {
                events_received: 0,
                events_emitted: 0,
                events_filtered: 0,
                events_sampled_out: 0,
                batches_sent: 0,
                bytes_sent: 0,
            }),
    {
        StreamSightBridge {
            config,
            metrics: BridgeMetrics::default(),
            sequence: 1,
            buffer: Vec::new(),
        }
    }

    /// Gets the current metrics.
    pub fn metrics(&self) -> (m: BridgeMetrics)
        ensures
            m == self@.metrics,
    {
        self.metrics
    }

    /// Returns the number of records in the buffer.
    pub fn buffered(&self) -> (n: usize)
        ensures
            n == self@.buffer.len(),
    {
        self.buffer.len()
    }

    /// Adds to the count of bytes sent, saturating.  The driver reports
    /// here what it wrote to the output channel.
    pub fn record_bytes_sent(&mut self, bytes: u64)
        ensures
            final(self)@ == (BridgeState {
                metrics: BridgeMetrics {
                    bytes_sent: if old(self)@.metrics.bytes_sent + bytes > u64::MAX {
                        u64::MAX
                    } else {
                        (old(self)@.metrics.bytes_sent + bytes) as u64
                    },
                    ..old(self)@.metrics
                },
                ..old(self)@
            }),
            old(self).wf() ==> final(self).wf(),
    {
        self.metrics.bytes_sent = if self.metrics.bytes_sent > u64::MAX - bytes {
            u64::MAX
        } else {
            self.metrics.bytes_sent + bytes
        };
    }

    /// Returns the gateway id as hex text: the first 16 bytes.
    pub fn gateway_id_hex(&self) -> (s: String)
        ensures
            s@ == hex_lower(self@.config.gateway_id@.subrange(0, 16)),
    {
        let mut prefix: Vec<u8> = Vec::new();
        let mut k: usize = 0;
        while k < 16
            invariant
                0 <= k <= 16,
                prefix@ == self.config.gateway_id@.subrange(0, k as int),
            decreases 16 - k,
        {
            prefix.push(self.config.gateway_id[k]);
            assert(prefix@ =~= self.config.gateway_id@.subrange(0, k + 1));
            k = k + 1;
        }
        hex_encode(prefix.as_slice())
    }

    /// Builds a topic of the bridge.
    fn topic(&self, suffix: &str) -> (t: String)
        ensures
            t@ == bridge_topic(self@.config.namespace@, self@.config.gateway_id@, suffix@),
    {
        let hex: String = self.gateway_id_hex();
        let mut t: String = self.config.namespace.clone();
        t.append("/");
        t.append(hex.as_str());
        t.append(suffix);
        assert(t@ =~= bridge_topic(self@.config.namespace@, self@.config.gateway_id@, suffix@));
        t
    }

    /// Topic, payload and severity of a transport event.
    pub fn process_tcp_event(&self, event: &TcpEvent) -> (r: (String, Vec<PayloadField>, Severity))
        ensures
            r.0@ == bridge_topic(
                self@.config.namespace@,
                self@.config.gateway_id@,
                "/connection"@,
            ),
            payload_views(r.1@) == spec_tcp_payload(*event),
            r.2 == spec_tcp_severity(*event),
    {
        let topic: String = self.topic("/connection");
        let mut payload: Vec<PayloadField> = Vec::new();
        let severity: Severity;
        match event {
            TcpEvent::StateChange { old_state, new_state, timestamp_ns } => {
                payload.push(text_field("type", "state_change"));
                payload.push(text_field("old_state", old_state.name()));
                payload.push(text_field("new_state", new_state.name()));
                payload.push(u64_field("timestamp_ns", *timestamp_ns));
                severity = Severity::Info;
            },
            TcpEvent::RequestSent { request_id, bytes, timestamp_ns } => {
                payload.push(text_field("type", "request_sent"));
                payload.push(u64_field("request_id", *request_id as u64));
                payload.push(u64_field("bytes", *bytes as u64));
                payload.push(u64_field("timestamp_ns", *timestamp_ns));
                severity = Severity::Debug;
            },
            TcpEvent::ResponseReceived { request_id, bytes, latency_us, timestamp_ns } => {
                payload.push(text_field("type", "response_received"));
                payload.push(u64_field("request_id", *request_id as u64));
                payload.push(u64_field("bytes", *bytes as u64));
                payload.push(u64_field("latency_us", *latency_us as u64));
                payload.push(u64_field("timestamp_ns", *timestamp_ns));
                severity = Severity::Debug;
            },
            TcpEvent::Error { error_code, message, timestamp_ns } => {
                payload.push(text_field("type", "error"));
                payload.push(u64_field("error_code", *error_code as u64));
                payload.push(text_field("message", message.as_str()));
                payload.push(u64_field("timestamp_ns", *timestamp_ns));
                severity = Severity::Warning;
            },
        }
        assert(payload_views(payload@) =~= spec_tcp_payload(*event));
        (topic, payload, severity)
    }

    /// Topic, payload and severity of a protocol event.
    pub fn process_modbus_event(&self, event: &ModbusEvent) -> (r: (
        String,
        Vec<PayloadField>,
        Severity,
    ))
        ensures
            r.0@ == bridge_topic(
                self@.config.namespace@,
                self@.config.gateway_id@,
                "/protocol/modbus"@,
            ),
            payload_views(r.1@) == spec_modbus_payload(*event),
            r.2 == spec_modbus_severity(*event),
    {
        let topic: String = self.topic("/protocol/modbus");
        let mut payload: Vec<PayloadField> = Vec::new();
        let severity: Severity;
        match event {
            ModbusEvent::Request {
                device_id,
                transaction_id,
                function_code,
                address,
                quantity,
                timestamp_ns,
            } => {
                payload.push(text_field("type", "request"));
                payload.push(text_field("device_id", device_id.as_str()));
                payload.push(u64_field("transaction_id", *transaction_id as u64));
                payload.push(u64_field("function_code", *function_code as u64));
                payload.push(u64_field("address", *address as u64));
                payload.push(u64_field("quantity", *quantity as u64));
                payload.push(u64_field("timestamp_ns", *timestamp_ns));
                severity = Severity::Debug;
            },
            ModbusEvent::Response {
                device_id,
                transaction_id,
                success,
                latency_us,
                timestamp_ns,
            } => {
                payload.push(text_field("type", "response"));
                payload.push(text_field("device_id", device_id.as_str()));
                payload.push(u64_field("transaction_id", *transaction_id as u64));
                payload.push(bool_field("success", *success));
                payload.push(u64_field("latency_us", *latency_us as u64));
                payload.push(u64_field("timestamp_ns", *timestamp_ns));
                severity = Severity::Debug;
            },
            ModbusEvent::Exception {
                device_id,
                transaction_id,
                function_code,
                exception_code,
                timestamp_ns,
            } => {
                payload.push(text_field("type", "exception"));
                payload.push(text_field("device_id", device_id.as_str()));
                payload.push(u64_field("transaction_id", *transaction_id as u64));
                payload.push(u64_field("function_code", *function_code as u64));
                payload.push(u64_field("exception_code", *exception_code as u64));
                payload.push(u64_field("timestamp_ns", *timestamp_ns));
                severity = Severity::Warning;
            },
        }
        assert(payload_views(payload@) =~= spec_modbus_payload(*event));
        (topic, payload, severity)
    }

    /// Topic, payload and severity of a value event.
    pub fn process_stream_event(&self, event: &StreamEvent) -> (r: (
        String,
        Vec<PayloadField>,
        Severity,
    ))
        ensures
            r.0@ == bridge_topic(
                self@.config.namespace@,
                self@.config.gateway_id@,
                "/device/"@ + event.device_id@ + "/telemetry"@,
            ),
            payload_views(r.1@) == spec_stream_payload(*event),
            r.2 == Severity::Debug,
    {
        let mut suffix: String = "/device/".to_owned();
        suffix.append(event.device_id.as_str());
        suffix.append("/telemetry");
        assert(suffix@ =~= "/device/"@ + event.device_id@ + "/telemetry"@);
        let topic: String = self.topic(suffix.as_str());
        let mut payload: Vec<PayloadField> = Vec::new();
        payload.push(text_field("type", "value"));
        payload.push(u64_field("event_id", event.event_id));
        payload.push(text_field("name", event.name.as_str()));
        payload.push(number_field("value", event.value));
        payload.push(text_field("unit", event.unit.as_str()));
        payload.push(u64_field("quality", event.quality.code() as u64));
        payload.push(u64_field("source_timestamp_ns", event.source_timestamp_ns));
        payload.push(u64_field("server_timestamp_ns", event.server_timestamp_ns));
        assert(payload_views(payload@) =~= spec_stream_payload(*event));
        (topic, payload, Severity::Debug)
    }

    /// Topic, payload and severity of an alarm event.
    pub fn process_alarm_event(&self, event: &AlarmEventOutput) -> (r: (
        String,
        Vec<PayloadField>,
        Severity,
    ))
        ensures
            r.0@ == bridge_topic(self@.config.namespace@, self@.config.gateway_id@, "/alarm"@),
            payload_views(r.1@) == spec_alarm_payload(*event),
            r.2 == spec_alarm_severity(event.severity),
    {
        let topic: String = self.topic("/alarm");
        let severity: Severity = match event.severity {
            AlarmSeverity::Info => Severity::Info,
            AlarmSeverity::Warning => Severity::Warning,
            AlarmSeverity::Critical => Severity::Error,
        };
        let kind: &'static str = if event.state == AlarmState::Active {
            "alarm_active"
        } else {
            "alarm_cleared"
        };
        let mut payload: Vec<PayloadField> = Vec::new();
        payload.push(text_field("type", kind));
        payload.push(text_field("alarm_id", event.alarm_id.as_str()));
        payload.push(text_field("name", event.name.as_str()));
        payload.push(text_field("state", event.state.name()));
        payload.push(text_field("severity", event.severity.name()));
        payload.push(number_field("current_value", event.current_value));
        payload.push(
            number_field("threshold_value", Reading::Number(event.threshold_value as i128)),
        );
        payload.push(text_field("message", event.message.as_str()));
        payload.push(u64_field("timestamp_ns", event.timestamp_ns));
        assert(payload_views(payload@) =~= spec_alarm_payload(*event));
        (topic, payload, severity)
    }

    /// Topic, payload and severity of a health event.
    pub fn process_health_event(&self, event: &GatewayHealthEvent) -> (r: (
        String,
        Vec<PayloadField>,
        Severity,
    ))
        ensures
            r.0@ == bridge_topic(self@.config.namespace@, self@.config.gateway_id@, "/health"@),
            payload_views(r.1@) == spec_health_payload(*event),
            r.2 == Severity::Info,
    {
        let topic: String = self.topic("/health");
        let mut payload: Vec<PayloadField> = Vec::new();
        payload.push(text_field("gateway_id", event.gateway_id.as_str()));
        payload.push(text_field("version", event.version.as_str()));
        payload.push(u64_field("uptime_seconds", event.uptime_seconds));
        payload.push(u64_field("devices_configured", event.devices_configured as u64));
        payload.push(u64_field("devices_online", event.devices_online as u64));
        payload.push(u64_field("registers_configured", event.registers_configured as u64));
        payload.push(u64_field("alarms_active", event.alarms_active as u64));
        payload.push(u64_field("requests_total", event.requests_total));
        payload.push(u64_field("requests_failed", event.requests_failed));
        payload.push(u64_field("avg_latency_us", event.avg_latency_us as u64));
        payload.push(u64_field("timestamp_ns", event.timestamp_ns));
        assert(payload_views(payload@) =~= spec_health_payload(*event));
        (topic, payload, Severity::Info)
    }

    /// Flushes the buffer: takes every record out of it and returns them
    /// in order.  If there were any, they count as emitted and as one
    /// batch.
    pub fn flush(&mut self) -> (batch: Vec<LexEvent>)
        requires
            old(self).wf(),
        ensures
            final(self).wf(),
            final(self)@ == spec_flush(old(self)@),
            lex_views(batch@) == old(self)@.buffer,
    {
        let mut batch: Vec<LexEvent> = Vec::new();
        std::mem::swap(&mut batch, &mut self.buffer);
        if batch.len() == 0 {
            assert(self@.buffer =~= old(self)@.buffer);
            return batch;
        }
        self.metrics.events_emitted = self.metrics.events_emitted + (batch.len() as u64);
        self.metrics.batches_sent = self.metrics.batches_sent + 1;
        assert(self@.buffer =~= Seq::<LexEventView>::empty());
        batch
    }

    /// Processes an event at the time `now_ns`, with `draw_ppm` as the
    /// random draw for sampling (a uniform draw below 1_000_000).
    ///
    /// The event counts as received.  It is dropped and counted as
    /// filtered if its severity is below the filter, and dropped and
    /// counted as sampled out if it is a debug event, the sampling rate is
    /// below 1_000_000 and the draw is above the rate.  Otherwise its
    /// record gets the next sequence number and enters the buffer; when
    /// the buffer reaches the batch size, it is flushed and the batch
    /// returned.
    pub fn process_at(&mut self, event: TelemetryEvent, draw_ppm: u32, now_ns: u64) -> (batch: Vec<
        LexEvent,
    >)
        requires
            old(self).wf(),
            old(self)@.metrics.events_received < u64::MAX,
        ensures
            final(self).wf(),
            final(self)@ == spec_process(old(self)@, event, draw_ppm, now_ns),
            lex_views(batch@) == spec_process_batch(old(self)@, event, draw_ppm, now_ns),
    {
        self.metrics.events_received = self.metrics.events_received + 1;
        let (topic, payload, severity) = match &event {
            TelemetryEvent::TcpEvent(e) => self.process_tcp_event(e),
            TelemetryEvent::ModbusEvent(e) => self.process_modbus_event(e),
            TelemetryEvent::StreamEvent(e) => self.process_stream_event(e),
            TelemetryEvent::AlarmEvent(e) => self.process_alarm_event(e),
            TelemetryEvent::GatewayHealth(e) => self.process_health_event(e),
        };
        if severity.level() < self.config.severity_filter {
            self.metrics.events_filtered = self.metrics.events_filtered + 1;
            let none: Vec<LexEvent> = Vec::new();
            assert(lex_views(none@) =~= Seq::<LexEventView>::empty());
            assert(self@.buffer =~= old(self)@.buffer);
            return none;
        }
        if severity == Severity::Debug && self.config.sampling_rate_ppm < 1_000_000 && draw_ppm
            > self.config.sampling_rate_ppm {
            self.metrics.events_sampled_out = self.metrics.events_sampled_out + 1;
            let none: Vec<LexEvent> = Vec::new();
            assert(lex_views(none@) =~= Seq::<LexEventView>::empty());
            assert(self@.buffer =~= old(self)@.buffer);
            return none;
        }
        let sequence: u64 = self.sequence;
        self.sequence = if sequence == u64::MAX {
            0
        } else {
            sequence + 1
        };
        let record = LexEvent {
            topic,
            payload,
            severity: severity.level(),
            timestamp_ns: now_ns,
            sequence_number: sequence,
        };
        assert(record@ == spec_lex_event(old(self)@.config, event, sequence, now_ns));
        self.buffer.push(record);
        assert(self@.buffer =~= old(self)@.buffer.push(record@));
        assert(self@ == spec_intake(old(self)@, event, draw_ppm, now_ns));
        if self.buffer.len() >= self.config.batch_size as usize {
            self.flush()
        } else {
            let none: Vec<LexEvent> = Vec::new();
            assert(lex_views(none@) =~= Seq::<LexEventView>::empty());
            none
        }
    }

    /// Processes an event, stamped with the current time: `process_at` at
    /// the time that the clock returned.
    pub fn process(&mut self, event: TelemetryEvent, draw_ppm: u32) -> (batch: Vec<LexEvent>)
        requires
            old(self).wf(),
            old(self)@.metrics.events_received < u64::MAX,
        ensures
            final(self).wf(),
            exists|now_ns: u64|
                final(self)@ == #[trigger] spec_process(old(self)@, event, draw_ppm, now_ns)
                    && lex_views(batch@) == spec_process_batch(
                    old(self)@,
                    event,
                    draw_ppm,
                    now_ns,
                ),
    {
        let now_ns: u64 = timestamp_ns();
        self.process_at(event, draw_ppm, now_ns)
    }
}

} // verus!
