//! Transport session: connection state, reconnection policy and metrics
//! of a single-peer stream connection.
//!
//! The session performs no I/O.  Its driver connects, writes and reads,
//! and reports each outcome; the session keeps the state, says when to
//! retry and yields the events to publish.

use vstd::prelude::*;
use vstd::string::*;
use vstd::arithmetic::div_mod::{lemma_div_is_ordered, lemma_div_multiples_vanish};
use crate::industrial::error::IndustrialError;
use crate::industrial::protocol::{latency_us, spec_latency_us};
use crate::industrial::text::{decimal_digits, push_decimal};
use crate::industrial::types::{
    ConnectionMetrics,
    ConnectionState,
    latency_ema,
    spec_latency_ema,
};
use crate::industrial::value::{lemma_two_pow_grows, two_pow};

verus! {

/// Longest delay between two reconnection attempts, in milliseconds.
pub const MAX_RECONNECT_DELAY_MS: u64 = 30_000;

/// TCP client configuration.
#[derive(Debug, Clone, Copy)]
pub struct TcpConfig {
    /// Remote IPv4 address, one octet per element
    pub remote_ip: [u8; 4],
    /// Remote port
    pub remote_port: u16,
    /// Connection timeout in milliseconds
    pub connect_timeout_ms: u64,
    /// Read timeout in milliseconds
    pub read_timeout_ms: u64,
    /// Write timeout in milliseconds
    pub write_timeout_ms: u64,
    /// Keepalive interval in milliseconds (`None` is disabled)
    pub keepalive_interval_ms: Option<u64>,
    /// Reconnect delay in milliseconds
    pub reconnect_delay_ms: u64,
    /// Maximum reconnection attempts (0 is unbounded)
    pub max_reconnect_attempts: u32,
    /// TCP_NODELAY
    pub tcp_nodelay: bool,
}

impl Default for TcpConfig {
    fn default() -> (c: Self)
        ensures
            c.remote_ip@ == seq![127u8, 0u8, 0u8, 1u8],
            c.remote_port == 502,
            c.connect_timeout_ms == 5000,
            c.read_timeout_ms == 3000,
            c.write_timeout_ms == 3000,
            c.keepalive_interval_ms == Some(30_000u64),
            c.reconnect_delay_ms == 1000,
            c.max_reconnect_attempts == 10,
            c.tcp_nodelay,
    {
        let ip: [u8; 4] = [127, 0, 0, 1];
        assert(ip@ =~= seq![127u8, 0u8, 0u8, 1u8]);
        TcpConfig {
            remote_ip: ip,
            remote_port: 502,
            connect_timeout_ms: 5000,
            read_timeout_ms: 3000,
            write_timeout_ms: 3000,
            keepalive_interval_ms: Some(30_000),
            reconnect_delay_ms: 1000,
            max_reconnect_attempts: 10,
            tcp_nodelay: true,
        }
    }
}

/// Transport events for telemetry.
#[derive(Debug)]
pub enum TcpEvent {
    /// Connection state changed
    StateChange { old_state: ConnectionState, new_state: ConnectionState, timestamp_ns: u64 },
    /// Request sent
    RequestSent { request_id: u32, bytes: usize, timestamp_ns: u64 },
    /// Response received
    ResponseReceived { request_id: u32, bytes: usize, latency_us: u32, timestamp_ns: u64 },
    /// Error occurred
    Error { error_code: u16, message: String, timestamp_ns: u64 },
}

impl Clone for TcpEvent {
    fn clone(&self) -> (c: Self)
        ensures
            c == *self,
    {
        match self {
            TcpEvent::StateChange { old_state, new_state, timestamp_ns } => TcpEvent::StateChange {
                old_state: *old_state,
                new_state: *new_state,
                timestamp_ns: *timestamp_ns,
            },
            TcpEvent::RequestSent { request_id, bytes, timestamp_ns } => TcpEvent::RequestSent {
                request_id: *request_id,
                bytes: *bytes,
                timestamp_ns: *timestamp_ns,
            },
            TcpEvent::ResponseReceived {
                request_id,
                bytes,
                latency_us,
                timestamp_ns,
            } => TcpEvent::ResponseReceived {
                request_id: *request_id,
                bytes: *bytes,
                latency_us: *latency_us,
                timestamp_ns: *timestamp_ns,
            },
            TcpEvent::Error { error_code, message, timestamp_ns } => TcpEvent::Error {
                error_code: *error_code,
                message: message.clone(),
                timestamp_ns: *timestamp_ns,
            },
        }
    }
}

/// Transport for generic data exchange: a single-peer connection that a
/// protocol engine sends its frames through.  Nothing is promised of an
/// implementation.
pub trait Transport {
    /// Sends data and, where `expect_response` is set, waits for a
    /// response and returns it.
    fn send(&mut self, data: &[u8], expect_response: bool) -> (r: Result<
        Option<Vec<u8>>,
        IndustrialError,
    >);

    /// Returns the current connection state.
    fn state(&self) -> (s: ConnectionState);

    /// Returns whether the transport is connected.
    fn is_connected(&self) -> (b: bool);

    /// Connects to the remote endpoint.
    fn connect(&mut self) -> (r: Result<(), IndustrialError>);

    /// Disconnects from the remote endpoint.
    fn disconnect(&mut self) -> (r: Result<(), IndustrialError>);
}

/// Three to the power `n`.
pub open spec fn three_pow(n: nat) -> nat
    decreases n,
{
    if n == 0 {
        1
    } else {
        3 * three_pow((n - 1) as nat)
    }
}

/// `base_ms * 1.5^k` in whole milliseconds.
pub open spec fn grown_delay(base_ms: u64, k: nat) -> int {
    (base_ms as int * three_pow(k) as int) / (two_pow(k) as int)
}

/// Delay before the retry that follows the failed attempt number
/// `attempt` (counted from 1): the reconnect delay times 1.5 to the power
/// `attempt - 1`, in whole milliseconds, capped at 30 seconds.
pub open spec fn spec_reconnect_delay_ms(base_ms: u64, attempt: u32) -> u64 {
    let k: nat = if attempt == 0 {
        0
    } else {
        (attempt - 1) as nat
    };
    if grown_delay(base_ms, k) > MAX_RECONNECT_DELAY_MS {
        MAX_RECONNECT_DELAY_MS
    } else {
        grown_delay(base_ms, k) as u64
    }
}

/// The grown delay does not shrink from one attempt to the next.
pub proof fn lemma_grown_delay_step(base_ms: u64, k: nat)
    ensures
        three_pow(k) >= 1,
        grown_delay(base_ms, k) >= 0,
        grown_delay(base_ms, k) <= grown_delay(base_ms, k + 1),
    decreases k,
{
    if k > 0 {
        lemma_grown_delay_step(base_ms, (k - 1) as nat);
    }
    lemma_two_pow_grows(0, k);
    let a: int = base_ms as int * three_pow(k) as int;
    let d: int = two_pow(k) as int;
    assert(a >= 0) by (nonlinear_arith)
        requires
            a == base_ms as int * three_pow(k) as int,
            base_ms >= 0,
            three_pow(k) >= 1,
    ;
    vstd::arithmetic::div_mod::lemma_div_pos_is_pos(a, d);
    assert(base_ms as int * three_pow(k + 1) as int == 3 * a) by (nonlinear_arith)
        requires
            three_pow(k + 1) == 3 * three_pow(k),
            a == base_ms as int * three_pow(k) as int,
    ;
    assert(two_pow(k + 1) as int == 2 * d);
    // (2 * a) / (2 * d) == a / d, and 3 * a >= 2 * a
    vstd::arithmetic::div_mod::lemma_div_denominator(2 * a, 2, d);
    lemma_div_multiples_vanish(a, 2);
    assert((2 * a) / 2 == a);
    assert((2 * a) / (2 * d) == a / d);
    lemma_div_is_ordered(2 * a, 3 * a, 2 * d);
}

/// The grown delay does not shrink over any number of attempts.
pub proof fn lemma_grown_delay_monotonic(base_ms: u64, j: nat, k: nat)
    requires
        j <= k,
    ensures
        grown_delay(base_ms, j) <= grown_delay(base_ms, k),
    decreases k - j,
{
    if j < k {
        lemma_grown_delay_step(base_ms, j);
        lemma_grown_delay_monotonic(base_ms, j + 1, k);
    }
}

/// Computes the delay before the retry that follows a failed attempt.
pub fn reconnect_delay_ms(base_ms: u64, attempt: u32) -> (d: u64)
    ensures
        d == spec_reconnect_delay_ms(base_ms, attempt),
        d <= MAX_RECONNECT_DELAY_MS,
{
    let steps: u32 = if attempt == 0 {
        0
    } else {
        attempt - 1
    };
    if base_ms == 0 {
        proof {
            lemma_two_pow_grows(0, steps as nat);
            assert(0int * (three_pow(steps as nat) as int) == 0) by (nonlinear_arith);
            assert(0int / (two_pow(steps as nat) as int) == 0);
        }
        return 0;
    }
    let mut num: u128 = base_ms as u128;
    let mut den: u128 = 1;
    let mut k: u32 = 0;
    proof {
        assert(three_pow(0) == 1);
        assert(two_pow(0) == 1);
        assert(base_ms as int * 1 == base_ms as int);
    }
    while k < steps && num / den <= MAX_RECONNECT_DELAY_MS as u128
        invariant
            0 <= k <= steps,
            k <= 30,
            base_ms >= 1,
            den >= 1,
            den == two_pow(k as nat),
            num == base_ms * three_pow(k as nat),
            den <= 0x4000_0000,
            num <= 0x1_0000_0000_0000_0000 * 0x1000_0000_0000,
        decreases steps - k,
    {
        proof {
            lemma_two_pow_grows(k as nat, 30);
            reveal_with_fuel(two_pow, 31);
            reveal_with_fuel(three_pow, 31);
            if k == 30 {
                assert(three_pow(30) == 205891132094649);
                assert(two_pow(30) == 1073741824);
                assert(num >= 205891132094649) by (nonlinear_arith)
                    requires
                        num == base_ms * three_pow(30),
                        three_pow(30) == 205891132094649,
                        base_ms >= 1,
                ;
                lemma_div_is_ordered(205891132094649, num as int, 1073741824);
                assert(false);
            }
            // num / den <= 30000 bounds num
            vstd::arithmetic::div_mod::lemma_fundamental_div_mod(num as int, den as int);
            vstd::arithmetic::div_mod::lemma_mod_bound(num as int, den as int);
            assert(den * (num / den) <= den * 30000) by (nonlinear_arith)
                requires
                    num / den <= 30000,
                    den >= 1,
            ;
            assert(den * 30000 <= 0x4000_0000 * 30000) by (nonlinear_arith)
                requires
                    den <= 0x4000_0000,
            ;
            assert(base_ms * three_pow((k + 1) as nat) == 3 * (base_ms * three_pow(k as nat)))
                by (nonlinear_arith)
                requires
                    three_pow((k + 1) as nat) == 3 * three_pow(k as nat),
            ;
            assert(two_pow((k + 1) as nat) == 2 * two_pow(k as nat));
            if k + 1 <= 30 {
                lemma_two_pow_grows((k + 1) as nat, 30);
            }
        }
        num = num * 3;
        den = den * 2;
        k = k + 1;
    }
    let value: u128 = num / den;
    if value > MAX_RECONNECT_DELAY_MS as u128 {
        proof {
            lemma_grown_delay_monotonic(base_ms, k as nat, steps as nat);
        }
        MAX_RECONNECT_DELAY_MS
    } else {
        value as u64
    }
}

/// What the driver does after a failed connection attempt.
#[derive(Debug, Clone, Copy, PartialEq, Eq, Structural)]
pub enum RetryAction {
    /// Try again after the delay
    RetryAfter { delay_ms: u64 },
    /// Give up and surface the failure
    GiveUp,
}

/// The answer to a failed connection attempt.
#[derive(Debug)]
pub struct ConnectStep {
    /// Events to publish, in order
    pub events: Vec<TcpEvent>,
    /// What to do next
    pub action: RetryAction,
}

/// How an exchange ended at the socket.
#[derive(Debug, Clone, Copy, PartialEq, Eq, Structural)]
pub enum ExchangeOutcome {
    /// There is no session
    NotConnected,
    /// Writing the frame timed out
    WriteTimeout,
    /// Writing the frame failed
    WriteFailed,
    /// The frame was written, but reading the response timed out
    ReadTimeout,
    /// The frame was written, but reading the response failed
    ReadFailed,
    /// The frame was written and a response of `bytes` bytes was read
    Received { bytes: usize },
}

/// The answer to a finished exchange.
#[derive(Debug)]
pub struct Exchange {
    /// `Ok` with the latency in microseconds, or the error
    pub result: Result<u32, IndustrialError>,
    /// Events to publish, in order
    pub events: Vec<TcpEvent>,
}

/// A counter plus an amount, saturating.
pub open spec fn saturating_sum(a: u64, b: int) -> u64 {
    if a + b > u64::MAX {
        u64::MAX
    } else {
        (a + b) as u64
    }
}

/// Adds an amount to a counter, saturating.
pub fn add_saturating(a: u64, b: usize) -> (r: u64)
    ensures
        r == saturating_sum(a, b as int),
{
    let wide: u128 = (a as u128) + (b as u128);
    if wide > u64::MAX as u128 {
        u64::MAX
    } else {
        wide as u64
    }
}

/// Text of an endpoint: the four octets in decimal with points between
/// them, a colon, and the port in decimal.
pub open spec fn spec_address_text(ip: Seq<u8>, port: u16) -> Seq<char> {
    decimal_digits(ip[0] as nat) + "."@ + decimal_digits(ip[1] as nat) + "."@ + decimal_digits(
        ip[2] as nat,
    ) + "."@ + decimal_digits(ip[3] as nat) + ":"@ + decimal_digits(port as nat)
}

/// Returns the text of an endpoint.
pub fn address_text(ip: &[u8; 4], port: u16) -> (s: String)
    ensures
        s@ == spec_address_text(ip@, port),
{
    let mut s: String = String::new();
    push_decimal(&mut s, ip[0] as u128);
    s.append(".");
    push_decimal(&mut s, ip[1] as u128);
    s.append(".");
    push_decimal(&mut s, ip[2] as u128);
    s.append(".");
    push_decimal(&mut s, ip[3] as u128);
    s.append(":");
    push_decimal(&mut s, port as u128);
    assert(s@ =~= spec_address_text(ip@, port));
    s
}

/// The metrics after a frame of `bytes` bytes was sent.
pub open spec fn metrics_after_send(m: ConnectionMetrics, bytes: usize) -> ConnectionMetrics {
    ConnectionMetrics {
        bytes_sent: saturating_sum(m.bytes_sent, bytes as int),
        packets_sent: saturating_sum(m.packets_sent, 1),
        ..m
    }
}

/// The metrics after a response of `bytes` bytes was received with the
/// given latency: the average round-trip time is `(7 * avg + latency) / 8`.
pub open spec fn metrics_after_receive(m: ConnectionMetrics, bytes: usize, latency: u32) -> ConnectionMetrics {
    ConnectionMetrics {
        bytes_received: saturating_sum(m.bytes_received, bytes as int),
        packets_received: saturating_sum(m.packets_received, 1),
        avg_rtt_us: spec_latency_ema(m.avg_rtt_us, latency),
        ..m
    }
}

/// The metrics after an exchange.
pub open spec fn metrics_after_exchange(
    m: ConnectionMetrics,
    sent: usize,
    outcome: ExchangeOutcome,
    send_ns: u64,
    recv_ns: u64,
) -> ConnectionMetrics {
    match outcome {
        ExchangeOutcome::NotConnected | ExchangeOutcome::WriteTimeout
        | ExchangeOutcome::WriteFailed => m,
        ExchangeOutcome::ReadTimeout | ExchangeOutcome::ReadFailed => metrics_after_send(m, sent),
        ExchangeOutcome::Received { bytes } => metrics_after_receive(
            metrics_after_send(m, sent),
            bytes,
            spec_latency_us(send_ns, recv_ns),
        ),
    }
}

/// Whether an exchange's answer is the one that the outcome calls for: a
/// missing session is `NotConnected`, a timeout `ResponseTimeout` with the
/// request id, a socket failure `ConnectionReset`; a written frame gives a
/// `RequestSent` event, a response read a `ResponseReceived` event after
/// it.
pub open spec fn exchange_matches(
    x: Exchange,
    address: Seq<char>,
    request_id: u32,
    sent: usize,
    outcome: ExchangeOutcome,
    send_ns: u64,
    recv_ns: u64,
) -> bool {
    let request_sent = TcpEvent::RequestSent { request_id, bytes: sent, timestamp_ns: send_ns };
    match outcome {
        ExchangeOutcome::NotConnected => x.events@.len() == 0 && (x.result matches Err(
            IndustrialError::NotConnected { device_id },
        ) && device_id@ == address),
        ExchangeOutcome::WriteTimeout => x.events@.len() == 0 && (x.result matches Err(
            IndustrialError::ResponseTimeout { transaction_id },
        ) && transaction_id == request_id),
        ExchangeOutcome::WriteFailed => x.events@.len() == 0 && (x.result matches Err(
            IndustrialError::ConnectionReset { address: a },
        ) && a@ == address),
        ExchangeOutcome::ReadTimeout => x.events@ == seq![request_sent] && (x.result matches Err(
            IndustrialError::ResponseTimeout { transaction_id },
        ) && transaction_id == request_id),
        ExchangeOutcome::ReadFailed => x.events@ == seq![request_sent] && (x.result matches Err(
            IndustrialError::ConnectionReset { address: a },
        ) && a@ == address),
        ExchangeOutcome::Received { bytes } => x.events@ == seq![
            request_sent,
            TcpEvent::ResponseReceived {
                request_id,
                bytes,
                latency_us: spec_latency_us(send_ns, recv_ns),
                timestamp_ns: recv_ns,
            },
        ] && x.result == Ok::<u32, IndustrialError>(spec_latency_us(send_ns, recv_ns)),
    }
}

/// Transport session of one TCP client.
pub struct TcpClient {
    config: TcpConfig,
    state: ConnectionState,
    metrics: ConnectionMetrics,
    reconnect_count: u32,
}

/// The session as a mathematical value.
pub struct SessionState {
    /// Configuration
    pub config: TcpConfig,
    /// Connection state
    pub state: ConnectionState,
    /// Metrics
    pub metrics: ConnectionMetrics,
    /// Number of the reconnection attempt under way (0 outside
    /// reconnection)
    pub reconnect_count: u32,
}

/// The state, the attempt count and the action after a failed connection
/// attempt.
///
/// The first failure, in `Connecting`, starts reconnection: attempt 1 is
/// tried at once.  In `Reconnecting`, the failed attempt is the last one
/// if the attempts are bounded and their number is reached: the state
/// becomes `Error` and the driver gives up.  Otherwise the next attempt
/// follows after the reconnect delay.  In any other state nothing changes
/// and the driver gives up.
pub open spec fn spec_connect_failed(s: SessionState) -> (ConnectionState, u32, RetryAction) {
    if s.state == ConnectionState::Connecting {
        (ConnectionState::Reconnecting, 1, RetryAction::RetryAfter { delay_ms: 0 })
    } else if s.state == ConnectionState::Reconnecting {
        if s.config.max_reconnect_attempts > 0 && s.reconnect_count
            >= s.config.max_reconnect_attempts {
            (ConnectionState::Error, s.reconnect_count, RetryAction::GiveUp)
        } else {
            (
                ConnectionState::Reconnecting,
                if s.reconnect_count == u32::MAX {
                    u32::MAX
                } else {
                    (s.reconnect_count + 1) as u32
                },
                RetryAction::RetryAfter {
                    delay_ms: spec_reconnect_delay_ms(
                        s.config.reconnect_delay_ms,
                        s.reconnect_count,
                    ),
                },
            )
        }
    } else {
        (s.state, s.reconnect_count, RetryAction::GiveUp)
    }
}

/// The events of a change of state: one `StateChange` if the state
/// differs, none otherwise.
pub open spec fn state_change_events(
    old_state: ConnectionState,
    new_state: ConnectionState,
    timestamp_ns: u64,
) -> Seq<TcpEvent> {
    if old_state != new_state {
        seq![TcpEvent::StateChange { old_state, new_state, timestamp_ns }]
    } else {
        Seq::<TcpEvent>::empty()
    }
}

impl View for TcpClient {
    type V = SessionState;

    closed spec fn view(&self) -> SessionState {
        SessionState {
            config: self.config,
            state: self.state,
            metrics: self.metrics,
            reconnect_count: self.reconnect_count,
        }
    }
}

impl TcpClient {
    /// Creates a session: disconnected, with all metrics at zero.
    pub fn new(config: TcpConfig) -> (client: Self)
        ensures
            client@.config == config,
            client@.state == ConnectionState::Disconnected,
            client@.reconnect_count == 0,
            client@.metrics == (ConnectionMetrics {
                bytes_sent: 0,
                bytes_received: 0,
                packets_sent: 0,
                packets_received: 0,
                retransmissions: 0,
                avg_rtt_us: 0,
            }),
    {
        TcpClient {
            config,
            state: ConnectionState::Disconnected,
            metrics: ConnectionMetrics::default(),
            reconnect_count: 0,
        }
    }

    /// Returns the current connection state.
    pub fn state(&self) -> (s: ConnectionState)
        ensures
            s == self@.state,
    {
        self.state
    }

    /// Returns whether the session is connected.
    pub fn is_connected(&self) -> (b: bool)
        ensures
            b == (self@.state == ConnectionState::Connected),
    {
        self.state == ConnectionState::Connected
    }

    /// Returns the current metrics.
    pub fn metrics(&self) -> (m: ConnectionMetrics)
        ensures
            m == self@.metrics,
    {
        self.metrics
    }

    /// Returns the number of the reconnection attempt under way.
    pub fn reconnect_count(&self) -> (n: u32)
        ensures
            n == self@.reconnect_count,
    {
        self.reconnect_count
    }

    /// Returns the text of the remote endpoint.
    pub fn remote_address(&self) -> (s: String)
        ensures
            s@ == spec_address_text(self@.config.remote_ip@, self@.config.remote_port),
    {
        address_text(&self.config.remote_ip, self.config.remote_port)
    }

    /// Sets the connection state.  Returns the event of the change, if the
    /// state differs from the one before.
    pub fn set_state(&mut self, new_state: ConnectionState, timestamp_ns: u64) -> (event: Option<
        TcpEvent,
    >)
        ensures
            final(self)@ == (SessionState { state: new_state, ..old(self)@ }),
            old(self)@.state != new_state ==> event == Some(
                TcpEvent::StateChange { old_state: old(self)@.state, new_state, timestamp_ns },
            ),
            old(self)@.state == new_state ==> event is None,
    {
        let old_state: ConnectionState = self.state;
        self.state = new_state;
        if old_state != new_state {
            Some(TcpEvent::StateChange { old_state, new_state, timestamp_ns })
        } else {
            None
        }
    }

    /// A connection attempt begins: the state becomes `Connecting`.
    pub fn connect_started(&mut self, timestamp_ns: u64) -> (event: Option<TcpEvent>)
        ensures
            final(self)@ == (SessionState { state: ConnectionState::Connecting, ..old(self)@ }),
            old(self)@.state != ConnectionState::Connecting ==> event == Some(
                TcpEvent::StateChange {
                    old_state: old(self)@.state,
                    new_state: ConnectionState::Connecting,
                    timestamp_ns,
                },
            ),
            old(self)@.state == ConnectionState::Connecting ==> event is None,
    {
        self.set_state(ConnectionState::Connecting, timestamp_ns)
    }

    /// A connection attempt succeeded: the state becomes `Connected` and
    /// the attempt count returns to zero.
    pub fn connect_succeeded(&mut self, timestamp_ns: u64) -> (event: Option<TcpEvent>)
        ensures
            final(self)@ == (SessionState {
                state: ConnectionState::Connected,
                reconnect_count: 0,
                ..old(self)@
            }),
            old(self)@.state != ConnectionState::Connected ==> event == Some(
                TcpEvent::StateChange {
                    old_state: old(self)@.state,
                    new_state: ConnectionState::Connected,
                    timestamp_ns,
                },
            ),
            old(self)@.state == ConnectionState::Connected ==> event is None,
    {
        self.reconnect_count = 0;
        self.set_state(ConnectionState::Connected, timestamp_ns)
    }

    /// A connection attempt failed with `error`, whose message is
    /// `message`.  The first failure also yields an `Error` event with the
    /// error's code.
    pub fn connect_failed(
        &mut self,
        error: &IndustrialError,
        message: String,
        timestamp_ns: u64,
    ) -> (step: ConnectStep)
        ensures
            final(self)@ == (SessionState {
                state: spec_connect_failed(old(self)@).0,
                reconnect_count: spec_connect_failed(old(self)@).1,
                ..old(self)@
            }),
            step.action == spec_connect_failed(old(self)@).2,
            step.events@ == (if old(self)@.state == ConnectionState::Connecting {
                seq![
                    TcpEvent::Error {
                        error_code: error.spec_error_code() as u16,
                        message,
                        timestamp_ns,
                    },
                ]
            } else {
                Seq::<TcpEvent>::empty()
            }) + state_change_events(
                old(self)@.state,
                spec_connect_failed(old(self)@).0,
                timestamp_ns,
            ),
    {
        let mut events: Vec<TcpEvent> = Vec::new();
        let action: RetryAction;
        if self.state == ConnectionState::Connecting {
            events.push(
                TcpEvent::Error { error_code: error.error_code(), message, timestamp_ns },
            );
            self.reconnect_count = 1;
            match self.set_state(ConnectionState::Reconnecting, timestamp_ns) {
                Some(e) => {
                    events.push(e);
                },
                None => {},
            }
            action = RetryAction::RetryAfter { delay_ms: 0 };
        } else if self.state == ConnectionState::Reconnecting {
            if self.config.max_reconnect_attempts > 0 && self.reconnect_count
                >= self.config.max_reconnect_attempts {
                match self.set_state(ConnectionState::Error, timestamp_ns) {
                    Some(e) => {
                        events.push(e);
                    },
                    None => {},
                }
                action = RetryAction::GiveUp;
            } else {
                let delay: u64 = reconnect_delay_ms(
                    self.config.reconnect_delay_ms,
                    self.reconnect_count,
                );
                if self.reconnect_count < u32::MAX {
                    self.reconnect_count = self.reconnect_count + 1;
                }
                action = RetryAction::RetryAfter { delay_ms: delay };
            }
        } else {
            action = RetryAction::GiveUp;
        }
        assert(events@ =~= (if old(self)@.state == ConnectionState::Connecting {
            seq![
                TcpEvent::Error {
                    error_code: error.spec_error_code() as u16,
                    message,
                    timestamp_ns,
                },
            ]
        } else {
            Seq::<TcpEvent>::empty()
        }) + state_change_events(
            old(self)@.state,
            spec_connect_failed(old(self)@).0,
            timestamp_ns,
        ));
        ConnectStep { events, action }
    }

    /// The session was closed: the state becomes `Disconnected`.
    pub fn disconnect(&mut self, timestamp_ns: u64) -> (event: Option<TcpEvent>)
        ensures
            final(self)@ == (SessionState { state: ConnectionState::Disconnected, ..old(self)@ }),
            old(self)@.state != ConnectionState::Disconnected ==> event == Some(
                TcpEvent::StateChange {
                    old_state: old(self)@.state,
                    new_state: ConnectionState::Disconnected,
                    timestamp_ns,
                },
            ),
            old(self)@.state == ConnectionState::Disconnected ==> event is None,
    {
        self.set_state(ConnectionState::Disconnected, timestamp_ns)
    }

    /// Accounts for an exchange: a frame of `sent` bytes handed to the
    /// socket at `send_ns`, and what became of it by `recv_ns`.
    pub fn send_receive(
        &mut self,
        request_id: u32,
        sent: usize,
        outcome: ExchangeOutcome,
        send_ns: u64,
        recv_ns: u64,
    ) -> (x: Exchange)
        ensures
            final(self)@ == (SessionState {
                metrics: metrics_after_exchange(
                    old(self)@.metrics,
                    sent,
                    outcome,
                    send_ns,
                    recv_ns,
                ),
                ..old(self)@
            }),
            exchange_matches(
                x,
                spec_address_text(old(self)@.config.remote_ip@, old(self)@.config.remote_port),
                request_id,
                sent,
                outcome,
                send_ns,
                recv_ns,
            ),
    {
        let mut events: Vec<TcpEvent> = Vec::new();
        match outcome {
            ExchangeOutcome::NotConnected => {
                return Exchange {
                    result: Err(IndustrialError::NotConnected { device_id: self.remote_address() }),
                    events,
                };
            },
            ExchangeOutcome::WriteTimeout => {
                return Exchange {
                    result: Err(IndustrialError::ResponseTimeout { transaction_id: request_id }),
                    events,
                };
            },
            ExchangeOutcome::WriteFailed => {
                return Exchange {
                    result: Err(IndustrialError::ConnectionReset { address: self.remote_address() }),
                    events,
                };
            },
            _ => {},
        }
        self.metrics.bytes_sent = add_saturating(self.metrics.bytes_sent, sent);
        self.metrics.packets_sent = add_saturating(self.metrics.packets_sent, 1);
        events.push(TcpEvent::RequestSent { request_id, bytes: sent, timestamp_ns: send_ns });
        assert(events@ =~= seq![
            TcpEvent::RequestSent { request_id, bytes: sent, timestamp_ns: send_ns },
        ]);
        match outcome {
            ExchangeOutcome::ReadTimeout => Exchange {
                result: Err(IndustrialError::ResponseTimeout { transaction_id: request_id }),
                events,
            },
            ExchangeOutcome::Received { bytes } => {
                let latency: u32 = latency_us(send_ns, recv_ns);
                self.metrics.bytes_received = add_saturating(self.metrics.bytes_received, bytes);
                self.metrics.packets_received = add_saturating(self.metrics.packets_received, 1);
                self.metrics.avg_rtt_us = latency_ema(self.metrics.avg_rtt_us, latency);
                events.push(
                    TcpEvent::ResponseReceived {
                        request_id,
                        bytes,
                        latency_us: latency,
                        timestamp_ns: recv_ns,
                    },
                );
                assert(events@ =~= seq![
                    TcpEvent::RequestSent { request_id, bytes: sent, timestamp_ns: send_ns },
                    TcpEvent::ResponseReceived {
                        request_id,
                        bytes,
                        latency_us: latency,
                        timestamp_ns: recv_ns,
                    },
                ]);
                Exchange { result: Ok(latency), events }
            },
            _ => Exchange {
                result: Err(IndustrialError::ConnectionReset { address: self.remote_address() }),
                events,
            },
        }
    }
}

/// Reconnection is bounded: with a bound on the attempts, the failure of
/// the attempt that reaches the bound ends reconnection in `Error`;
/// before that, and without a bound, every failure is followed by a
/// retry after at most 30 seconds.
pub proof fn lemma_reconnect_policy(s: SessionState)
    requires
        s.state == ConnectionState::Reconnecting,
    ensures
        (s.config.max_reconnect_attempts > 0 && s.reconnect_count
            >= s.config.max_reconnect_attempts) ==> spec_connect_failed(s).0
            == ConnectionState::Error && spec_connect_failed(s).2 == RetryAction::GiveUp,
        !(s.config.max_reconnect_attempts > 0 && s.reconnect_count
            >= s.config.max_reconnect_attempts) ==> spec_connect_failed(s).0
            == ConnectionState::Reconnecting && (spec_connect_failed(s).2
            matches RetryAction::RetryAfter { delay_ms } && delay_ms <= MAX_RECONNECT_DELAY_MS),
{
    let k: nat = if s.reconnect_count == 0 {
        0
    } else {
        (s.reconnect_count - 1) as nat
    };
    lemma_grown_delay_step(s.config.reconnect_delay_ms, k);
}

} // verus!
