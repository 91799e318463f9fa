//! MODBUS TCP protocol engine: framing, transaction ids, the in-flight
//! table and response parsing.
//!
//! The engine performs no I/O.  `read` hands out the frame to send and
//! records the request as in flight; `complete_read` takes what the
//! transport returned and yields the structured response and the protocol
//! event to publish.

use vstd::prelude::*;
use vstd::string::*;
use std::collections::HashMap;
use crate::industrial::config::DeviceConfig;
use crate::industrial::error::{IndustrialError, spec_exception_message};
use crate::industrial::text::{decimal_digits, push_decimal};
use crate::industrial::transport::{TcpConfig, Transport};
use crate::industrial::types::{RegisterType, timestamp_ns};

verus! {

broadcast use vstd::std_specs::hash::group_hash_axioms;

/// Protocol events for telemetry.
#[derive(Debug)]
pub enum ModbusEvent {
    /// Request sent
    Request {
        device_id: String,
        transaction_id: u16,
        function_code: u8,
        address: u16,
        quantity: u16,
        timestamp_ns: u64,
    },
    /// Response received
    Response {
        device_id: String,
        transaction_id: u16,
        success: bool,
        latency_us: u32,
        timestamp_ns: u64,
    },
    /// Exception received
    Exception {
        device_id: String,
        transaction_id: u16,
        function_code: u8,
        exception_code: u8,
        timestamp_ns: u64,
    },
}

impl Clone for ModbusEvent {
    fn clone(&self) -> (c: Self)
        ensures
            c == *self,
    {
        match self {
            ModbusEvent::Request {
                device_id,
                transaction_id,
                function_code,
                address,
                quantity,
                timestamp_ns,
            } => ModbusEvent::Request {
                device_id: device_id.clone(),
                transaction_id: *transaction_id,
                function_code: *function_code,
                address: *address,
                quantity: *quantity,
                timestamp_ns: *timestamp_ns,
            },
            ModbusEvent::Response {
                device_id,
                transaction_id,
                success,
                latency_us,
                timestamp_ns,
            } => ModbusEvent::Response {
                device_id: device_id.clone(),
                transaction_id: *transaction_id,
                success: *success,
                latency_us: *latency_us,
                timestamp_ns: *timestamp_ns,
            },
            ModbusEvent::Exception {
                device_id,
                transaction_id,
                function_code,
                exception_code,
                timestamp_ns,
            } => ModbusEvent::Exception {
                device_id: device_id.clone(),
                transaction_id: *transaction_id,
                function_code: *function_code,
                exception_code: *exception_code,
                timestamp_ns: *timestamp_ns,
            },
        }
    }
}

/// Read request.
#[derive(Debug, Clone, Copy, PartialEq, Eq, Structural)]
pub struct ModbusReadRequest {
    /// Application request id
    pub request_id: u32,
    /// Register class
    pub register_type: RegisterType,
    /// Starting address
    pub address: u16,
    /// Number of registers
    pub quantity: u16,
}

/// Read response.
#[derive(Debug, Clone)]
pub struct ModbusReadResponse {
    /// Correlated request id
    pub request_id: u32,
    /// Transaction id
    pub transaction_id: u16,
    /// Success status
    pub success: bool,
    /// Response data (raw 16-bit values)
    pub values: Vec<u16>,
    /// Exception code (if not successful)
    pub exception_code: Option<u8>,
    /// Latency in microseconds
    pub latency_us: u32,
}

/// Write request.
#[derive(Debug, Clone)]
pub struct ModbusWriteRequest {
    /// Application request id
    pub request_id: u32,
    /// Register class (holding or coil)
    pub register_type: RegisterType,
    /// Starting address
    pub address: u16,
    /// Values to write
    pub values: Vec<u16>,
}

/// What the engine remembers of a request in flight.
#[derive(Debug, Clone, Copy, PartialEq, Eq, Structural)]
pub struct InFlight {
    /// Application request id
    pub request_id: u32,
    /// When the request was handed out
    pub sent_ns: u64,
}

/// A read that was started: the frame to send and the event to publish.
#[derive(Debug)]
pub struct ReadTicket {
    /// Transaction id of the request
    pub transaction_id: u16,
    /// The frame to send
    pub frame: Vec<u8>,
    /// The request event
    pub event: ModbusEvent,
}

/// A read that ended: the result for the caller and the event to publish.
#[derive(Debug)]
pub struct ReadCompletion {
    /// The structured response, or the error
    pub result: Result<ModbusReadResponse, IndustrialError>,
    /// The response or exception event, if one is due
    pub event: Option<ModbusEvent>,
}

/// A read that was carried out over a transport: the request event, if a
/// request went out, and how the read ended.
#[derive(Debug)]
pub struct ReadExchange {
    /// The request event
    pub request_event: Option<ModbusEvent>,
    /// The result and the response or exception event
    pub completion: ReadCompletion,
}

/// Header of a frame.
#[derive(Debug, Clone, Copy, PartialEq, Eq, Structural)]
pub struct MbapHeader {
    /// Transaction id
    pub transaction_id: u16,
    /// Length field: unit selector plus PDU bytes
    pub length: u16,
    /// Unit selector
    pub unit_id: u8,
}

/// High byte of a 16-bit word.
pub open spec fn hi_byte(v: u16) -> u8 {
    (v / 256) as u8
}

/// Low byte of a 16-bit word.
pub open spec fn lo_byte(v: u16) -> u8 {
    (v % 256) as u8
}

/// The 16-bit word with the given bytes, big-endian.
pub open spec fn be_word(hi: u8, lo: u8) -> u16 {
    (hi * 256 + lo) as u16
}

/// Splitting a word into its bytes and joining them gives the word back.
pub proof fn lemma_be_word_round_trip(v: u16)
    ensures
        be_word(hi_byte(v), lo_byte(v)) == v,
{
}

/// The 7-byte header: transaction id, protocol id zero, length (PDU bytes
/// plus one for the unit selector), unit selector.
pub open spec fn spec_mbap(transaction_id: u16, pdu_length: int, unit_id: u8) -> Seq<u8> {
    seq![
        hi_byte(transaction_id),
        lo_byte(transaction_id),
        0u8,
        0u8,
        hi_byte((pdu_length + 1) as u16),
        lo_byte((pdu_length + 1) as u16),
        unit_id,
    ]
}

/// A PDU of function code, address and one 16-bit value (a quantity for a
/// read, the value for a single write), big-endian.
pub open spec fn spec_short_pdu(function_code: u8, address: u16, value: u16) -> Seq<u8> {
    seq![function_code, hi_byte(address), lo_byte(address), hi_byte(value), lo_byte(value)]
}

/// The bytes of a sequence of words, big-endian.
pub open spec fn words_be(values: Seq<u16>) -> Seq<u8> {
    Seq::new(
        2 * values.len(),
        |i: int|
            if i % 2 == 0 {
                hi_byte(values[i / 2])
            } else {
                lo_byte(values[i / 2])
            },
    )
}

/// The PDU of a multi-word write: function code, address, quantity, byte
/// count, data.
pub open spec fn spec_write_multiple_pdu(function_code: u8, address: u16, values: Seq<u16>) -> Seq<
    u8,
> {
    seq![
        function_code,
        hi_byte(address),
        lo_byte(address),
        hi_byte(values.len() as u16),
        lo_byte(values.len() as u16),
        (2 * values.len()) as u8,
    ] + words_be(values)
}

/// A whole frame: header, then PDU.
pub open spec fn spec_frame(transaction_id: u16, unit_id: u8, pdu: Seq<u8>) -> Seq<u8> {
    spec_mbap(transaction_id, pdu.len() as int, unit_id) + pdu
}

/// The value that a single write carries: coils take 0xFF00 for a value
/// other than zero and 0x0000 for zero, holding registers take the value.
pub open spec fn spec_single_write_value(register_type: RegisterType, value: u16) -> u16 {
    if register_type == RegisterType::Coil {
        if value != 0 {
            0xFF00u16
        } else {
            0u16
        }
    } else {
        value
    }
}

/// The id that a counter value issues: the counter itself, or 1 where the
/// counter stands at zero.
pub open spec fn issued_id(counter: u16) -> u16 {
    if counter == 0 {
        1
    } else {
        counter
    }
}

/// The counter after `id` was issued.
pub open spec fn counter_after(id: u16) -> u16 {
    if id == 65535 {
        0
    } else {
        (id + 1) as u16
    }
}

/// The `k`-th nonzero id counted cyclically from `first` (itself nonzero).
pub open spec fn nth_id(first: u16, k: int) -> u16 {
    (((first - 1 + k) % 65535) + 1) as u16
}

/// Microseconds between two timestamps in nanoseconds: zero where the
/// second is not after the first, capped at `u32::MAX`.
pub open spec fn spec_latency_us(sent_ns: u64, recv_ns: u64) -> u32 {
    if recv_ns <= sent_ns {
        0
    } else if (recv_ns - sent_ns) / 1000 > u32::MAX {
        u32::MAX
    } else {
        ((recv_ns - sent_ns) / 1000) as u32
    }
}

/// Computes the latency between send and receive in microseconds.
pub fn latency_us(sent_ns: u64, recv_ns: u64) -> (l: u32)
    ensures
        l == spec_latency_us(sent_ns, recv_ns),
{
    if recv_ns <= sent_ns {
        0
    } else {
        let us: u64 = (recv_ns - sent_ns) / 1000;
        if us > u32::MAX as u64 {
            u32::MAX
        } else {
            us as u32
        }
    }
}

/// What a response to a read request says.
pub enum ParsedRead {
    /// Fewer than 8 bytes
    TooShort,
    /// The protocol id is not zero
    BadProtocol(u16),
    /// The transaction id is not the expected one
    Mismatch { expected: u16, actual: u16 },
    /// The PDU ends before the bytes it announces
    Truncated,
    /// An exception response
    Exception { function_code: u8, exception_code: u8 },
    /// The register values
    Values(Seq<u16>),
}

/// Reads a response frame.  The header must span at least 8 bytes with a
/// protocol id of zero, and carry the expected transaction id.  A function
/// code with the high bit set is an exception, followed by its code.
/// Otherwise a byte count follows, and `byte_count / 2` big-endian words.
pub open spec fn spec_parse_read(expected: u16, data: Seq<u8>) -> ParsedRead {
    if data.len() < 8 {
        ParsedRead::TooShort
    } else if be_word(data[2], data[3]) != 0 {
        ParsedRead::BadProtocol(be_word(data[2], data[3]))
    } else if be_word(data[0], data[1]) != expected {
        ParsedRead::Mismatch { expected, actual: be_word(data[0], data[1]) }
    } else if data.len() < 9 {
        ParsedRead::Truncated
    } else if data[7] >= 0x80 {
        ParsedRead::Exception { function_code: (data[7] - 0x80) as u8, exception_code: data[8] }
    } else if data.len() < 9 + 2 * (data[8] as int / 2) {
        ParsedRead::Truncated
    } else {
        ParsedRead::Values(
            Seq::new(
                (data[8] as int / 2) as nat,
                |i: int| be_word(data[9 + 2 * i], data[10 + 2 * i]),
            ),
        )
    }
}

/// The PDU of a read response: function code, byte count, and the words as
/// bytes, big-endian.
pub open spec fn spec_read_response_pdu(function_code: u8, values: Seq<u16>) -> Seq<u8> {
    seq![function_code, (2 * values.len()) as u8] + words_be(values)
}

/// A header that was built reads back: the first seven bytes of a frame
/// spell its transaction id, the protocol id zero, the length of the PDU
/// plus one, and the unit selector.
pub proof fn lemma_header_reads_back(transaction_id: u16, unit_id: u8, pdu: Seq<u8>)
    requires
        pdu.len() < 65535,
    ensures
        spec_frame(transaction_id, unit_id, pdu).len() == 7 + pdu.len(),
        be_word(
            spec_frame(transaction_id, unit_id, pdu)[0],
            spec_frame(transaction_id, unit_id, pdu)[1],
        ) == transaction_id,
        be_word(
            spec_frame(transaction_id, unit_id, pdu)[2],
            spec_frame(transaction_id, unit_id, pdu)[3],
        ) == 0,
        be_word(
            spec_frame(transaction_id, unit_id, pdu)[4],
            spec_frame(transaction_id, unit_id, pdu)[5],
        ) == pdu.len() + 1,
        spec_frame(transaction_id, unit_id, pdu)[6] == unit_id,
        forall|i: int| 0 <= i < pdu.len() ==> spec_frame(transaction_id, unit_id, pdu)[7 + i] == #[trigger] pdu[i],
{
}

/// A response reads back: the frame of a read response with up to 127
/// words, under the expected transaction id and a function code below
/// 0x80, parses to those words; the frame of an exception parses to the
/// exception.
pub proof fn lemma_response_reads_back(
    transaction_id: u16,
    unit_id: u8,
    function_code: u8,
    values: Seq<u16>,
    exception_code: u8,
)
    requires
        function_code < 0x80,
        values.len() <= 127,
    ensures
        spec_parse_read(
            transaction_id,
            spec_frame(transaction_id, unit_id, spec_read_response_pdu(function_code, values)),
        ) == ParsedRead::Values(values),
        spec_parse_read(
            transaction_id,
            spec_frame(
                transaction_id,
                unit_id,
                seq![(function_code + 0x80) as u8, exception_code],
            ),
        ) == (ParsedRead::Exception { function_code, exception_code }),
{
    let pdu = spec_read_response_pdu(function_code, values);
    let frame = spec_frame(transaction_id, unit_id, pdu);
    lemma_header_reads_back(transaction_id, unit_id, pdu);
    assert(pdu.len() == 2 + 2 * values.len());
    assert(frame[7] == pdu[0]);
    assert(frame[8] == pdu[1]);
    let read = Seq::new(
        (frame[8] as int / 2) as nat,
        |i: int| be_word(frame[9 + 2 * i], frame[10 + 2 * i]),
    );
    assert(read =~= values) by {
        assert forall|i: int| 0 <= i < values.len() implies read[i] == values[i] by {
            assert(frame[7 + (2 + 2 * i)] == pdu[2 + 2 * i]);
            assert(frame[7 + (3 + 2 * i)] == pdu[3 + 2 * i]);
            assert(pdu[2 + 2 * i] == words_be(values)[2 * i]);
            assert(pdu[3 + 2 * i] == words_be(values)[2 * i + 1]);
            lemma_be_word_round_trip(values[i]);
        }
    }
    let fault = seq![(function_code + 0x80) as u8, exception_code];
    lemma_header_reads_back(transaction_id, unit_id, fault);
    let fault_frame = spec_frame(transaction_id, unit_id, fault);
    assert(fault_frame[7] == fault[0]);
    assert(fault_frame[8] == fault[1]);
}

/// The reply that a well-formed response carries.
#[derive(Debug)]
pub enum ReadReply {
    /// An exception response
    Exception { function_code: u8, exception_code: u8 },
    /// The register values
    Values(Vec<u16>),
}

/// Whether `r` is the outcome that `parsed` calls for: the reply for an
/// exception or for values, `TransactionMismatch` for another transaction
/// id, and `InvalidResponse` with its reason for every malformed frame.
pub open spec fn read_result_matches(
    r: Result<ReadReply, IndustrialError>,
    parsed: ParsedRead,
) -> bool {
    match parsed {
        ParsedRead::TooShort => r matches Err(IndustrialError::InvalidResponse { reason })
            && reason@ == "Response too short"@,
        ParsedRead::BadProtocol(pid) => r matches Err(IndustrialError::InvalidResponse { reason })
            && reason@ == "Invalid protocol ID: "@ + decimal_digits(pid as nat),
        ParsedRead::Mismatch { expected, actual } => r matches Err(
            IndustrialError::TransactionMismatch { expected: e, actual: a },
        ) && e == expected && a == actual,
        ParsedRead::Truncated => r matches Err(IndustrialError::InvalidResponse { reason })
            && reason@ == "Response truncated"@,
        ParsedRead::Exception { function_code, exception_code } => r matches Ok(
            ReadReply::Exception { function_code: f, exception_code: c },
        ) && f == function_code && c == exception_code,
        ParsedRead::Values(values) => r matches Ok(ReadReply::Values(v)) && v@ == values,
    }
}

/// Builds the 7-byte header.
pub fn mbap_bytes(transaction_id: u16, pdu_length: usize, unit_id: u8) -> (header: [u8; 7])
    requires
        pdu_length < 65535,
    ensures
        header@ == spec_mbap(transaction_id, pdu_length as int, unit_id),
{
    let length: u16 = (pdu_length + 1) as u16;
    let header: [u8; 7] = [
        (transaction_id / 256) as u8,
        (transaction_id % 256) as u8,
        0,
        0,
        (length / 256) as u8,
        (length % 256) as u8,
        unit_id,
    ];
    assert(header@ =~= spec_mbap(transaction_id, pdu_length as int, unit_id));
    header
}

/// Builds a frame from its header fields and PDU.
pub fn build_frame(transaction_id: u16, unit_id: u8, pdu: &Vec<u8>) -> (frame: Vec<u8>)
    requires
        pdu@.len() < 65535,
    ensures
        frame@ == spec_frame(transaction_id, unit_id, pdu@),
{
    let header: [u8; 7] = mbap_bytes(transaction_id, pdu.len(), unit_id);
    let mut frame: Vec<u8> = Vec::new();
    let mut i: usize = 0;
    while i < 7
        invariant
            0 <= i <= 7,
            frame@ == header@.subrange(0, i as int),
        decreases 7 - i,
    {
        frame.push(header[i]);
        assert(frame@ =~= header@.subrange(0, i + 1));
        i = i + 1;
    }
    assert(frame@ =~= header@);
    let mut j: usize = 0;
    while j < pdu.len()
        invariant
            0 <= j <= pdu@.len(),
            frame@ == header@ + pdu@.subrange(0, j as int),
        decreases pdu@.len() - j,
    {
        frame.push(pdu[j]);
        assert(frame@ =~= header@ + pdu@.subrange(0, j + 1));
        j = j + 1;
    }
    assert(frame@ =~= header@ + pdu@);
    frame
}

/// Builds a PDU of function code, address and one 16-bit value.
pub fn short_pdu(function_code: u8, address: u16, value: u16) -> (pdu: Vec<u8>)
    ensures
        pdu@ == spec_short_pdu(function_code, address, value),
{
    let mut pdu: Vec<u8> = Vec::new();
    pdu.push(function_code);
    pdu.push((address / 256) as u8);
    pdu.push((address % 256) as u8);
    pdu.push((value / 256) as u8);
    pdu.push((value % 256) as u8);
    assert(pdu@ =~= spec_short_pdu(function_code, address, value));
    pdu
}

/// Reads the header of a frame: at least 8 bytes must be there, and the
/// protocol id must be zero.
pub fn parse_mbap(data: &[u8]) -> (r: Result<MbapHeader, IndustrialError>)
    ensures
        data@.len() < 8 ==> (r matches Err(IndustrialError::InvalidResponse { reason }) && reason@
            == "Response too short"@),
        data@.len() >= 8 && be_word(data@[2], data@[3]) != 0 ==> (r matches Err(
            IndustrialError::InvalidResponse { reason },
        ) && reason@ == "Invalid protocol ID: "@ + decimal_digits(
            be_word(data@[2], data@[3]) as nat,
        )),
        data@.len() >= 8 && be_word(data@[2], data@[3]) == 0 ==> r == Ok::<
            MbapHeader,
            IndustrialError,
        >(
            MbapHeader {
                transaction_id: be_word(data@[0], data@[1]),
                length: be_word(data@[4], data@[5]),
                unit_id: data@[6],
            },
        ),
{
    if data.len() < 8 {
        return Err(IndustrialError::InvalidResponse { reason: "Response too short".to_owned() });
    }
    let transaction_id: u16 = (data[0] as u16) * 256 + (data[1] as u16);
    let protocol_id: u16 = (data[2] as u16) * 256 + (data[3] as u16);
    let length: u16 = (data[4] as u16) * 256 + (data[5] as u16);
    let unit_id: u8 = data[6];
    if protocol_id != 0 {
        let mut reason: String = "Invalid protocol ID: ".to_owned();
        push_decimal(&mut reason, protocol_id as u128);
        return Err(IndustrialError::InvalidResponse { reason });
    }
    Ok(MbapHeader { transaction_id, length, unit_id })
}

/// Reads a response to a read request.
pub fn parse_read_response(expected: u16, data: &[u8]) -> (r: Result<ReadReply, IndustrialError>)
    ensures
        read_result_matches(r, spec_parse_read(expected, data@)),
{
    let header: MbapHeader = match parse_mbap(data) {
        Ok(h) => h,
        Err(e) => {
            return Err(e);
        },
    };
    if header.transaction_id != expected {
        return Err(
            IndustrialError::TransactionMismatch { expected, actual: header.transaction_id },
        );
    }
    if data.len() < 9 {
        return Err(IndustrialError::InvalidResponse { reason: "Response truncated".to_owned() });
    }
    let function_code: u8 = data[7];
    if function_code >= 0x80 {
        return Ok(
            ReadReply::Exception {
                function_code: function_code - 0x80,
                exception_code: data[8],
            },
        );
    }
    let count: usize = (data[8] as usize) / 2;
    if data.len() < 9 + 2 * count {
        return Err(IndustrialError::InvalidResponse { reason: "Response truncated".to_owned() });
    }
    let mut values: Vec<u16> = Vec::new();
    let mut i: usize = 0;
    while i < count
        invariant
            0 <= i <= count,
            count == data@[8] as int / 2,
            data@.len() >= 9 + 2 * count,
            values@.len() == i,
            forall|k: int|
                0 <= k < i ==> #[trigger] values@[k] == be_word(
                    data@[9 + 2 * k],
                    data@[10 + 2 * k],
                ),
        decreases count - i,
    {
        let value: u16 = (data[9 + 2 * i] as u16) * 256 + (data[10 + 2 * i] as u16);
        values.push(value);
        i = i + 1;
    }
    assert(values@ =~= Seq::new(
        (data@[8] as int / 2) as nat,
        |i: int| be_word(data@[9 + 2 * i], data@[10 + 2 * i]),
    ));
    Ok(ReadReply::Values(values))
}


/// Whether the completion of a request yields a response or exception
/// event: the transaction is in flight, the transport returned bytes, and
/// they parse as an exception or as values.
pub open spec fn completion_event_due(
    inflight: Map<u16, InFlight>,
    transaction_id: u16,
    outcome: Result<Vec<u8>, IndustrialError>,
) -> bool {
    inflight.contains_key(transaction_id) && (outcome matches Ok(bytes) && (spec_parse_read(
        transaction_id,
        bytes@,
    ) is Exception || spec_parse_read(transaction_id, bytes@) is Values))
}

/// At most one response per request: once a completion took a transaction
/// out of the table, no further completion for that id yields an event,
/// whatever the transport returned.
pub proof fn lemma_single_response(
    inflight: Map<u16, InFlight>,
    transaction_id: u16,
    later: Result<Vec<u8>, IndustrialError>,
)
    ensures
        !completion_event_due(inflight.remove(transaction_id), transaction_id, later),
{
}

/// The transport configuration of a device: the response timeout bounds
/// both reading and writing, the retry delay and count govern
/// reconnection, keepalive runs every 30 seconds and TCP_NODELAY is set.
pub open spec fn spec_tcp_config(config: DeviceConfig) -> TcpConfig {
    TcpConfig {
        remote_ip: config.ip_address,
        remote_port: config.port,
        connect_timeout_ms: config.connect_timeout_ms as u64,
        read_timeout_ms: config.response_timeout_ms as u64,
        write_timeout_ms: config.response_timeout_ms as u64,
        keepalive_interval_ms: Some(30_000u64),
        reconnect_delay_ms: config.retry_delay_ms as u64,
        max_reconnect_attempts: config.retry_count as u32,
        tcp_nodelay: true,
    }
}

/// Whether every nonzero transaction id is in flight.
pub open spec fn ids_exhausted(inflight: Map<u16, InFlight>) -> bool {
    forall|x: u16| x != 0 ==> inflight.contains_key(x)
}

/// Whether `id` is the transaction id that a new request gets: the first
/// nonzero id, counted cyclically from the id that the counter issues
/// next, that is not in flight.
pub open spec fn allocated_id(counter: u16, inflight: Map<u16, InFlight>, id: u16) -> bool {
    id != 0 && !inflight.contains_key(id) && exists|k: int|
        0 <= k < 65535 && id == #[trigger] nth_id(issued_id(counter), k) && forall|j: int|
            0 <= j < k ==> inflight.contains_key(#[trigger] nth_id(issued_id(counter), j))
}

/// What a transport's answer means for a read: the bytes of a response,
/// the transport's error, or `InvalidResponse` where the transport
/// returned without a response.
pub open spec fn answer_matches(
    answer: Result<Option<Vec<u8>>, IndustrialError>,
    outcome: Result<Vec<u8>, IndustrialError>,
) -> bool {
    match answer {
        Ok(Some(bytes)) => outcome == Ok::<Vec<u8>, IndustrialError>(bytes),
        Ok(None) => outcome matches Err(IndustrialError::InvalidResponse { reason }) && reason@
            == "No response"@,
        Err(e) => outcome == Err::<Vec<u8>, IndustrialError>(e),
    }
}

/// Turns a transport's answer into the outcome that ends a read.
pub fn transport_outcome(answer: Result<Option<Vec<u8>>, IndustrialError>) -> (outcome: Result<
    Vec<u8>,
    IndustrialError,
>)
    ensures
        answer_matches(answer, outcome),
{
    match answer {
        Ok(Some(bytes)) => Ok(bytes),
        Ok(None) => Err(IndustrialError::InvalidResponse { reason: "No response".to_owned() }),
        Err(e) => Err(e),
    }
}

/// The transaction id that a new request gets, where one is free: the
/// first nonzero id, counted cyclically from the id that the counter
/// issues next, that is not in flight.
pub open spec fn free_id(counter: u16, inflight: Map<u16, InFlight>) -> u16 {
    choose|id: u16| allocated_id(counter, inflight, id)
}

/// At most one id is the allocated one, so where an id is allocated it is
/// `free_id`.
pub proof fn lemma_allocated_id_is_unique(counter: u16, inflight: Map<u16, InFlight>, id: u16)
    requires
        allocated_id(counter, inflight, id),
    ensures
        free_id(counter, inflight) == id,
        !inflight.contains_key(issued_id(counter)) ==> id == issued_id(counter),
{
    let other = free_id(counter, inflight);
    assert(allocated_id(counter, inflight, other));
    let first = issued_id(counter);
    let k = choose|k: int|
        0 <= k < 65535 && id == #[trigger] nth_id(first, k) && forall|j: int|
            0 <= j < k ==> inflight.contains_key(#[trigger] nth_id(first, j));
    let m = choose|m: int|
        0 <= m < 65535 && other == #[trigger] nth_id(first, m) && forall|j: int|
            0 <= j < m ==> inflight.contains_key(#[trigger] nth_id(first, j));
    if k < m {
        assert(inflight.contains_key(nth_id(first, k)));
    }
    if m < k {
        assert(inflight.contains_key(nth_id(first, m)));
    }
    if !inflight.contains_key(first) && k > 0 {
        assert(inflight.contains_key(nth_id(first, 0)));
    }
}

/// The nonzero ids up to `n`.
pub open spec fn ids_up_to(n: int) -> Set<u16> {
    Set::new(|x: u16| 1 <= x <= n)
}

/// There are `n` nonzero ids up to `n`.
pub proof fn lemma_ids_up_to(n: int)
    requires
        0 <= n <= 65535,
    ensures
        ids_up_to(n).finite(),
        ids_up_to(n).len() == n,
    decreases n,
{
    if n == 0 {
        assert(ids_up_to(0) =~= Set::<u16>::empty());
    } else {
        lemma_ids_up_to(n - 1);
        assert(ids_up_to(n) =~= ids_up_to(n - 1).insert(n as u16));
    }
}

/// A table of fewer than 65535 requests leaves an id free.
pub proof fn lemma_table_has_room(inflight: Map<u16, InFlight>)
    requires
        inflight.dom().finite(),
        inflight.len() < 65535,
    ensures
        !ids_exhausted(inflight),
{
    if ids_exhausted(inflight) {
        lemma_ids_up_to(65535);
        assert(ids_up_to(65535).subset_of(inflight.dom())) by {
            assert forall|x: u16| ids_up_to(65535).contains(x) implies inflight.dom().contains(
                x,
            ) by {
                assert(inflight.contains_key(x));
            }
        }
        vstd::set_lib::lemma_len_subset(ids_up_to(65535), inflight.dom());
    }
}

/// MODBUS TCP client engine of one device.
///
/// It keeps the transaction-id counter and the table of requests in
/// flight.  No id in the table is zero.
pub struct ModbusTcpClient {
    config: DeviceConfig,
    counter: u16,
    inflight: HashMap<u16, InFlight>,
}

impl ModbusTcpClient {
    /// Validity of the engine: no request in flight carries the id zero.
    pub closed spec fn wf(&self) -> bool {
        !self.inflight@.contains_key(0u16)
    }

    /// No request in flight carries the transaction id zero.
    pub proof fn lemma_zero_never_in_flight(&self)
        requires
            self.wf(),
        ensures
            !self.inflight().contains_key(0u16),
    {
    }

    /// The device descriptor.
    pub closed spec fn config(&self) -> DeviceConfig {
        self.config
    }

    /// The transaction-id counter.
    pub closed spec fn counter(&self) -> u16 {
        self.counter
    }

    /// The requests in flight, by transaction id.
    pub closed spec fn inflight(&self) -> Map<u16, InFlight> {
        self.inflight@
    }

    /// Creates the engine of a device: the counter stands at 1 and nothing
    /// is in flight.
    pub fn new(config: DeviceConfig) -> (client: Self)
        ensures
            client.wf(),
            client.config() == config,
            client.counter() == 1,
            client.inflight() == Map::<u16, InFlight>::empty(),
    {
        ModbusTcpClient { config, counter: 1, inflight: HashMap::new() }
    }

    /// Returns the device id.
    pub fn device_id(&self) -> (id: &str)
        ensures
            id@ == self.config().device_id@,
    {
        self.config.device_id.as_str()
    }

    /// Returns the unit selector.
    pub fn unit_id(&self) -> (unit: u8)
        ensures
            unit == self.config().unit_id,
    {
        self.config.unit_id
    }

    /// Returns the transport configuration of the device.
    pub fn tcp_config(&self) -> (c: TcpConfig)
        ensures
            c == spec_tcp_config(self.config()),
    {
        TcpConfig {
            remote_ip: self.config.ip_address,
            remote_port: self.config.port,
            connect_timeout_ms: self.config.connect_timeout_ms as u64,
            read_timeout_ms: self.config.response_timeout_ms as u64,
            write_timeout_ms: self.config.response_timeout_ms as u64,
            keepalive_interval_ms: Some(30_000),
            reconnect_delay_ms: self.config.retry_delay_ms as u64,
            max_reconnect_attempts: self.config.retry_count as u32,
            tcp_nodelay: true,
        }
    }

    /// Returns whether the device is enabled.
    pub fn is_enabled(&self) -> (b: bool)
        ensures
            b == self.config().enabled,
    {
        self.config.enabled
    }

    /// Returns whether a transaction id is in flight.  Zero never is.
    pub fn is_in_flight(&self, transaction_id: u16) -> (b: bool)
        requires
            self.wf(),
        ensures
            b == self.inflight().contains_key(transaction_id),
            transaction_id == 0 ==> !b,
    {
        self.inflight.contains_key(&transaction_id)
    }

    /// Returns the number of requests in flight.
    pub fn in_flight_count(&self) -> (n: usize)
        ensures
            n == self.inflight().len(),
    {
        self.inflight.len()
    }

    /// One step of the counter: returns the counter's value, skipping zero,
    /// and leaves the counter one past it, wrapping at 16 bits.
    fn advance(&mut self) -> (id: u16)
        requires
            old(self).wf(),
        ensures
            final(self).wf(),
            id != 0,
            id == issued_id(old(self).counter()),
            final(self).counter() == counter_after(id),
            final(self).inflight() == old(self).inflight(),
            final(self).config() == old(self).config(),
    {
        let id: u16 = if self.counter == 0 {
            1
        } else {
            self.counter
        };
        self.counter = if id == 65535 {
            0
        } else {
            id + 1
        };
        id
    }

    /// Issues the next transaction id: the first nonzero id from the
    /// counter's value on, counted cyclically, that is not in flight.  The
    /// counter then stands one past the id, wrapping at 16 bits.  The table
    /// must leave an id free: it holds fewer than 65535 requests.
    pub fn next_transaction_id(&mut self) -> (id: u16)
        requires
            old(self).wf(),
            old(self).inflight().len() < 65535,
        ensures
            final(self).wf(),
            id != 0,
            !old(self).inflight().contains_key(id),
            id == free_id(old(self).counter(), old(self).inflight()),
            allocated_id(old(self).counter(), old(self).inflight(), id),
            !old(self).inflight().contains_key(issued_id(old(self).counter())) ==> id
                == issued_id(old(self).counter()),
            final(self).counter() == counter_after(id),
            final(self).inflight() == old(self).inflight(),
            final(self).config() == old(self).config(),
    {
        proof {
            lemma_table_has_room(self.inflight@);
        }
        match self.allocate() {
            Some(id) => {
                proof {
                    lemma_allocated_id_is_unique(old(self).counter(), old(self).inflight(), id);
                }
                id
            },
            // not reached: the table leaves an id free
            None => 1,
        }
    }

    /// Builds the header for a PDU of `pdu_length` bytes.
    pub fn build_mbap(&self, transaction_id: u16, pdu_length: usize) -> (header: [u8; 7])
        requires
            pdu_length < 65535,
        ensures
            header@ == spec_mbap(transaction_id, pdu_length as int, self.config().unit_id),
    {
        mbap_bytes(transaction_id, pdu_length, self.config.unit_id)
    }

    /// Issues ids until one is not in flight.  Returns `None` when every
    /// nonzero id is in flight.
    fn allocate(&mut self) -> (r: Option<u16>)
        requires
            old(self).wf(),
        ensures
            final(self).wf(),
            final(self).inflight() == old(self).inflight(),
            final(self).config() == old(self).config(),
            r is None <==> ids_exhausted(old(self).inflight()),
            r matches Some(id) ==> allocated_id(old(self).counter(), old(self).inflight(), id)
                && id == free_id(old(self).counter(), old(self).inflight())
                && final(self).counter() == counter_after(id),
    {
        let first: u16 = self.advance();
        let mut id: u16 = first;
        let mut k: u32 = 0;
        while k < 65535 && self.inflight.contains_key(&id)
            invariant
                0 <= k <= 65535,
                first != 0,
                first == issued_id(old(self).counter()),
                id != 0,
                id == nth_id(first, k as int),
                self.counter() == counter_after(id),
                self.inflight() == old(self).inflight(),
                self.config() == old(self).config(),
                self.wf(),
                forall|j: int|
                    0 <= j < k ==> old(self).inflight().contains_key(#[trigger] nth_id(first, j)),
            decreases 65535 - k,
        {
            k = k + 1;
            id = self.advance();
        }
        if k == 65535 {
            assert forall|x: u16| x != 0 implies old(self).inflight().contains_key(x) by {
                let j: int = (x - first + 65535) % 65535;
                assert(nth_id(first, j) == x);
            }
            None
        } else {
            assert(!old(self).inflight().contains_key(id));
            assert(id == nth_id(first, k as int));
            proof {
                lemma_allocated_id_is_unique(old(self).counter(), old(self).inflight(), id);
            }
            Some(id)
        }
    }

    /// What `read` does to an engine and returns.  When every nonzero id is
    /// in flight, the result is an `Internal` error and the table is
    /// unchanged.  Otherwise the request is recorded as in flight under
    /// the allocated transaction id, the counter stands behind that id, and
    /// the ticket holds the frame of the read request and the request
    /// event.
    pub open spec fn read_started(
        &self,
        after: Self,
        request: ModbusReadRequest,
        now_ns: u64,
        r: Result<ReadTicket, IndustrialError>,
    ) -> bool {
        &&& after.wf()
        &&& after.config() == self.config()
        &&& r is Err <==> ids_exhausted(self.inflight())
        &&& r matches Err(e) ==> (e matches IndustrialError::Internal { reason } && reason@
            == "No free transaction id"@) && after.inflight() == self.inflight()
        &&& r matches Ok(ticket) ==> {
            &&& allocated_id(self.counter(), self.inflight(), ticket.transaction_id)
            &&& ticket.transaction_id == free_id(self.counter(), self.inflight())
            &&& after.inflight() == self.inflight().insert(
                ticket.transaction_id,
                InFlight { request_id: request.request_id, sent_ns: now_ns },
            )
            &&& after.counter() == counter_after(ticket.transaction_id)
            &&& ticket.frame@ == spec_frame(
                ticket.transaction_id,
                self.config().unit_id,
                spec_short_pdu(
                    request.register_type.spec_read_function_code(),
                    request.address,
                    request.quantity,
                ),
            )
            &&& ticket.event matches ModbusEvent::Request {
                device_id,
                transaction_id,
                function_code,
                address,
                quantity,
                timestamp_ns,
            } && device_id@ == self.config().device_id@ && transaction_id
                == ticket.transaction_id && function_code
                == request.register_type.spec_read_function_code() && address == request.address
                && quantity == request.quantity && timestamp_ns == now_ns
        }
    }

    /// What `complete_read` does to an engine and returns.
    ///
    /// A transaction id that is not in flight gives `InvalidResponse`, no
    /// event, and leaves the table as it is.  Otherwise the id leaves the
    /// table, and:
    /// - a transport error is handed on, without an event;
    /// - a malformed frame gives `InvalidResponse`, another transaction id
    ///   `TransactionMismatch`, both without an event;
    /// - an exception gives an unsuccessful response with the exception
    ///   code and an `Exception` event;
    /// - values give a successful response and a `Response` event.
    pub open spec fn read_completed(
        &self,
        after: Self,
        transaction_id: u16,
        outcome: Result<Vec<u8>, IndustrialError>,
        recv_ns: u64,
        done: ReadCompletion,
    ) -> bool {
        &&& after.wf()
        &&& after.config() == self.config()
        &&& after.counter() == self.counter()
        &&& after.inflight() == self.inflight().remove(transaction_id)
        &&& done.event is Some <==> completion_event_due(self.inflight(), transaction_id, outcome)
        &&& !self.inflight().contains_key(transaction_id) ==> done.event is None && (
        done.result matches Err(IndustrialError::InvalidResponse { reason }) && reason@
            == "Unknown transaction"@)
        &&& self.inflight().contains_key(transaction_id) ==> (match outcome {
            Err(e) => done.event is None && done.result == Err::<
                ModbusReadResponse,
                IndustrialError,
            >(e),
            Ok(bytes) => read_completion_matches(
                done,
                spec_parse_read(transaction_id, bytes@),
                self.config().device_id@,
                transaction_id,
                self.inflight()[transaction_id],
                recv_ns,
            ),
        })
    }

    /// Starts a read.  The engine allocates a transaction id that is not in
    /// flight, records the request under it and returns the frame to send
    /// with the request event.
    pub fn read(&mut self, request: ModbusReadRequest, now_ns: u64) -> (r: Result<
        ReadTicket,
        IndustrialError,
    >)
        requires
            old(self).wf(),
        ensures
            old(self).read_started(*final(self), request, now_ns, r),
    {
        let transaction_id: u16 = match self.allocate() {
            Some(id) => id,
            None => {
                return Err(
                    IndustrialError::Internal { reason: "No free transaction id".to_owned() },
                );
            },
        };
        let function_code: u8 = request.register_type.read_function_code();
        let pdu: Vec<u8> = short_pdu(function_code, request.address, request.quantity);
        let frame: Vec<u8> = build_frame(transaction_id, self.config.unit_id, &pdu);
        self.inflight.insert(
            transaction_id,
            InFlight { request_id: request.request_id, sent_ns: now_ns },
        );
        let event = ModbusEvent::Request {
            device_id: self.config.device_id.clone(),
            transaction_id,
            function_code,
            address: request.address,
            quantity: request.quantity,
            timestamp_ns: now_ns,
        };
        Ok(ReadTicket { transaction_id, frame, event })
    }

    /// Ends a read with what the transport returned.
    pub fn complete_read(
        &mut self,
        transaction_id: u16,
        outcome: Result<Vec<u8>, IndustrialError>,
        recv_ns: u64,
    ) -> (done: ReadCompletion)
        requires
            old(self).wf(),
        ensures
            old(self).read_completed(*final(self), transaction_id, outcome, recv_ns, done),
    {
        let entry: InFlight = match self.inflight.remove(&transaction_id) {
            Some(entry) => entry,
            None => {
                assert(self.inflight@ =~= old(self).inflight@.remove(transaction_id));
                return ReadCompletion {
                    result: Err(
                        IndustrialError::InvalidResponse {
                            reason: "Unknown transaction".to_owned(),
                        },
                    ),
                    event: None,
                };
            },
        };
        let bytes: Vec<u8> = match outcome {
            Ok(bytes) => bytes,
            Err(e) => {
                return ReadCompletion { result: Err(e), event: None };
            },
        };
        let latency: u32 = latency_us(entry.sent_ns, recv_ns);
        match parse_read_response(transaction_id, bytes.as_slice()) {
            Err(e) => ReadCompletion { result: Err(e), event: None },
            Ok(ReadReply::Exception { function_code, exception_code }) => ReadCompletion {
                result: Ok(
                    ModbusReadResponse {
                        request_id: entry.request_id,
                        transaction_id,
                        success: false,
                        values: Vec::new(),
                        exception_code: Some(exception_code),
                        latency_us: latency,
                    },
                ),
                event: Some(
                    ModbusEvent::Exception {
                        device_id: self.config.device_id.clone(),
                        transaction_id,
                        function_code,
                        exception_code,
                        timestamp_ns: recv_ns,
                    },
                ),
            },
            Ok(ReadReply::Values(values)) => ReadCompletion {
                result: Ok(
                    ModbusReadResponse {
                        request_id: entry.request_id,
                        transaction_id,
                        success: true,
                        values,
                        exception_code: None,
                        latency_us: latency,
                    },
                ),
                event: Some(
                    ModbusEvent::Response {
                        device_id: self.config.device_id.clone(),
                        transaction_id,
                        success: true,
                        latency_us: latency,
                        timestamp_ns: recv_ns,
                    },
                ),
            },
        }
    }

    /// Whether a read over a transport went as `read` and `complete_read`
    /// say, for the given times, ticket, transport answer and engine in
    /// between.  Without a free transaction id nothing is sent and the
    /// error is the result.
    pub open spec fn read_exchanged(
        &self,
        after: Self,
        request: ModbusReadRequest,
        exchange: ReadExchange,
        sent_ns: u64,
        recv_ns: u64,
        ticket: Result<ReadTicket, IndustrialError>,
        between: Self,
        outcome: Result<Vec<u8>, IndustrialError>,
    ) -> bool {
        &&& self.read_started(between, request, sent_ns, ticket)
        &&& match ticket {
            Err(e) => after == between && exchange.request_event is None
                && exchange.completion.event is None && exchange.completion.result == Err::<
                ModbusReadResponse,
                IndustrialError,
            >(e),
            Ok(t) => exchange.request_event == Some(t.event) && between.read_completed(
                after,
                t.transaction_id,
                outcome,
                recv_ns,
                exchange.completion,
            ),
        }
    }

    /// Reads registers over a transport: starts the read, sends the frame,
    /// waits for the response and ends the read with it.  The times are
    /// those of the clock before and after the exchange.  Whatever the
    /// transport answers, the read goes as `read` and `complete_read` say;
    /// afterwards the request is no longer in flight.
    pub fn read_through<T: Transport>(&mut self, transport: &mut T, request: ModbusReadRequest) -> (exchange:
        ReadExchange)
        requires
            old(self).wf(),
        ensures
            final(self).wf(),
            final(self).config() == old(self).config(),
            exists|
                sent_ns: u64,
                recv_ns: u64,
                ticket: Result<ReadTicket, IndustrialError>,
                between: Self,
                outcome: Result<Vec<u8>, IndustrialError>,
            | #[trigger]
                old(self).read_exchanged(
                    *final(self),
                    request,
                    exchange,
                    sent_ns,
                    recv_ns,
                    ticket,
                    between,
                    outcome,
                ),
    {
        let sent_ns: u64 = timestamp_ns();
        let started: Result<ReadTicket, IndustrialError> = self.read(request, sent_ns);
        let ghost between = *self;
        let ghost ticket = started;
        let t: ReadTicket = match started {
            Ok(t) => t,
            Err(e) => {
                let exchange = ReadExchange {
                    request_event: None,
                    completion: ReadCompletion { result: Err(e), event: None },
                };
                assert(old(self).read_exchanged(
                    *self,
                    request,
                    exchange,
                    sent_ns,
                    0,
                    ticket,
                    between,
                    Err::<Vec<u8>, IndustrialError>(e),
                ));
                return exchange;
            },
        };
        let answer: Result<Option<Vec<u8>>, IndustrialError> = transport.send(
            t.frame.as_slice(),
            true,
        );
        let outcome: Result<Vec<u8>, IndustrialError> = transport_outcome(answer);
        let ghost handed = outcome;
        let recv_ns: u64 = timestamp_ns();
        let completion: ReadCompletion = self.complete_read(t.transaction_id, outcome, recv_ns);
        let exchange = ReadExchange { request_event: Some(t.event), completion };
        assert(old(self).read_exchanged(
            *self,
            request,
            exchange,
            sent_ns,
            recv_ns,
            ticket,
            between,
            handed,
        ));
        exchange
    }

    /// What `write_single` does to an engine and returns.  Without a value
    /// the result is `InvalidConfig` and nothing changes.  Otherwise a
    /// transaction id that is not in flight is issued; when every nonzero
    /// id is in flight, the result is an `Internal` error.  A read-only
    /// register class then gives `InvalidConfig`, and a writable one the
    /// frame of the write of the first value under the issued id.
    pub open spec fn single_write_built(
        &self,
        after: Self,
        register_type: RegisterType,
        address: u16,
        values: Seq<u16>,
        r: Result<Vec<u8>, IndustrialError>,
    ) -> bool {
        &&& after.wf()
        &&& after.config() == self.config()
        &&& after.inflight() == self.inflight()
        &&& if values.len() == 0 {
            (r matches Err(IndustrialError::InvalidConfig { reason }) && reason@
                == "No values to write"@) && after.counter() == self.counter()
        } else if ids_exhausted(self.inflight()) {
            r matches Err(IndustrialError::Internal { reason }) && reason@
                == "No free transaction id"@
        } else {
            &&& allocated_id(self.counter(), self.inflight(), free_id(self.counter(), self.inflight()))
            &&& after.counter() == counter_after(free_id(self.counter(), self.inflight()))
            &&& match register_type.spec_write_function_code() {
                None => r matches Err(IndustrialError::InvalidConfig { reason }) && reason@
                    == "Cannot write to read-only register type"@,
                Some(function_code) => r matches Ok(frame) && frame@ == spec_frame(
                    free_id(self.counter(), self.inflight()),
                    self.config().unit_id,
                    spec_short_pdu(
                        function_code,
                        address,
                        spec_single_write_value(register_type, values[0]),
                    ),
                ),
            }
        }
    }

    /// What `write_multiple` does to an engine and returns.  A transaction
    /// id that is not in flight is issued; when every nonzero id is in
    /// flight, the result is an `Internal` error.  A read-only register
    /// class, or more than 127 values (the byte count is one byte), then
    /// give `InvalidConfig`; otherwise the result is the frame of the write
    /// under the issued id, with explicit quantity and byte count.
    pub open spec fn multiple_write_built(
        &self,
        after: Self,
        register_type: RegisterType,
        address: u16,
        values: Seq<u16>,
        r: Result<Vec<u8>, IndustrialError>,
    ) -> bool {
        &&& after.wf()
        &&& after.config() == self.config()
        &&& after.inflight() == self.inflight()
        &&& if ids_exhausted(self.inflight()) {
            r matches Err(IndustrialError::Internal { reason }) && reason@
                == "No free transaction id"@
        } else {
            &&& allocated_id(self.counter(), self.inflight(), free_id(self.counter(), self.inflight()))
            &&& after.counter() == counter_after(free_id(self.counter(), self.inflight()))
            &&& match register_type.spec_write_multiple_function_code() {
                None => r matches Err(IndustrialError::InvalidConfig { reason }) && reason@
                    == "Cannot write to read-only register type"@,
                Some(function_code) => if values.len() > 127 {
                    r matches Err(IndustrialError::InvalidConfig { reason }) && reason@
                        == "Too many values to write"@
                } else {
                    r matches Ok(frame) && frame@ == spec_frame(
                        free_id(self.counter(), self.inflight()),
                        self.config().unit_id,
                        spec_write_multiple_pdu(function_code, address, values),
                    )
                },
            }
        }
    }

    /// Builds the frame of a single write (function code 0x06 for a holding
    /// register, 0x05 for a coil).
    pub fn write_single(&mut self, request: &ModbusWriteRequest) -> (r: Result<
        Vec<u8>,
        IndustrialError,
    >)
        requires
            old(self).wf(),
        ensures
            old(self).single_write_built(
                *final(self),
                request.register_type,
                request.address,
                request.values@,
                r,
            ),
    {
        if request.values.len() == 0 {
            return Err(IndustrialError::InvalidConfig { reason: "No values to write".to_owned() });
        }
        let transaction_id: u16 = match self.allocate() {
            Some(id) => id,
            None => {
                return Err(
                    IndustrialError::Internal { reason: "No free transaction id".to_owned() },
                );
            },
        };
        let function_code: u8 = match request.register_type.write_function_code() {
            Some(fc) => fc,
            None => {
                return Err(
                    IndustrialError::InvalidConfig {
                        reason: "Cannot write to read-only register type".to_owned(),
                    },
                );
            },
        };
        let value: u16 = if request.register_type == RegisterType::Coil {
            if request.values[0] != 0 {
                0xFF00
            } else {
                0x0000
            }
        } else {
            request.values[0]
        };
        let pdu: Vec<u8> = short_pdu(function_code, request.address, value);
        Ok(build_frame(transaction_id, self.config.unit_id, &pdu))
    }

    /// Builds the frame of a multi-word write (function code 0x10 for
    /// holding registers, 0x0F for coils), with explicit quantity and byte
    /// count.
    pub fn write_multiple(&mut self, request: &ModbusWriteRequest) -> (r: Result<
        Vec<u8>,
        IndustrialError,
    >)
        requires
            old(self).wf(),
        ensures
            old(self).multiple_write_built(
                *final(self),
                request.register_type,
                request.address,
                request.values@,
                r,
            ),
    {
        let transaction_id: u16 = match self.allocate() {
            Some(id) => id,
            None => {
                return Err(
                    IndustrialError::Internal { reason: "No free transaction id".to_owned() },
                );
            },
        };
        let function_code: u8 = match request.register_type.write_multiple_function_code() {
            Some(fc) => fc,
            None => {
                return Err(
                    IndustrialError::InvalidConfig {
                        reason: "Cannot write to read-only register type".to_owned(),
                    },
                );
            },
        };
        if request.values.len() > 127 {
            return Err(
                IndustrialError::InvalidConfig { reason: "Too many values to write".to_owned() },
            );
        }
        let quantity: u16 = request.values.len() as u16;
        let byte_count: u8 = (quantity * 2) as u8;
        let mut pdu: Vec<u8> = Vec::new();
        pdu.push(function_code);
        pdu.push((request.address / 256) as u8);
        pdu.push((request.address % 256) as u8);
        pdu.push((quantity / 256) as u8);
        pdu.push((quantity % 256) as u8);
        pdu.push(byte_count);
        let ghost head: Seq<u8> = pdu@;
        let mut i: usize = 0;
        while i < request.values.len()
            invariant
                0 <= i <= request.values@.len(),
                request.values@.len() <= 127,
                pdu@ == head + words_be(request.values@.subrange(0, i as int)),
            decreases request.values@.len() - i,
        {
            let value: u16 = request.values[i];
            pdu.push((value / 256) as u8);
            pdu.push((value % 256) as u8);
            assert(pdu@ =~= head + words_be(request.values@.subrange(0, i + 1)));
            i = i + 1;
        }
        assert(request.values@.subrange(0, i as int) =~= request.values@);
        assert(pdu@ =~= spec_write_multiple_pdu(function_code, request.address, request.values@));
        Ok(build_frame(transaction_id, self.config.unit_id, &pdu))
    }

    /// Starts a read of holding registers.
    pub fn read_holding_registers(
        &mut self,
        request_id: u32,
        address: u16,
        quantity: u16,
        now_ns: u64,
    ) -> (r: Result<ReadTicket, IndustrialError>)
        requires
            old(self).wf(),
        ensures
            old(self).read_started(
                *final(self),
                ModbusReadRequest {
                    request_id,
                    register_type: RegisterType::Holding,
                    address,
                    quantity,
                },
                now_ns,
                r,
            ),
    {
        self.read(
            ModbusReadRequest { request_id, register_type: RegisterType::Holding, address, quantity },
            now_ns,
        )
    }

    /// Starts a read of input registers.
    pub fn read_input_registers(
        &mut self,
        request_id: u32,
        address: u16,
        quantity: u16,
        now_ns: u64,
    ) -> (r: Result<ReadTicket, IndustrialError>)
        requires
            old(self).wf(),
        ensures
            old(self).read_started(
                *final(self),
                ModbusReadRequest {
                    request_id,
                    register_type: RegisterType::Input,
                    address,
                    quantity,
                },
                now_ns,
                r,
            ),
    {
        self.read(
            ModbusReadRequest { request_id, register_type: RegisterType::Input, address, quantity },
            now_ns,
        )
    }
}

/// Whether a completion is the one that a parsed response calls for.
pub open spec fn read_completion_matches(
    done: ReadCompletion,
    parsed: ParsedRead,
    device_id: Seq<char>,
    transaction_id: u16,
    entry: InFlight,
    recv_ns: u64,
) -> bool {
    match parsed {
        ParsedRead::TooShort => done.event is None && (done.result matches Err(
            IndustrialError::InvalidResponse { reason },
        ) && reason@ == "Response too short"@),
        ParsedRead::BadProtocol(pid) => done.event is None && (done.result matches Err(
            IndustrialError::InvalidResponse { reason },
        ) && reason@ == "Invalid protocol ID: "@ + decimal_digits(pid as nat)),
        ParsedRead::Mismatch { expected, actual } => done.event is None && (
        done.result matches Err(IndustrialError::TransactionMismatch { expected: e, actual: a })
            && e == expected && a == actual),
        ParsedRead::Truncated => done.event is None && (done.result matches Err(
            IndustrialError::InvalidResponse { reason },
        ) && reason@ == "Response truncated"@),
        ParsedRead::Exception { function_code, exception_code } => {
            &&& done.result matches Ok(response) && response.request_id == entry.request_id
                && response.transaction_id == transaction_id && !response.success
                && response.values@.len() == 0 && response.exception_code == Some(exception_code)
                && response.latency_us == spec_latency_us(entry.sent_ns, recv_ns)
            &&& done.event matches Some(
                ModbusEvent::Exception {
                    device_id: d,
                    transaction_id: t,
                    function_code: f,
                    exception_code: c,
                    timestamp_ns: ts,
                },
            ) && d@ == device_id && t == transaction_id && f == function_code && c
                == exception_code && ts == recv_ns
        },
        ParsedRead::Values(values) => {
            &&& done.result matches Ok(response) && response.request_id == entry.request_id
                && response.transaction_id == transaction_id && response.success
                && response.values@ == values && response.exception_code is None
                && response.latency_us == spec_latency_us(entry.sent_ns, recv_ns)
            &&& done.event matches Some(
                ModbusEvent::Response {
                    device_id: d,
                    transaction_id: t,
                    success,
                    latency_us: l,
                    timestamp_ns: ts,
                },
            ) && d@ == device_id && t == transaction_id && success && l == spec_latency_us(
                entry.sent_ns,
                recv_ns,
            ) && ts == recv_ns
        },
    }
}

/// Turns a read response into its values: the values of a successful
/// response, otherwise the exception error for the function code, with
/// exception code zero where the response carries none.
pub fn registers_result(function_code: u8, response: ModbusReadResponse) -> (r: Result<
    Vec<u16>,
    IndustrialError,
>)
    ensures
        response.success ==> r == Ok::<Vec<u16>, IndustrialError>(response.values),
        !response.success ==> (r matches Err(
            IndustrialError::ModbusException { function_code: f, exception_code: c, message },
        ) && f == function_code && c == (match response.exception_code {
            Some(code) => code,
            None => 0u8,
        }) && message@ == spec_exception_message(c)),
{
    if response.success {
        Ok(response.values)
    } else {
        let code: u8 = match response.exception_code {
            Some(code) => code,
            None => 0,
        };
        Err(IndustrialError::modbus_exception(function_code, code))
    }
}

} // verus!
