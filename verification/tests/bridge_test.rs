use estream_runtime::industrial::emitter::{AlarmEventOutput, StreamEvent};
use estream_runtime::industrial::protocol::ModbusEvent;
use estream_runtime::industrial::streamsight::{
    BridgeConfig, GatewayHealthEvent, LexEvent, PayloadField, PayloadValue, Severity,
    StreamSightBridge, TelemetryEvent,
};
use estream_runtime::industrial::transport::TcpEvent;
use estream_runtime::industrial::types::{AlarmSeverity, AlarmState, ConnectionState, Quality};
use estream_runtime::industrial::value::Reading;

fn state_change() -> TelemetryEvent {
    TelemetryEvent::TcpEvent(TcpEvent::StateChange {
        old_state: ConnectionState::Disconnected,
        new_state: ConnectionState::Connected,
        timestamp_ns: 12345,
    })
}

fn debug_event() -> TelemetryEvent {
    TelemetryEvent::TcpEvent(TcpEvent::RequestSent { request_id: 1, bytes: 12, timestamp_ns: 1 })
}

fn warning_event() -> TelemetryEvent {
    TelemetryEvent::ModbusEvent(ModbusEvent::Exception {
        device_id: "p".into(),
        transaction_id: 7,
        function_code: 3,
        exception_code: 2,
        timestamp_ns: 44,
    })
}

fn alarm(severity: AlarmSeverity, state: AlarmState) -> AlarmEventOutput {
    AlarmEventOutput {
        alarm_id: "a1".into(),
        name: "High".into(),
        state,
        severity,
        current_value: Reading::Number(81_000_000),
        threshold_value: 80_000_000,
        message: "High triggered: 81 > 80".into(),
        timestamp_ns: 9,
    }
}

fn text(fields: &[PayloadField], key: &str) -> String {
    match fields.iter().find(|f| f.key == key).map(|f| &f.value) {
        Some(PayloadValue::Text(s)) => s.clone(),
        _ => panic!("no text field {}", key),
    }
}

fn number(fields: &[PayloadField], key: &str) -> u64 {
    match fields.iter().find(|f| f.key == key).map(|f| &f.value) {
        Some(PayloadValue::U64(v)) => *v,
        _ => panic!("no number field {}", key),
    }
}

fn keys(fields: &[PayloadField]) -> Vec<&str> {
    fields.iter().map(|f| f.key.as_str()).collect()
}

fn bridge(batch_size: u16, severity_filter: u8, sampling_rate_ppm: u32) -> StreamSightBridge {
    StreamSightBridge::new(BridgeConfig { batch_size, severity_filter, sampling_rate_ppm, ..Default::default() })
}

#[test]
fn test_bridge_processes_tcp_event() {
    let mut bridge = StreamSightBridge::new(BridgeConfig::default());

    let sent = bridge.process(state_change(), 0);
    assert!(sent.is_empty());

    let batch: Vec<LexEvent> = bridge.flush();

    assert_eq!(batch.len(), 1);
    assert!(batch[0].timestamp_ns > 1_000_000_000_000_000_000);
}

#[test]
fn batch_of_three_flushes_after_the_third_admitted_event() {
    let mut b = bridge(3, 1, 1_000_000);
    assert!(b.process_at(debug_event(), 0, 1).is_empty());
    assert!(b.process_at(state_change(), 0, 2).is_empty());
    assert!(b.process_at(state_change(), 0, 3).is_empty());
    let batch = b.process_at(warning_event(), 0, 4);
    assert_eq!(batch.len(), 3);
    assert_eq!(batch.iter().map(|e| e.severity).collect::<Vec<_>>(), vec![1, 1, 2]);
    assert_eq!(batch.iter().map(|e| e.sequence_number).collect::<Vec<_>>(), vec![1, 2, 3]);
    assert_eq!(batch.iter().map(|e| e.timestamp_ns).collect::<Vec<_>>(), vec![2, 3, 4]);
    let m = b.metrics();
    assert_eq!(m.events_received, 4);
    assert_eq!(m.events_filtered, 1);
    assert_eq!(m.events_sampled_out, 0);
    assert_eq!(m.events_emitted, 3);
    assert_eq!(m.batches_sent, 1);
    assert_eq!(b.buffered(), 0);
    assert!(b.flush().is_empty());
    assert_eq!(b.metrics().batches_sent, 1);
}

#[test]
fn every_event_is_accounted_for() {
    let mut b = bridge(4, 1, 500_000);
    let mut forwarded: u64 = 0;
    for i in 0..50u32 {
        let event = match i % 3 {
            0 => debug_event(),
            1 => state_change(),
            _ => warning_event(),
        };
        forwarded += b.process_at(event, (i * 37_003) % 1_000_000, i as u64).len() as u64;
        let m = b.metrics();
        assert_eq!(
            m.events_received,
            m.events_emitted + m.events_filtered + m.events_sampled_out + b.buffered() as u64
        );
        assert_eq!(m.events_emitted, forwarded);
    }
    assert_eq!(b.metrics().events_received, 50);
}

#[test]
fn debug_events_are_sampled_by_the_draw() {
    let mut b = bridge(100, 0, 250_000);
    assert!(b.process_at(debug_event(), 250_000, 1).is_empty());
    assert_eq!(b.buffered(), 1);
    b.process_at(debug_event(), 250_001, 1);
    assert_eq!(b.buffered(), 1);
    assert_eq!(b.metrics().events_sampled_out, 1);
    b.process_at(debug_event(), 0, 1);
    assert_eq!(b.buffered(), 2);
    // events above debug are never sampled
    b.process_at(state_change(), 999_999, 1);
    assert_eq!(b.buffered(), 3);
    // a rate of one keeps every draw
    let mut all = bridge(100, 0, 1_000_000);
    all.process_at(debug_event(), u32::MAX, 1);
    assert_eq!(all.buffered(), 1);
    assert_eq!(all.metrics().events_sampled_out, 0);
}

#[test]
fn filter_compares_levels() {
    let mut b = bridge(100, 3, 1_000_000);
    b.process_at(warning_event(), 0, 1);
    b.process_at(TelemetryEvent::AlarmEvent(alarm(AlarmSeverity::Warning, AlarmState::Active)), 0, 1);
    assert_eq!(b.metrics().events_filtered, 2);
    b.process_at(TelemetryEvent::AlarmEvent(alarm(AlarmSeverity::Critical, AlarmState::Active)), 0, 1);
    assert_eq!(b.buffered(), 1);
    assert_eq!(Severity::Debug.level(), 0);
    assert_eq!(Severity::Info.level(), 1);
    assert_eq!(Severity::Warning.level(), 2);
    assert_eq!(Severity::Error.level(), 3);
}

#[test]
fn topics_hold_the_hex_of_sixteen_bytes() {
    let mut id = [0u8; 32];
    for (i, b) in id.iter_mut().enumerate() {
        *b = (i as u8) * 17;
    }
    let b = StreamSightBridge::new(BridgeConfig { gateway_id: id, ..Default::default() });
    let hex = "00112233445566778899aabbccddeeff";
    assert_eq!(b.gateway_id_hex(), hex);
    let base = format!("lex://estream/sys/industrial/{}", hex);
    let (topic, payload, severity) = b.process_tcp_event(&TcpEvent::StateChange {
        old_state: ConnectionState::Connecting,
        new_state: ConnectionState::Reconnecting,
        timestamp_ns: 5,
    });
    assert_eq!(topic, format!("{}/connection", base));
    assert_eq!(severity, Severity::Info);
    assert_eq!(keys(&payload), vec!["type", "old_state", "new_state", "timestamp_ns"]);
    assert_eq!(text(&payload, "type"), "state_change");
    assert_eq!(text(&payload, "old_state"), "Connecting");
    assert_eq!(text(&payload, "new_state"), "Reconnecting");
    assert_eq!(number(&payload, "timestamp_ns"), 5);

    let (topic, payload, severity) = b.process_tcp_event(&TcpEvent::Error {
        error_code: 101,
        message: "timeout".into(),
        timestamp_ns: 6,
    });
    assert_eq!(topic, format!("{}/connection", base));
    assert_eq!(severity, Severity::Warning);
    assert_eq!(number(&payload, "error_code"), 101);
    assert_eq!(text(&payload, "message"), "timeout");

    let (_, payload, severity) = b.process_tcp_event(&TcpEvent::ResponseReceived {
        request_id: 3,
        bytes: 11,
        latency_us: 250,
        timestamp_ns: 8,
    });
    assert_eq!(severity, Severity::Debug);
    assert_eq!(keys(&payload), vec!["type", "request_id", "bytes", "latency_us", "timestamp_ns"]);
    assert_eq!(text(&payload, "type"), "response_received");
    assert_eq!(number(&payload, "latency_us"), 250);
}

#[test]
fn protocol_events_go_to_the_protocol_topic() {
    let b = StreamSightBridge::new(BridgeConfig::default());
    let base = "lex://estream/sys/industrial/00000000000000000000000000000000";
    let (topic, payload, severity) = b.process_modbus_event(&ModbusEvent::Request {
        device_id: "p".into(),
        transaction_id: 7,
        function_code: 3,
        address: 100,
        quantity: 2,
        timestamp_ns: 1,
    });
    assert_eq!(topic, format!("{}/protocol/modbus", base));
    assert_eq!(severity, Severity::Debug);
    assert_eq!(
        keys(&payload),
        vec!["type", "device_id", "transaction_id", "function_code", "address", "quantity", "timestamp_ns"]
    );
    assert_eq!(text(&payload, "type"), "request");
    assert_eq!(number(&payload, "address"), 100);
    let (_, payload, severity) = b.process_modbus_event(&ModbusEvent::Response {
        device_id: "p".into(),
        transaction_id: 7,
        success: true,
        latency_us: 9,
        timestamp_ns: 2,
    });
    assert_eq!(severity, Severity::Debug);
    assert!(matches!(
        payload.iter().find(|f| f.key == "success").map(|f| &f.value),
        Some(PayloadValue::Bool(true))
    ));
    let (_, payload, severity) = b.process_modbus_event(&ModbusEvent::Exception {
        device_id: "p".into(),
        transaction_id: 7,
        function_code: 3,
        exception_code: 2,
        timestamp_ns: 3,
    });
    assert_eq!(severity, Severity::Warning);
    assert_eq!(text(&payload, "type"), "exception");
    assert_eq!(number(&payload, "exception_code"), 2);
}

#[test]
fn value_and_alarm_and_health_records() {
    let b = StreamSightBridge::new(BridgeConfig::default());
    let base = "lex://estream/sys/industrial/00000000000000000000000000000000";
    let (topic, payload, severity) = b.process_stream_event(&StreamEvent {
        event_id: 4,
        device_id: "plc-1".into(),
        name: "temp".into(),
        value: Reading::Number(21_500_000),
        unit: "C".into(),
        quality: Quality::UncertainLastUsable,
        source_timestamp_ns: 10,
        server_timestamp_ns: 11,
        topic: "unused".into(),
    });
    assert_eq!(topic, format!("{}/device/plc-1/telemetry", base));
    assert_eq!(severity, Severity::Debug);
    assert_eq!(text(&payload, "type"), "value");
    assert_eq!(number(&payload, "event_id"), 4);
    assert_eq!(number(&payload, "quality"), 65);
    assert!(matches!(
        payload.iter().find(|f| f.key == "value").map(|f| &f.value),
        Some(PayloadValue::Number(Reading::Number(21_500_000)))
    ));

    let (topic, payload, severity) = b.process_alarm_event(&alarm(AlarmSeverity::Critical, AlarmState::Active));
    assert_eq!(topic, format!("{}/alarm", base));
    assert_eq!(severity, Severity::Error);
    assert_eq!(text(&payload, "type"), "alarm_active");
    assert_eq!(text(&payload, "state"), "Active");
    assert_eq!(text(&payload, "severity"), "Critical");
    assert!(matches!(
        payload.iter().find(|f| f.key == "threshold_value").map(|f| &f.value),
        Some(PayloadValue::Number(Reading::Number(80_000_000)))
    ));
    let (_, payload, severity) = b.process_alarm_event(&alarm(AlarmSeverity::Info, AlarmState::Normal));
    assert_eq!(severity, Severity::Info);
    assert_eq!(text(&payload, "type"), "alarm_cleared");
    let (_, _, severity) = b.process_alarm_event(&alarm(AlarmSeverity::Warning, AlarmState::Normal));
    assert_eq!(severity, Severity::Warning);

    let (topic, payload, severity) = b.process_health_event(&GatewayHealthEvent {
        gateway_id: "ab".into(),
        version: "0.1.0".into(),
        uptime_seconds: 60,
        devices_configured: 2,
        devices_online: 1,
        registers_configured: 5,
        alarms_active: 0,
        requests_total: 100,
        requests_failed: 3,
        avg_latency_us: 800,
        timestamp_ns: 77,
    });
    assert_eq!(topic, format!("{}/health", base));
    assert_eq!(severity, Severity::Info);
    assert_eq!(payload.len(), 11);
    assert_eq!(number(&payload, "uptime_seconds"), 60);
    assert_eq!(number(&payload, "requests_failed"), 3);
    assert_eq!(text(&payload, "gateway_id"), "ab");
}

#[test]
fn bytes_sent_are_counted_by_report() {
    let mut b = StreamSightBridge::new(BridgeConfig::default());
    b.record_bytes_sent(40);
    b.record_bytes_sent(2);
    assert_eq!(b.metrics().bytes_sent, 42);
    b.record_bytes_sent(u64::MAX);
    assert_eq!(b.metrics().bytes_sent, u64::MAX);
}

#[test]
fn a_batch_size_of_zero_flushes_every_record() {
    let mut b = bridge(0, 0, 1_000_000);
    assert_eq!(b.process_at(state_change(), 0, 1).len(), 1);
    assert_eq!(b.process_at(state_change(), 0, 2).len(), 1);
    assert_eq!(b.metrics().batches_sent, 2);
}
