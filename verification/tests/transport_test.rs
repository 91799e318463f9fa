use estream_runtime::industrial::error::IndustrialError;
use estream_runtime::industrial::transport::{
    address_text, reconnect_delay_ms, ExchangeOutcome, RetryAction, TcpClient, TcpConfig, TcpEvent,
};
use estream_runtime::industrial::types::ConnectionState;

fn refused() -> IndustrialError {
    IndustrialError::ConnectionFailed { address: "127.0.0.1:502".into(), reason: "refused".into() }
}

#[test]
fn test_tcp_client_state() {
    let config = TcpConfig::default();
    let client = TcpClient::new(config);

    assert_eq!(client.state(), ConnectionState::Disconnected);
}

#[test]
fn transport_defaults() {
    let c = TcpConfig::default();
    assert_eq!(c.remote_ip, [127, 0, 0, 1]);
    assert_eq!(c.remote_port, 502);
    assert_eq!(c.connect_timeout_ms, 5000);
    assert_eq!(c.read_timeout_ms, 3000);
    assert_eq!(c.write_timeout_ms, 3000);
    assert_eq!(c.keepalive_interval_ms, Some(30_000));
    assert_eq!(c.reconnect_delay_ms, 1000);
    assert_eq!(c.max_reconnect_attempts, 10);
    assert!(c.tcp_nodelay);
}

#[test]
fn reconnect_delay_grows_by_half_and_is_capped() {
    assert_eq!(reconnect_delay_ms(1000, 1), 1000);
    assert_eq!(reconnect_delay_ms(1000, 2), 1500);
    assert_eq!(reconnect_delay_ms(1000, 3), 2250);
    assert_eq!(reconnect_delay_ms(1000, 4), 3375);
    assert_eq!(reconnect_delay_ms(1000, 5), 5062);
    assert_eq!(reconnect_delay_ms(1000, 9), 25628);
    assert_eq!(reconnect_delay_ms(1000, 10), 30_000);
    assert_eq!(reconnect_delay_ms(1000, u32::MAX), 30_000);
    assert_eq!(reconnect_delay_ms(1, 2), 1);
    assert_eq!(reconnect_delay_ms(1, 3), 2);
    assert_eq!(reconnect_delay_ms(1, 30), 30_000);
    assert_eq!(reconnect_delay_ms(0, 50), 0);
    assert_eq!(reconnect_delay_ms(1000, 0), 1000);
    assert_eq!(reconnect_delay_ms(u64::MAX, 1), 30_000);
    assert_eq!(reconnect_delay_ms(100, 1), 100);
}

#[test]
fn connecting_and_disconnecting_change_the_state() {
    let mut c = TcpClient::new(TcpConfig::default());
    match c.connect_started(5) {
        Some(TcpEvent::StateChange { old_state, new_state, timestamp_ns }) => {
            assert_eq!(old_state, ConnectionState::Disconnected);
            assert_eq!(new_state, ConnectionState::Connecting);
            assert_eq!(timestamp_ns, 5);
        }
        _ => panic!("no state change"),
    }
    assert!(c.connect_started(6).is_none());
    assert!(c.connect_succeeded(7).is_some());
    assert!(c.is_connected());
    assert_eq!(c.state(), ConnectionState::Connected);
    assert!(c.set_state(ConnectionState::Connected, 8).is_none());
    assert!(c.disconnect(9).is_some());
    assert_eq!(c.state(), ConnectionState::Disconnected);
    assert!(!c.is_connected());
    assert!(c.disconnect(10).is_none());
}

#[test]
fn failed_connections_are_retried_up_to_the_bound() {
    let mut c = TcpClient::new(TcpConfig { max_reconnect_attempts: 3, reconnect_delay_ms: 1000, ..Default::default() });
    c.connect_started(1);
    let step = c.connect_failed(&refused(), "refused".into(), 2);
    assert_eq!(step.action, RetryAction::RetryAfter { delay_ms: 0 });
    assert_eq!(step.events.len(), 2);
    match &step.events[0] {
        TcpEvent::Error { error_code, message, timestamp_ns } => {
            assert_eq!(*error_code, 100);
            assert_eq!(message, "refused");
            assert_eq!(*timestamp_ns, 2);
        }
        _ => panic!("no error event"),
    }
    assert!(matches!(
        &step.events[1],
        TcpEvent::StateChange { old_state: ConnectionState::Connecting, new_state: ConnectionState::Reconnecting, .. }
    ));
    assert_eq!(c.state(), ConnectionState::Reconnecting);
    assert_eq!(c.reconnect_count(), 1);
    let step = c.connect_failed(&refused(), "refused".into(), 3);
    assert_eq!(step.action, RetryAction::RetryAfter { delay_ms: 1000 });
    assert!(step.events.is_empty());
    assert_eq!(c.reconnect_count(), 2);
    let step = c.connect_failed(&refused(), "refused".into(), 4);
    assert_eq!(step.action, RetryAction::RetryAfter { delay_ms: 1500 });
    assert_eq!(c.reconnect_count(), 3);
    let step = c.connect_failed(&refused(), "refused".into(), 5);
    assert_eq!(step.action, RetryAction::GiveUp);
    assert_eq!(step.events.len(), 1);
    assert!(matches!(
        &step.events[0],
        TcpEvent::StateChange { old_state: ConnectionState::Reconnecting, new_state: ConnectionState::Error, .. }
    ));
    assert_eq!(c.state(), ConnectionState::Error);
    assert_eq!(c.connect_failed(&refused(), "refused".into(), 6).action, RetryAction::GiveUp);
}

#[test]
fn unbounded_reconnection_never_gives_up() {
    let mut c = TcpClient::new(TcpConfig { max_reconnect_attempts: 0, reconnect_delay_ms: 100, ..Default::default() });
    c.connect_started(1);
    c.connect_failed(&refused(), "x".into(), 2);
    let mut last: u64 = 0;
    for _ in 0..40 {
        match c.connect_failed(&refused(), "x".into(), 3).action {
            RetryAction::RetryAfter { delay_ms } => {
                assert!(delay_ms >= last);
                assert!(delay_ms <= 30_000);
                last = delay_ms;
            }
            RetryAction::GiveUp => panic!("gave up"),
        }
    }
    assert_eq!(last, 30_000);
    assert_eq!(c.state(), ConnectionState::Reconnecting);
    c.connect_succeeded(4);
    assert_eq!(c.reconnect_count(), 0);
}

#[test]
fn exchanges_update_metrics_and_map_errors() {
    let mut c = TcpClient::new(TcpConfig { remote_ip: [10, 1, 2, 3], remote_port: 1502, ..Default::default() });
    let x = c.send_receive(4, 12, ExchangeOutcome::Received { bytes: 13 }, 1_000, 801_000);
    assert_eq!(x.result.unwrap(), 800);
    assert_eq!(x.events.len(), 2);
    assert!(matches!(&x.events[0], TcpEvent::RequestSent { request_id: 4, bytes: 12, timestamp_ns: 1_000 }));
    assert!(matches!(
        &x.events[1],
        TcpEvent::ResponseReceived { request_id: 4, bytes: 13, latency_us: 800, timestamp_ns: 801_000 }
    ));
    let m = c.metrics();
    assert_eq!((m.bytes_sent, m.packets_sent, m.bytes_received, m.packets_received), (12, 1, 13, 1));
    assert_eq!(m.avg_rtt_us, 100);

    let x = c.send_receive(5, 12, ExchangeOutcome::ReadTimeout, 0, 0);
    assert!(matches!(x.result, Err(IndustrialError::ResponseTimeout { transaction_id: 5 })));
    assert_eq!(x.events.len(), 1);
    assert_eq!(c.metrics().packets_sent, 2);
    assert_eq!(c.metrics().packets_received, 1);

    let x = c.send_receive(6, 12, ExchangeOutcome::ReadFailed, 0, 0);
    match x.result {
        Err(IndustrialError::ConnectionReset { address }) => assert_eq!(address, "10.1.2.3:1502"),
        _ => panic!("no reset"),
    }
    let x = c.send_receive(7, 12, ExchangeOutcome::WriteTimeout, 0, 0);
    assert!(matches!(x.result, Err(IndustrialError::ResponseTimeout { transaction_id: 7 })));
    assert!(x.events.is_empty());
    let x = c.send_receive(8, 12, ExchangeOutcome::WriteFailed, 0, 0);
    assert!(matches!(x.result, Err(IndustrialError::ConnectionReset { .. })));
    let x = c.send_receive(9, 12, ExchangeOutcome::NotConnected, 0, 0);
    match x.result {
        Err(IndustrialError::NotConnected { device_id }) => assert_eq!(device_id, "10.1.2.3:1502"),
        _ => panic!("connected"),
    }
    assert_eq!(c.metrics().packets_sent, 3);
    assert_eq!(c.remote_address(), "10.1.2.3:1502");
    assert_eq!(address_text(&[255, 0, 10, 1], 65535), "255.0.10.1:65535");
}
