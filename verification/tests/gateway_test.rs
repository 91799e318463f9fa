use estream_runtime::industrial::config::{AlarmConfig, DeviceConfig, GatewayConfig, RegisterConfig, StreamSightConfig};
use estream_runtime::industrial::error::IndustrialError;
use estream_runtime::industrial::gateway::GatewayLite;
use estream_runtime::industrial::streamsight::PayloadValue;
use estream_runtime::industrial::types::DeviceState;

fn test_config() -> GatewayConfig {
    GatewayConfig {
        gateway_id: [1u8; 32],
        name: "Test Gateway".into(),
        devices: vec![DeviceConfig {
            device_id: "test-plc".into(),
            name: "Test PLC".into(),
            ip_address: [127, 0, 0, 1],
            port: 5020,
            ..Default::default()
        }],
        registers: vec![RegisterConfig {
            device_id: "test-plc".into(),
            name: "temperature".into(),
            address: 100,
            ..Default::default()
        }],
        alarms: vec![],
        streamsight: Default::default(),
        settings: Default::default(),
    }
}

#[test]
fn test_gateway_lite_creation() {
    let gateway = GatewayLite::new(test_config());
    assert!(gateway.is_ok());

    let gateway = gateway.unwrap();
    assert_eq!(gateway.name(), "Test Gateway");
    assert!(!gateway.is_running());
}

#[test]
fn test_gateway_lite_device_limit() {
    let mut config = test_config();
    config.devices = (0..11)
        .map(|i| DeviceConfig {
            device_id: format!("plc-{}", i),
            ip_address: [127, 0, 0, 1],
            ..Default::default()
        })
        .collect();

    let result = GatewayLite::new(config);
    assert!(matches!(result, Err(IndustrialError::LimitExceeded { .. })));
}

#[test]
fn gateway_limits_registers_and_alarms() {
    let mut config = test_config();
    config.registers = (0..257)
        .map(|i| RegisterConfig { device_id: "test-plc".into(), name: format!("r{}", i), address: i as u16, ..Default::default() })
        .collect();
    match GatewayLite::new_at(config, 0) {
        Err(IndustrialError::LimitExceeded { limit_name, max, requested }) => {
            assert_eq!(limit_name, "registers");
            assert_eq!((max, requested), (256, 257));
        }
        _ => panic!("257 registers accepted"),
    }
    let mut config = test_config();
    config.alarms = (0..65).map(|i| AlarmConfig { alarm_id: format!("a{}", i), ..Default::default() }).collect();
    match GatewayLite::new_at(config, 0) {
        Err(IndustrialError::LimitExceeded { limit_name, max, requested }) => {
            assert_eq!(limit_name, "alarms");
            assert_eq!((max, requested), (64, 65));
        }
        _ => panic!("65 alarms accepted"),
    }
}

#[test]
fn gateway_has_an_engine_per_enabled_device() {
    let mut config = test_config();
    config.devices.push(DeviceConfig { device_id: "off".into(), enabled: false, ..Default::default() });
    config.devices.push(DeviceConfig { device_id: "second".into(), unit_id: 9, ..Default::default() });
    let mut gateway = GatewayLite::new_at(config, 0).unwrap();
    assert_eq!(gateway.client_count(), 2);
    assert_eq!(gateway.gateway_id(), &[1u8; 32]);
    assert_eq!(gateway.find_client("test-plc"), Some(0));
    assert_eq!(gateway.find_client("second"), Some(1));
    assert_eq!(gateway.find_client("off"), None);
    assert_eq!(gateway.device_status("second", true), Some(DeviceState::Online));
    assert_eq!(gateway.device_status("second", false), Some(DeviceState::Offline));
    assert_eq!(gateway.device_status("off", true), None);
    let ticket = gateway.read_register("second", 0x0102, 3, 50).unwrap();
    assert_eq!(ticket.frame, vec![0, 1, 0, 0, 0, 6, 9, 0x03, 0x01, 0x02, 0x00, 0x03]);
    let frame = gateway.write_register("second", 0x0005, 0x00FF).unwrap();
    assert_eq!(frame, vec![0, 2, 0, 0, 0, 6, 9, 0x06, 0x00, 0x05, 0x00, 0xFF]);
    match gateway.read_register("nobody", 0, 1, 0) {
        Err(IndustrialError::DeviceNotFound { device_id }) => assert_eq!(device_id, "nobody"),
        _ => panic!("read from an unknown device"),
    }
    assert!(matches!(gateway.write_register("off", 0, 1), Err(IndustrialError::DeviceNotFound { .. })));
}

#[test]
fn gateway_starts_and_stops_once() {
    let mut gateway = GatewayLite::new_at(test_config(), 0).unwrap();
    assert!(matches!(gateway.stop(), Err(IndustrialError::GatewayNotRunning)));
    assert!(gateway.start(1, 1_000).is_ok());
    assert!(gateway.is_running());
    assert_eq!(gateway.metrics().devices_online, 1);
    assert_eq!(gateway.metrics().devices_configured, 1);
    assert!(matches!(gateway.start(1, 2_000), Err(IndustrialError::GatewayAlreadyRunning)));
    assert_eq!(gateway.metrics().devices_online, 1);
    let batch = gateway.emit_health(60, 0, 5_000);
    assert!(batch.is_empty());
    assert_eq!(gateway.events_received(), 1);
    let flushed = gateway.stop().unwrap();
    assert!(!gateway.is_running());
    assert_eq!(flushed.len(), 1);
    assert_eq!(flushed[0].topic, "lex://estream/sys/industrial/01010101010101010101010101010101/health");
    assert_eq!(flushed[0].severity, 1);
    assert_eq!(flushed[0].timestamp_ns, 5_000);
    let field = |key: &str| flushed[0].payload.iter().find(|f| f.key == key).map(|f| f.value.clone());
    assert!(matches!(field("uptime_seconds"), Some(PayloadValue::U64(60))));
    assert!(matches!(field("devices_online"), Some(PayloadValue::U64(1))));
    assert!(matches!(field("registers_configured"), Some(PayloadValue::U64(1))));
    match field("gateway_id") {
        Some(PayloadValue::Text(s)) => assert_eq!(s, "01010101010101010101010101010101"),
        _ => panic!("no gateway id"),
    }
    match field("version") {
        Some(PayloadValue::Text(s)) => assert_eq!(s, "0.1.0"),
        _ => panic!("no version"),
    }
}

#[test]
fn gateway_bridge_follows_the_configuration() {
    let mut config = test_config();
    config.streamsight = StreamSightConfig { batch_size: 1, severity_filter: 2, ..Default::default() };
    let mut gateway = GatewayLite::new_at(config, 0).unwrap();
    // health events are informational and fall below a filter of 2
    assert!(gateway.emit_health(1, 0, 1).is_empty());
    let event = gateway.health_event(3, 4);
    assert_eq!(event.uptime_seconds, 3);
    assert_eq!(event.timestamp_ns, 4);
    assert_eq!(event.registers_configured, 1);
}
