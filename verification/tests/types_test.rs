use estream_runtime::industrial::types::{
    latency_ema, timestamp_ns, AlarmSeverity, AlarmState, ConnectionMetrics, ConnectionState,
    DataType, GatewayMetrics, Quality, RegisterType,
};

#[test]
fn test_data_type_word_count() {
    assert_eq!(DataType::UInt16.word_count(), 1);
    assert_eq!(DataType::Float32.word_count(), 2);
    assert_eq!(DataType::Float64.word_count(), 4);
}

#[test]
fn test_quality() {
    assert!(Quality::Good.is_good());
    assert!(Quality::Uncertain.is_uncertain());
    assert!(Quality::BadCommFailure.is_bad());
}

#[test]
fn word_count_of_every_data_type() {
    assert_eq!(DataType::Int16.word_count(), 1);
    assert_eq!(DataType::UInt32.word_count(), 2);
    assert_eq!(DataType::Int32.word_count(), 2);
    assert_eq!(DataType::Boolean.word_count(), 1);
    assert_eq!(DataType::String.word_count(), 16);
}

#[test]
fn function_codes_of_register_classes() {
    assert_eq!(RegisterType::Coil.read_function_code(), 0x01);
    assert_eq!(RegisterType::Discrete.read_function_code(), 0x02);
    assert_eq!(RegisterType::Holding.read_function_code(), 0x03);
    assert_eq!(RegisterType::Input.read_function_code(), 0x04);
    assert_eq!(RegisterType::Holding.write_function_code(), Some(0x06));
    assert_eq!(RegisterType::Coil.write_function_code(), Some(0x05));
    assert_eq!(RegisterType::Input.write_function_code(), None);
    assert_eq!(RegisterType::Discrete.write_function_code(), None);
    assert_eq!(RegisterType::Holding.write_multiple_function_code(), Some(0x10));
    assert_eq!(RegisterType::Coil.write_multiple_function_code(), Some(0x0F));
    assert_eq!(RegisterType::default(), RegisterType::Holding);
}

#[test]
fn quality_families_are_disjoint() {
    let all = [
        Quality::Good,
        Quality::GoodLocalOverride,
        Quality::Uncertain,
        Quality::UncertainLastUsable,
        Quality::Bad,
        Quality::BadConfigError,
        Quality::BadNotConnected,
        Quality::BadDeviceFailure,
        Quality::BadSensorFailure,
        Quality::BadCommFailure,
        Quality::BadOutOfService,
    ];
    for q in all.iter() {
        let families = [q.is_good(), q.is_uncertain(), q.is_bad()];
        assert_eq!(families.iter().filter(|b| **b).count(), 1);
    }
    assert_eq!(Quality::Uncertain.code(), 64);
    assert_eq!(Quality::Bad.code(), 192);
    assert_eq!(Quality::BadOutOfService.code(), 198);
}

#[test]
fn names_of_states() {
    assert_eq!(ConnectionState::Disconnected.name(), "Disconnected");
    assert_eq!(ConnectionState::Reconnecting.name(), "Reconnecting");
    assert_eq!(AlarmState::Active.name(), "Active");
    assert_eq!(AlarmSeverity::Critical.name(), "Critical");
    assert_eq!(AlarmSeverity::default(), AlarmSeverity::Warning);
}

#[test]
fn latency_average_weighs_seven_to_one() {
    assert_eq!(latency_ema(0, 800), 100);
    assert_eq!(latency_ema(100, 100), 100);
    assert_eq!(latency_ema(1000, 200), 900);
    assert_eq!(latency_ema(u32::MAX, u32::MAX), u32::MAX);
}

#[test]
fn metrics_start_at_zero() {
    let m = ConnectionMetrics::default();
    assert_eq!(m.bytes_sent, 0);
    assert_eq!(m.avg_rtt_us, 0);
    let g = GatewayMetrics::default();
    assert_eq!(g.requests_total, 0);
    assert_eq!(g.devices_configured, 0);
}

#[test]
fn clock_runs_after_the_epoch() {
    let a = timestamp_ns();
    let b = timestamp_ns();
    assert!(a > 1_000_000_000_000_000_000);
    assert!(b >= a);
}
