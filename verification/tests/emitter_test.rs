use estream_runtime::industrial::config::{AlarmConfig, RegisterConfig, WordOrder};
use estream_runtime::industrial::emitter::{
    condition_symbol, differs_by_more, evaluate_alarms, evaluate_condition, AlarmTracking,
    EmitterConfig, StreamEmitter,
};
use estream_runtime::industrial::types::{
    AlarmCondition, AlarmSeverity, AlarmState, DataType, Quality,
};
use estream_runtime::industrial::value::Reading;

const ONE: i64 = 1_000_000;

fn whole(v: i64) -> Reading {
    Reading::Number((v as i128) * 1_000_000)
}

fn register(device: &str, name: &str, address: u16) -> RegisterConfig {
    RegisterConfig { device_id: device.into(), name: name.into(), address, ..Default::default() }
}

fn high_temp(hysteresis: i64, debounce_ms: u32) -> AlarmConfig {
    AlarmConfig {
        alarm_id: "high_temp".into(),
        register_name: "temperature".into(),
        name: "High Temperature".into(),
        condition: AlarmCondition::GreaterThan,
        threshold_hi_micro: 80 * ONE,
        hysteresis_micro: hysteresis * ONE,
        debounce_ms,
        severity: AlarmSeverity::Warning,
        enabled: true,
        ..Default::default()
    }
}

fn emitter_with_id(first_bytes: &[u8]) -> StreamEmitter {
    let mut id = [0u8; 32];
    id[..first_bytes.len()].copy_from_slice(first_bytes);
    StreamEmitter::new(EmitterConfig { gateway_id: id, ..Default::default() })
}

#[test]
fn test_alarm_evaluation() {
    let mut emitter = StreamEmitter::new(EmitterConfig::default());

    // Add register
    emitter.add_register(RegisterConfig {
        device_id: "plc1".into(),
        name: "temperature".into(),
        address: 100,
        ..Default::default()
    });

    // Add alarm
    emitter.add_alarm(AlarmConfig {
        alarm_id: "high_temp".into(),
        register_name: "temperature".into(),
        name: "High Temperature".into(),
        condition: AlarmCondition::GreaterThan,
        threshold_hi_micro: 80 * ONE,
        severity: AlarmSeverity::Warning,
        enabled: true,
        ..Default::default()
    });

    // Process value above threshold
    let out = emitter.process_raw("plc1", 100, &[850], Quality::Good, None).unwrap();

    // Should receive alarm
    assert_eq!(out.alarms.len(), 1);
    let alarm = &out.alarms[0];
    assert_eq!(alarm.state, AlarmState::Active);
    assert!(out.events[0].server_timestamp_ns > 1_000_000_000_000_000_000);
    assert_eq!(out.events[0].source_timestamp_ns, out.events[0].server_timestamp_ns);
}

#[test]
fn read_of_two_registers_gives_two_scaled_events() {
    let mut emitter = emitter_with_id(&[0x01, 0x23, 0x45, 0x67, 0x89, 0xAB, 0xCD, 0xEF, 0xFF]);
    emitter.add_register(RegisterConfig { scale_micro: 100_000, ..register("p", "flow", 100) });
    emitter.add_register(RegisterConfig { scale_micro: 100_000, ..register("p", "level", 101) });
    let out = emitter.process_raw_at("p", 100, &[0x0064, 0x00C8], Quality::Good, Some(5), 9);
    assert_eq!(out.events.len(), 2);
    assert_eq!(out.events[0].value, Reading::Number(10_000_000));
    assert_eq!(out.events[1].value, Reading::Number(20_000_000));
    assert_eq!(out.events[0].event_id, 1);
    assert_eq!(out.events[1].event_id, 2);
    assert_eq!(out.events[0].device_id, "p");
    assert_eq!(out.events[0].name, "flow");
    assert_eq!(out.events[1].name, "level");
    assert_eq!(out.events[0].quality, Quality::Good);
    assert_eq!(out.events[0].source_timestamp_ns, 5);
    assert_eq!(out.events[0].server_timestamp_ns, 9);
    assert!(out.events[0].topic.ends_with("/device/p/flow"));
    assert_eq!(out.events[0].topic, "lex://estream/sys/industrial/0123456789abcdef/device/p/flow");
    assert_eq!(out.events[1].topic, "lex://estream/sys/industrial/0123456789abcdef/device/p/level");
    assert!(out.alarms.is_empty());
}

#[test]
fn topic_holds_the_hex_of_eight_bytes() {
    let emitter = emitter_with_id(&[0x00, 0x0f, 0xf0, 0xff, 0x10, 0x01, 0xa5, 0x5a]);
    let topic = emitter.generate_topic(&register("dev-1", "temp", 0));
    assert_eq!(topic, "lex://estream/sys/industrial/000ff0ff1001a55a/device/dev-1/temp");
}

#[test]
fn unchanged_values_emit_once() {
    let mut emitter = StreamEmitter::new(EmitterConfig::default());
    emitter.add_register(RegisterConfig { change_threshold_micro: 2 * ONE, ..register("p", "t", 0) });
    let counts: Vec<usize> = [100u16, 100, 101, 102, 103, 103, 100]
        .iter()
        .map(|w| emitter.process_raw_at("p", 0, &[*w], Quality::Good, None, 1).events.len())
        .collect();
    // 100 first; 101 and 102 are within 2 of 100; 103 is more than 2 away; 100 is 3 below 103
    assert_eq!(counts, vec![1, 0, 0, 0, 1, 0, 1]);
}

#[test]
fn registers_that_do_not_emit_on_change_always_emit() {
    let mut emitter = StreamEmitter::new(EmitterConfig::default());
    emitter.add_register(RegisterConfig { emit_on_change: false, ..register("p", "t", 0) });
    for _ in 0..3 {
        assert_eq!(emitter.process_raw_at("p", 0, &[7], Quality::Good, None, 1).events.len(), 1);
    }
}

#[test]
fn words_without_a_register_are_skipped() {
    let mut emitter = StreamEmitter::new(EmitterConfig::default());
    emitter.add_register(register("p", "b", 11));
    emitter.add_register(register("q", "other", 10));
    let out = emitter.process_raw_at("p", 10, &[1, 2, 3], Quality::Uncertain, None, 1);
    assert_eq!(out.events.len(), 1);
    assert_eq!(out.events[0].name, "b");
    assert_eq!(out.events[0].value, whole(2));
    assert_eq!(out.events[0].quality, Quality::Uncertain);
    assert!(emitter.process_raw_at("p", 10, &[], Quality::Good, None, 1).events.is_empty());
    assert!(emitter.process_raw_at("r", 10, &[1, 2], Quality::Good, None, 1).events.is_empty());
}

#[test]
fn multi_word_registers_are_decoded_in_one_pass() {
    let mut emitter = StreamEmitter::new(EmitterConfig::default());
    emitter.add_register(RegisterConfig { data_type: DataType::UInt32, ..register("p", "count", 10) });
    emitter.add_register(RegisterConfig { data_type: DataType::Int16, ..register("p", "inner", 11) });
    emitter.add_register(RegisterConfig {
        data_type: DataType::UInt32,
        word_order: WordOrder::LittleEndian,
        ..register("p", "swapped", 12)
    });
    let out = emitter.process_raw_at("p", 10, &[0x0001, 0x0002, 0x0003, 0x0004], Quality::Good, None, 1);
    // the word at 11 belongs to the 32-bit register at 10, so its own register is not read
    assert_eq!(out.events.len(), 2);
    assert_eq!(out.events[0].name, "count");
    assert_eq!(out.events[0].value, whole(0x0001_0002));
    assert_eq!(out.events[1].name, "swapped");
    assert_eq!(out.events[1].value, whole(0x0004_0003));
    // a register whose words are not all there is not read
    let out = emitter.process_raw_at("p", 12, &[9], Quality::Good, None, 2);
    assert!(out.events.is_empty());
}

#[test]
fn addresses_end_at_the_top_of_the_range() {
    let mut emitter = StreamEmitter::new(EmitterConfig::default());
    emitter.add_register(register("p", "last", 65535));
    emitter.add_register(register("p", "first", 0));
    let out = emitter.process_raw_at("p", 65535, &[4, 5, 6], Quality::Good, None, 1);
    assert_eq!(out.events.len(), 1);
    assert_eq!(out.events[0].name, "last");
}

#[test]
fn text_registers_are_no_numbers() {
    let mut emitter = StreamEmitter::new(EmitterConfig::default());
    emitter.add_register(RegisterConfig { data_type: DataType::String, ..register("p", "label", 0) });
    emitter.add_alarm(AlarmConfig { register_name: "label".into(), condition: AlarmCondition::NotEqual, ..high_temp(0, 0) });
    let words = [0x4142u16; 16];
    let out = emitter.process_raw_at("p", 0, &words, Quality::Good, None, 1);
    assert_eq!(out.events.len(), 1);
    assert_eq!(out.events[0].value, Reading::NotANumber);
    assert!(out.alarms.is_empty());
    // what is not a number differs from nothing
    assert!(emitter.process_raw_at("p", 0, &words, Quality::Good, None, 2).events.is_empty());
}

#[test]
fn adding_a_register_again_replaces_it() {
    let mut emitter = StreamEmitter::new(EmitterConfig::default());
    emitter.add_register(register("p", "old", 5));
    assert_eq!(emitter.process_raw_at("p", 5, &[1], Quality::Good, None, 1).events.len(), 1);
    assert_eq!(emitter.process_raw_at("p", 5, &[1], Quality::Good, None, 1).events.len(), 0);
    emitter.add_register(register("p", "new", 5));
    assert_eq!(emitter.register_count(), 1);
    let out = emitter.process_raw_at("p", 5, &[1], Quality::Good, None, 1);
    assert_eq!(out.events.len(), 1);
    assert_eq!(out.events[0].name, "new");
    emitter.add_alarm(high_temp(0, 0));
    emitter.add_alarm(high_temp(1, 0));
    assert_eq!(emitter.alarm_count(), 1);
    assert_eq!(emitter.alarm_state("high_temp"), Some(AlarmState::Normal));
    assert_eq!(emitter.alarm_state("none"), None);
    assert_eq!(emitter.find_register(&"p".to_string(), 5), Some(0));
    assert_eq!(emitter.find_register(&"p".to_string(), 6), None);
}

#[test]
fn alarm_trips_and_clears_with_hysteresis() {
    let mut alarms = vec![AlarmTracking::new(high_temp(2, 0))];
    let name = "temperature".to_string();
    let values = [75i64, 81, 79, 77];
    let mut events = Vec::new();
    for (i, v) in values.iter().enumerate() {
        for e in evaluate_alarms(&mut alarms, &name, whole(*v), 1000 + i as u64) {
            events.push((i, e));
        }
    }
    assert_eq!(events.len(), 2);
    assert_eq!(events[0].0, 1);
    assert_eq!(events[0].1.state, AlarmState::Active);
    assert_eq!(events[0].1.threshold_value, 80 * ONE);
    assert_eq!(events[0].1.current_value, whole(81));
    assert_eq!(events[0].1.message, "High Temperature triggered: 81 > 80");
    assert_eq!(events[0].1.alarm_id, "high_temp");
    assert_eq!(events[0].1.name, "High Temperature");
    assert_eq!(events[0].1.severity, AlarmSeverity::Warning);
    assert_eq!(events[0].1.timestamp_ns, 1001);
    assert_eq!(events[1].0, 3);
    assert_eq!(events[1].1.state, AlarmState::Normal);
    assert_eq!(events[1].1.current_value, whole(77));
    assert_eq!(events[1].1.message, "High Temperature cleared");
    assert_eq!(alarms[0].state, AlarmState::Normal);
    assert_eq!(alarms[0].active_since_ns, Some(1001));
}

#[test]
fn alarm_through_the_emitter() {
    let mut emitter = StreamEmitter::new(EmitterConfig::default());
    emitter.add_register(register("plc1", "temperature", 100));
    emitter.add_register(register("plc1", "pressure", 101));
    emitter.add_alarm(high_temp(2, 0));
    let mut states = Vec::new();
    for (i, w) in [75u16, 81, 79, 77].iter().enumerate() {
        let out = emitter.process_raw_at("plc1", 100, &[*w, 500], Quality::Good, None, i as u64);
        states.push(out.alarms.iter().map(|a| a.state).collect::<Vec<_>>());
    }
    assert_eq!(states, vec![vec![], vec![AlarmState::Active], vec![], vec![AlarmState::Normal]]);
}

#[test]
fn debounce_holds_the_next_transition_back() {
    let mut alarms = vec![AlarmTracking::new(high_temp(0, 5))];
    let name = "temperature".to_string();
    assert_eq!(evaluate_alarms(&mut alarms, &name, whole(90), 1_000).len(), 1);
    assert_eq!(alarms[0].debounce_until_ns, Some(1_000 + 5_000_000));
    // within 5 ms nothing changes, whatever the value
    assert_eq!(evaluate_alarms(&mut alarms, &name, whole(10), 1_000 + 4_999_999).len(), 0);
    assert_eq!(alarms[0].state, AlarmState::Active);
    let cleared = evaluate_alarms(&mut alarms, &name, whole(10), 1_000 + 5_000_000);
    assert_eq!(cleared.len(), 1);
    assert_eq!(cleared[0].state, AlarmState::Normal);
    assert_eq!(alarms[0].debounce_until_ns, Some(1_000 + 10_000_000));
}

#[test]
fn alarms_of_other_registers_and_disabled_alarms_stay() {
    let mut alarms = vec![
        AlarmTracking::new(high_temp(0, 0)),
        AlarmTracking::new(AlarmConfig { alarm_id: "off".into(), enabled: false, ..high_temp(0, 0) }),
        AlarmTracking::new(AlarmConfig { alarm_id: "b".into(), name: "Second".into(), ..high_temp(0, 0) }),
    ];
    assert!(evaluate_alarms(&mut alarms, &"pressure".to_string(), whole(90), 1).is_empty());
    let events = evaluate_alarms(&mut alarms, &"temperature".to_string(), whole(90), 1);
    let ids: Vec<&str> = events.iter().map(|e| e.alarm_id.as_str()).collect();
    assert_eq!(ids, vec!["high_temp", "b"]);
    assert_eq!(alarms[1].state, AlarmState::Normal);
}

#[test]
fn conditions_follow_the_table() {
    let config = |condition| AlarmConfig {
        condition,
        threshold_lo_micro: 10 * ONE,
        threshold_hi_micro: 20 * ONE,
        hysteresis_micro: 2 * ONE,
        ..Default::default()
    };
    let met = |condition, v: i64, active| evaluate_condition(whole(v), &config(condition), active);
    assert!(met(AlarmCondition::GreaterThan, 21, false));
    assert!(!met(AlarmCondition::GreaterThan, 20, false));
    assert!(met(AlarmCondition::GreaterThan, 19, true));
    assert!(!met(AlarmCondition::GreaterThan, 18, true));
    assert!(met(AlarmCondition::GreaterOrEqual, 20, false));
    assert!(!met(AlarmCondition::GreaterOrEqual, 19, false));
    assert!(met(AlarmCondition::GreaterOrEqual, 18, true));
    assert!(met(AlarmCondition::LessThan, 9, false));
    assert!(!met(AlarmCondition::LessThan, 10, false));
    assert!(met(AlarmCondition::LessThan, 11, true));
    assert!(!met(AlarmCondition::LessThan, 12, true));
    assert!(met(AlarmCondition::LessOrEqual, 10, false));
    assert!(met(AlarmCondition::LessOrEqual, 12, true));
    assert!(!met(AlarmCondition::LessOrEqual, 13, true));
    assert!(met(AlarmCondition::Equal, 20, false));
    assert!(met(AlarmCondition::Equal, 20, true));
    assert!(!met(AlarmCondition::Equal, 19, false));
    assert!(met(AlarmCondition::NotEqual, 19, false));
    assert!(!met(AlarmCondition::NotEqual, 20, true));
    assert!(met(AlarmCondition::Between, 10, false));
    assert!(met(AlarmCondition::Between, 20, false));
    assert!(!met(AlarmCondition::Between, 21, false));
    assert!(!met(AlarmCondition::Between, 11, true));
    assert!(met(AlarmCondition::Between, 12, true));
    assert!(met(AlarmCondition::Between, 18, true));
    assert!(!met(AlarmCondition::Between, 19, true));
    assert!(met(AlarmCondition::Outside, 9, false));
    assert!(met(AlarmCondition::Outside, 21, false));
    assert!(!met(AlarmCondition::Outside, 15, false));
    assert!(met(AlarmCondition::Outside, 11, true));
    assert!(met(AlarmCondition::Outside, 19, true));
    assert!(!met(AlarmCondition::Outside, 12, true));
    for c in [
        AlarmCondition::GreaterThan,
        AlarmCondition::LessThan,
        AlarmCondition::Equal,
        AlarmCondition::NotEqual,
        AlarmCondition::Between,
        AlarmCondition::Outside,
    ] {
        assert!(!evaluate_condition(Reading::NotANumber, &config(c), false));
    }
}

#[test]
fn less_than_alarms_report_the_low_threshold() {
    let mut alarms = vec![AlarmTracking::new(AlarmConfig {
        alarm_id: "low".into(),
        register_name: "level".into(),
        name: "Low Level".into(),
        condition: AlarmCondition::LessOrEqual,
        threshold_lo_micro: 1_500_000,
        threshold_hi_micro: 99 * ONE,
        severity: AlarmSeverity::Critical,
        ..Default::default()
    })];
    let events = evaluate_alarms(&mut alarms, &"level".to_string(), Reading::Number(1_250_000), 7);
    assert_eq!(events.len(), 1);
    assert_eq!(events[0].threshold_value, 1_500_000);
    assert_eq!(events[0].message, "Low Level triggered: 1.25 <= 1.5");
    assert_eq!(events[0].severity, AlarmSeverity::Critical);
}

#[test]
fn symbols_of_conditions() {
    assert_eq!(condition_symbol(&AlarmCondition::GreaterThan), ">");
    assert_eq!(condition_symbol(&AlarmCondition::LessThan), "<");
    assert_eq!(condition_symbol(&AlarmCondition::Equal), "==");
    assert_eq!(condition_symbol(&AlarmCondition::NotEqual), "!=");
    assert_eq!(condition_symbol(&AlarmCondition::GreaterOrEqual), ">=");
    assert_eq!(condition_symbol(&AlarmCondition::LessOrEqual), "<=");
    assert_eq!(condition_symbol(&AlarmCondition::Between), "between");
    assert_eq!(condition_symbol(&AlarmCondition::Outside), "outside");
}

#[test]
fn distances_beyond_the_machine_range() {
    assert!(differs_by_more(i128::MAX, i128::MIN, i64::MAX));
    assert!(differs_by_more(i128::MIN, i128::MAX, 0));
    assert!(!differs_by_more(5, 5, 0));
    assert!(differs_by_more(5, 5, -1));
    assert!(!differs_by_more(5, 7, 2));
    assert!(differs_by_more(5, 8, 2));
    assert!(differs_by_more(-5, 8, 12));
    assert!(!differs_by_more(-5, 8, 13));
    assert!(!differs_by_more(i128::MIN, i128::MIN + 3, 3));
}
