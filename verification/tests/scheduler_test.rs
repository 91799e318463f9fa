use estream_runtime::industrial::config::RegisterConfig;
use estream_runtime::industrial::schedule_entry::{is_more_urgent, ScheduleEntry};
use estream_runtime::industrial::scheduler::{
    PollComplete, PollItem, PollScheduler, SchedulerAction, SchedulerConfig,
};
use estream_runtime::industrial::types::{DataType, RegisterType};

fn item(poll_id: u32, interval_ms: u32, priority: u8) -> PollItem {
    PollItem {
        poll_id,
        device_id: "plc".into(),
        name: format!("r{}", poll_id),
        register_type: RegisterType::Holding,
        address: 100 + poll_id as u16,
        count: 1,
        base_interval_ms: interval_ms,
        current_interval_ms: interval_ms,
        priority,
        enabled: true,
    }
}

fn config(rate: u32, factor_milli: u32, max_backoff_ms: u32) -> SchedulerConfig {
    SchedulerConfig {
        max_polls_per_second: rate,
        adaptive_enabled: true,
        backoff_factor_milli: factor_milli,
        max_backoff_interval_ms: max_backoff_ms,
    }
}

fn failure(poll_id: u32) -> PollComplete {
    PollComplete { poll_id, sequence_number: 1, success: false, latency_us: 800 }
}

fn success(poll_id: u32) -> PollComplete {
    PollComplete { poll_id, sequence_number: 1, success: true, latency_us: 800 }
}

#[test]
fn test_schedule_entry_ordering() {
    let e1 = ScheduleEntry { next_time_ns: 100, priority: 1, poll_id: 1 };
    let e2 = ScheduleEntry { next_time_ns: 200, priority: 1, poll_id: 2 };
    let e3 = ScheduleEntry { next_time_ns: 100, priority: 2, poll_id: 3 };

    // Earlier time should come first
    assert!(e1 > e2);
    // Same time, higher priority first
    assert!(e3 > e1);
}

#[test]
fn equal_time_and_priority_fall_back_to_the_poll_id() {
    let low = ScheduleEntry { next_time_ns: 100, priority: 1, poll_id: 1 };
    let high = ScheduleEntry { next_time_ns: 100, priority: 1, poll_id: 2 };
    assert!(low > high);
    assert!(is_more_urgent(&low, &high));
    assert!(!is_more_urgent(&high, &low));
    assert!(!is_more_urgent(&low, &low));
    assert!(low == low);
}

#[test]
fn adaptive_backoff_grows_and_resets() {
    let mut s = PollScheduler::new(config(100, 1500, 10_000));
    s.add_poll_at(item(1, 1000, 1), 0);
    assert_eq!(s.current_interval_ms(1), Some(1000));
    s.poll_complete(failure(1));
    assert_eq!(s.current_interval_ms(1), Some(1500));
    s.poll_complete(failure(1));
    assert_eq!(s.current_interval_ms(1), Some(2250));
    s.poll_complete(failure(1));
    assert_eq!(s.current_interval_ms(1), Some(3375));
    let status = s.get_status(1).unwrap();
    assert_eq!(status.consecutive_failures, 3);
    assert_eq!(status.polls_total, 3);
    assert_eq!(status.polls_failed, 3);
    assert_eq!(status.current_interval_ms, 3375);
    s.poll_complete(success(1));
    assert_eq!(s.current_interval_ms(1), Some(1000));
    let status = s.get_status(1).unwrap();
    assert_eq!(status.consecutive_failures, 0);
    assert_eq!(status.polls_total, 4);
    assert_eq!(status.polls_success, 1);
    assert_eq!(status.current_interval_ms, 1000);
}

#[test]
fn backoff_is_capped() {
    let mut s = PollScheduler::new(config(100, 2000, 10_000));
    s.add_poll_at(item(1, 1000, 1), 0);
    let expected = [2000, 4000, 8000, 10_000, 10_000];
    for want in expected.iter() {
        s.poll_complete(failure(1));
        assert_eq!(s.current_interval_ms(1), Some(*want));
    }
}

#[test]
fn feedback_without_adaptive_scheduling_keeps_the_interval() {
    let mut s = PollScheduler::new(SchedulerConfig { adaptive_enabled: false, ..config(100, 1500, 10_000) });
    s.add_poll_at(item(1, 1000, 1), 0);
    s.poll_complete(failure(1));
    assert_eq!(s.current_interval_ms(1), Some(1000));
    assert_eq!(s.get_status(1).unwrap().polls_failed, 1);
}

#[test]
fn latency_average_follows_feedback() {
    let mut s = PollScheduler::new(config(100, 1500, 10_000));
    s.add_poll_at(item(1, 1000, 1), 0);
    s.poll_complete(success(1));
    assert_eq!(s.get_status(1).unwrap().avg_latency_us, 100);
    s.poll_complete(success(1));
    assert_eq!(s.get_status(1).unwrap().avg_latency_us, 187);
}

#[test]
fn feedback_never_moves_a_due_time() {
    let mut s = PollScheduler::new(config(1000, 1500, 10_000));
    s.add_poll_at(item(1, 1000, 1), 50);
    s.start();
    assert!(matches!(s.poll(60), SchedulerAction::Trigger(_)));
    let before = s.get_status(1).unwrap();
    s.poll_complete(PollComplete { poll_id: 1, sequence_number: 0, success: false, latency_us: 1 });
    let after = s.get_status(1).unwrap();
    assert_eq!(after.next_poll_ns, before.next_poll_ns);
    assert_eq!(after.last_poll_ns, before.last_poll_ns);
    assert_eq!(s.schedule_len(), 1);
    // feedback for an unknown poll changes nothing
    s.poll_complete(failure(99));
    assert_eq!(s.get_status(99), None);
}

#[test]
fn a_stopped_scheduler_dispatches_nothing() {
    let mut s = PollScheduler::new(config(100, 1500, 10_000));
    s.add_poll_at(item(1, 1000, 1), 0);
    assert!(!s.is_running());
    assert!(matches!(s.poll(10), SchedulerAction::Stopped));
    s.start();
    assert!(matches!(s.poll(10), SchedulerAction::Trigger(_)));
    s.stop();
    assert!(matches!(s.poll(2_000_000_000), SchedulerAction::Stopped));
    assert_eq!(s.schedule_len(), 1);
}

#[test]
fn a_rate_of_zero_dispatches_nothing() {
    let mut s = PollScheduler::new(config(0, 1500, 10_000));
    s.add_poll_at(item(1, 1000, 1), 0);
    s.start();
    assert!(matches!(s.poll(10), SchedulerAction::Idle { sleep_ms: 10 }));
}

#[test]
fn dispatch_builds_the_trigger_and_reschedules() {
    let mut s = PollScheduler::new(config(100, 1500, 10_000));
    s.add_poll_at(item(7, 250, 2), 1_000);
    s.start();
    assert!(matches!(s.poll(999), SchedulerAction::Idle { sleep_ms: 10 }));
    match s.poll(5_000) {
        SchedulerAction::Trigger(t) => {
            assert_eq!(t.poll_id, 7);
            assert_eq!(t.device_id, "plc");
            assert_eq!(t.register_type, RegisterType::Holding);
            assert_eq!(t.address, 107);
            assert_eq!(t.count, 1);
            assert_eq!(t.sequence_number, 1);
            assert_eq!(t.scheduled_time_ns, 1_000);
            assert_eq!(t.actual_time_ns, 5_000);
        }
        _ => panic!("no trigger"),
    }
    let status = s.get_status(7).unwrap();
    assert_eq!(status.last_poll_ns, 5_000);
    assert_eq!(status.next_poll_ns, 5_000 + 250_000_000);
    // not due again before one interval has passed
    assert!(matches!(s.poll(5_000 + 249_999_999), SchedulerAction::Idle { .. }));
    match s.poll(5_000 + 250_000_000) {
        SchedulerAction::Trigger(t) => {
            assert_eq!(t.sequence_number, 2);
            assert_eq!(t.scheduled_time_ns, 5_000 + 250_000_000);
        }
        _ => panic!("no second trigger"),
    }
}

#[test]
fn the_rate_cap_spaces_dispatches() {
    let mut s = PollScheduler::new(config(100, 1500, 10_000));
    s.add_poll_at(item(1, 1000, 1), 0);
    s.add_poll_at(item(2, 1000, 1), 0);
    s.start();
    assert!(matches!(s.poll(1_000), SchedulerAction::Trigger(_)));
    // 100 polls per second leave 10 ms between two dispatches
    match s.poll(1_000 + 4_000_000) {
        SchedulerAction::Throttled { wait_ns } => assert_eq!(wait_ns, 6_000_000),
        _ => panic!("not throttled"),
    }
    match s.poll(500) {
        SchedulerAction::Throttled { wait_ns } => assert_eq!(wait_ns, 10_000_000),
        _ => panic!("not throttled"),
    }
    match s.poll(1_000 + 10_000_000) {
        SchedulerAction::Trigger(t) => assert_eq!(t.poll_id, 2),
        _ => panic!("no trigger"),
    }
}

#[test]
fn the_gap_is_rounded_up() {
    let mut s = PollScheduler::new(config(3, 1500, 10_000));
    s.add_poll_at(item(1, 1, 1), 0);
    s.add_poll_at(item(2, 1, 1), 0);
    s.start();
    assert!(matches!(s.poll(0), SchedulerAction::Trigger(_)));
    match s.poll(333_333_333) {
        SchedulerAction::Throttled { wait_ns } => assert_eq!(wait_ns, 1),
        _ => panic!("not throttled"),
    }
    assert!(matches!(s.poll(333_333_334), SchedulerAction::Trigger(_)));
}

#[test]
fn the_most_urgent_entry_is_served_first() {
    let mut s = PollScheduler::new(config(1_000_000_000, 1500, 10_000));
    s.add_poll_at(item(1, 1000, 1), 200);
    s.add_poll_at(item(2, 1000, 1), 100);
    s.add_poll_at(item(3, 1000, 3), 100);
    s.add_poll_at(item(4, 1000, 3), 100);
    s.start();
    let mut order: Vec<u32> = Vec::new();
    let mut now: u64 = 300;
    for _ in 0..4 {
        match s.poll(now) {
            SchedulerAction::Trigger(t) => order.push(t.poll_id),
            _ => panic!("no trigger"),
        }
        now += 1;
    }
    assert_eq!(order, vec![3, 4, 2, 1]);
}

#[test]
fn removed_and_disabled_items_are_dropped_when_due() {
    let mut s = PollScheduler::new(config(1000, 1500, 10_000));
    s.add_poll_at(item(1, 1000, 1), 0);
    s.add_poll_at(item(2, 1000, 1), 1);
    s.start();
    assert!(s.has_poll(1));
    s.remove_poll(1);
    assert!(!s.has_poll(1));
    assert!(s.has_poll(2));
    assert_eq!(s.item_count(), 1);
    assert_eq!(s.schedule_len(), 2);
    assert_eq!(s.get_status(1), None);
    match s.poll(10) {
        SchedulerAction::Discarded { poll_id } => assert_eq!(poll_id, 1),
        _ => panic!("stale entry served"),
    }
    assert_eq!(s.schedule_len(), 1);
    s.set_enabled(2, false);
    match s.poll(10) {
        SchedulerAction::Discarded { poll_id } => assert_eq!(poll_id, 2),
        _ => panic!("disabled item served"),
    }
    assert_eq!(s.schedule_len(), 0);
    assert!(matches!(s.poll(10), SchedulerAction::Idle { .. }));
}

#[test]
fn adding_a_poll_id_again_replaces_it() {
    let mut s = PollScheduler::new(config(1000, 1500, 10_000));
    s.add_poll_at(item(1, 1000, 1), 0);
    s.poll_complete(failure(1));
    assert_eq!(s.current_interval_ms(1), Some(1500));
    s.add_poll_at(item(1, 400, 1), 5);
    assert_eq!(s.item_count(), 1);
    assert_eq!(s.schedule_len(), 1);
    assert_eq!(s.current_interval_ms(1), Some(400));
    let status = s.get_status(1).unwrap();
    assert_eq!(status.polls_total, 0);
    assert_eq!(status.next_poll_ns, 5);
}

#[test]
fn a_new_item_starts_at_its_base_interval() {
    let mut s = PollScheduler::new(config(1000, 1500, 10_000));
    let mut it = item(1, 1000, 1);
    it.current_interval_ms = 7000;
    s.add_poll_at(it, 0);
    assert_eq!(s.current_interval_ms(1), Some(1000));
    s.add_poll(item(2, 50, 1));
    assert!(s.get_status(2).unwrap().next_poll_ns > 1_000_000_000_000_000_000);
}

#[test]
fn poll_item_of_a_register() {
    let register = RegisterConfig {
        device_id: "plc".into(),
        name: "flow".into(),
        address: 40,
        register_type: RegisterType::Input,
        data_type: DataType::Float64,
        poll_interval_ms: 500,
        priority: 3,
        ..Default::default()
    };
    let it = PollItem::from_register(&register, 9);
    assert_eq!(it.poll_id, 9);
    assert_eq!(it.device_id, "plc");
    assert_eq!(it.name, "flow");
    assert_eq!(it.register_type, RegisterType::Input);
    assert_eq!(it.address, 40);
    assert_eq!(it.count, 4);
    assert_eq!(it.base_interval_ms, 500);
    assert_eq!(it.current_interval_ms, 500);
    assert_eq!(it.priority, 3);
    assert!(it.enabled);
}

#[test]
fn scheduler_defaults() {
    let c = SchedulerConfig::default();
    assert_eq!(c.max_polls_per_second, 100);
    assert!(c.adaptive_enabled);
    assert_eq!(c.backoff_factor_milli, 1500);
    assert_eq!(c.max_backoff_interval_ms, 60000);
}

#[test]
fn no_second_holds_more_dispatches_than_the_rate() {
    for rate in [1u32, 3, 7, 100] {
        let mut s = PollScheduler::new(config(rate, 1500, 10_000));
        for id in 1..=5 {
            s.add_poll_at(item(id, 1, 1), 0);
        }
        s.start();
        // one clock reading every 100 microseconds, for three seconds
        let times: Vec<u64> = (0..30_000u64).map(|k| k * 100_000).collect();
        let triggers = s.run(&times);
        assert!(!triggers.is_empty());
        let stamps: Vec<u64> = triggers.iter().map(|t| t.actual_time_ns).collect();
        for (i, start) in stamps.iter().enumerate() {
            let inside = stamps[i..].iter().take_while(|t| **t < start + 1_000_000_000).count();
            assert!(inside as u32 <= rate, "rate {}: {} dispatches in one second", rate, inside);
        }
        for pair in triggers.windows(2) {
            assert_eq!(pair[1].sequence_number, pair[0].sequence_number + 1);
        }
    }
}

#[test]
fn a_poll_id_is_not_dispatched_before_its_interval() {
    let mut s = PollScheduler::new(config(1_000_000, 1500, 10_000));
    s.add_poll_at(item(1, 20, 1), 0);
    s.add_poll_at(item(2, 50, 1), 0);
    s.start();
    let times: Vec<u64> = (0..2_000u64).map(|k| k * 1_000_000).collect();
    let triggers = s.run(&times);
    for id in [1u32, 2] {
        let interval_ns: u64 = if id == 1 { 20_000_000 } else { 50_000_000 };
        let stamps: Vec<u64> = triggers.iter().filter(|t| t.poll_id == id).map(|t| t.actual_time_ns).collect();
        assert!(stamps.len() > 10);
        for pair in stamps.windows(2) {
            assert!(pair[1] - pair[0] >= interval_ns);
        }
    }
    s.stop();
    assert!(s.run(&[5_000_000_000]).is_empty());
}

#[test]
fn a_base_above_the_cap_is_capped_by_the_first_failure() {
    let mut s = PollScheduler::new(config(100, 1500, 10_000));
    s.add_poll_at(item(1, 25_000, 1), 0);
    assert_eq!(s.current_interval_ms(1), Some(25_000));
    s.poll_complete(failure(1));
    assert_eq!(s.current_interval_ms(1), Some(10_000));
    s.poll_complete(failure(1));
    assert_eq!(s.current_interval_ms(1), Some(10_000));
    s.poll_complete(success(1));
    assert_eq!(s.current_interval_ms(1), Some(25_000));
}

#[test]
fn run_returns_the_triggers_as_poll_builds_them() {
    let mut s = PollScheduler::new(config(1_000_000_000, 1500, 10_000));
    s.add_poll_at(item(4, 1, 1), 10);
    s.add_poll_at(item(9, 1, 3), 10);
    s.start();
    let triggers = s.run(&[5, 10, 11]);
    assert_eq!(triggers.len(), 2);
    assert_eq!((triggers[0].poll_id, triggers[0].address, triggers[0].sequence_number), (9, 109, 1));
    assert_eq!((triggers[0].scheduled_time_ns, triggers[0].actual_time_ns), (10, 10));
    assert_eq!((triggers[1].poll_id, triggers[1].address, triggers[1].sequence_number), (4, 104, 2));
    assert_eq!((triggers[1].scheduled_time_ns, triggers[1].actual_time_ns), (10, 11));
    assert_eq!(triggers[1].device_id, "plc");
    assert_eq!(triggers[1].count, 1);
}
