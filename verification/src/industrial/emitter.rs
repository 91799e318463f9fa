//! Stream emitter: decodes and scales raw words, detects changes, builds
//! value events and runs the threshold alarms.
//!
//! The emitter returns the events of one call instead of sending them; the
//! caller forwards them in order.

use vstd::prelude::*;
use vstd::string::*;
use vstd::slice::slice_subrange;
use crate::industrial::config::{AlarmConfig, RegisterConfig};
use crate::industrial::error::IndustrialError;
use crate::industrial::text::{hex_encode, hex_lower, micro_text, push_micro};
use crate::industrial::types::{AlarmCondition, AlarmSeverity, AlarmState, Quality, timestamp_ns};
use crate::industrial::value::{
    Reading,
    RegisterValue,
    RegisterValueView,
    decode_words,
    spec_decode,
    spec_scaled_reading,
};

verus! {

/// Emitter configuration.
#[derive(Debug, Clone, Copy)]
pub struct EmitterConfig {
    /// Gateway id
    pub gateway_id: [u8; 32],
    /// Default emit-on-change behaviour
    pub emit_on_change_only: bool,
    /// Default change threshold in millionths
    pub change_threshold_micro: i64,
    /// Enable batching
    pub batch_enabled: bool,
    /// Batch size
    pub batch_size: u16,
    /// Batch timeout in milliseconds
    pub batch_timeout_ms: u32,
}

impl Default for EmitterConfig {
    fn default() -> (c: Self)
        ensures
            c.gateway_id@ == Seq::new(32, |i: int| 0u8),
            !c.emit_on_change_only,
            c.change_threshold_micro == 0,
            c.batch_enabled,
            c.batch_size == 32,
            c.batch_timeout_ms == 100,
    {
        let id: [u8; 32] = [0u8; 32];
        assert(id@ =~= Seq::new(32, |i: int| 0u8));
        EmitterConfig {
            gateway_id: id,
            emit_on_change_only: false,
            change_threshold_micro: 0,
            batch_enabled: true,
            batch_size: 32,
            batch_timeout_ms: 100,
        }
    }
}

/// A value event.
#[derive(Debug, Clone)]
pub struct StreamEvent {
    /// Event id
    pub event_id: u64,
    /// Device id
    pub device_id: String,
    /// Register name
    pub name: String,
    /// Scaled value
    pub value: Reading,
    /// Engineering unit
    pub unit: String,
    /// Data quality
    pub quality: Quality,
    /// Source timestamp
    pub source_timestamp_ns: u64,
    /// Server timestamp
    pub server_timestamp_ns: u64,
    /// Topic
    pub topic: String,
}

/// A value event with its texts as character sequences.
pub struct StreamEventView {
    pub event_id: u64,
    pub device_id: Seq<char>,
    pub name: Seq<char>,
    pub value: Reading,
    pub unit: Seq<char>,
    pub quality: Quality,
    pub source_timestamp_ns: u64,
    pub server_timestamp_ns: u64,
    pub topic: Seq<char>,
}

impl View for StreamEvent {
    type V = StreamEventView;

    open spec fn view(&self) -> StreamEventView {
        StreamEventView {
            event_id: self.event_id,
            device_id: self.device_id@,
            name: self.name@,
            value: self.value,
            unit: self.unit@,
            quality: self.quality,
            source_timestamp_ns: self.source_timestamp_ns,
            server_timestamp_ns: self.server_timestamp_ns,
            topic: self.topic@,
        }
    }
}

/// An alarm event.
#[derive(Debug, Clone)]
pub struct AlarmEventOutput {
    /// Alarm id
    pub alarm_id: String,
    /// Alarm name
    pub name: String,
    /// State after the transition
    pub state: AlarmState,
    /// Severity
    pub severity: AlarmSeverity,
    /// Current value
    pub current_value: Reading,
    /// Applicable threshold in millionths
    pub threshold_value: i64,
    /// Message
    pub message: String,
    /// Timestamp
    pub timestamp_ns: u64,
}

/// An alarm event with its texts as character sequences.
pub struct AlarmEventOutputView {
    pub alarm_id: Seq<char>,
    pub name: Seq<char>,
    pub state: AlarmState,
    pub severity: AlarmSeverity,
    pub current_value: Reading,
    pub threshold_value: i64,
    pub message: Seq<char>,
    pub timestamp_ns: u64,
}

impl View for AlarmEventOutput {
    type V = AlarmEventOutputView;

    open spec fn view(&self) -> AlarmEventOutputView {
        AlarmEventOutputView {
            alarm_id: self.alarm_id@,
            name: self.name@,
            state: self.state,
            severity: self.severity,
            current_value: self.current_value,
            threshold_value: self.threshold_value,
            message: self.message@,
            timestamp_ns: self.timestamp_ns,
        }
    }
}

/// The views of a sequence of value events.
pub open spec fn stream_views(events: Seq<StreamEvent>) -> Seq<StreamEventView> {
    Seq::new(events.len(), |i: int| events[i]@)
}

/// The views of a sequence of alarm events.
pub open spec fn alarm_views(events: Seq<AlarmEventOutput>) -> Seq<AlarmEventOutputView> {
    Seq::new(events.len(), |i: int| events[i]@)
}

/// Register descriptor with its runtime state.
#[derive(Debug)]
pub struct RegisterMapping {
    /// The descriptor
    pub config: RegisterConfig,
    /// The value of the last event, if there was one
    pub last_value: Option<Reading>,
}

/// Alarm descriptor with its runtime state.
#[derive(Debug)]
pub struct AlarmTracking {
    /// The descriptor
    pub config: AlarmConfig,
    /// Current state
    pub state: AlarmState,
    /// When the alarm last became active
    pub active_since_ns: Option<u64>,
    /// Until when transitions are held back
    pub debounce_until_ns: Option<u64>,
}

/// The symbol of a condition in alarm messages.
pub open spec fn spec_condition_symbol(cond: AlarmCondition) -> Seq<char> {
    match cond {
        AlarmCondition::GreaterThan => ">"@,
        AlarmCondition::LessThan => "<"@,
        AlarmCondition::Equal => "=="@,
        AlarmCondition::NotEqual => "!="@,
        AlarmCondition::GreaterOrEqual => ">="@,
        AlarmCondition::LessOrEqual => "<="@,
        AlarmCondition::Between => "between"@,
        AlarmCondition::Outside => "outside"@,
    }
}

/// Returns the symbol of a condition.
pub fn condition_symbol(cond: &AlarmCondition) -> (s: &'static str)
    ensures
        s@ == spec_condition_symbol(*cond),
{
    match cond {
        AlarmCondition::GreaterThan => ">",
        AlarmCondition::LessThan => "<",
        AlarmCondition::Equal => "==",
        AlarmCondition::NotEqual => "!=",
        AlarmCondition::GreaterOrEqual => ">=",
        AlarmCondition::LessOrEqual => "<=",
        AlarmCondition::Between => "between",
        AlarmCondition::Outside => "outside",
    }
}

/// The high threshold in effect: lowered by the hysteresis while the alarm
/// is active.
pub open spec fn effective_hi(config: AlarmConfig, active: bool) -> int {
    if active {
        config.threshold_hi_micro - config.hysteresis_micro
    } else {
        config.threshold_hi_micro as int
    }
}

/// The low threshold in effect: raised by the hysteresis while the alarm is
/// active.
pub open spec fn effective_lo(config: AlarmConfig, active: bool) -> int {
    if active {
        config.threshold_lo_micro + config.hysteresis_micro
    } else {
        config.threshold_lo_micro as int
    }
}

/// Whether a value meets an alarm's condition.  Equality is exact at the
/// resolution of one millionth.  What is not a number meets no condition.
pub open spec fn condition_met(config: AlarmConfig, value: Reading, active: bool) -> bool {
    match value {
        Reading::NotANumber => false,
        Reading::Number(v) => match config.condition {
            AlarmCondition::GreaterThan => v > effective_hi(config, active),
            AlarmCondition::LessThan => v < effective_lo(config, active),
            AlarmCondition::Equal => v == config.threshold_hi_micro,
            AlarmCondition::NotEqual => v != config.threshold_hi_micro,
            AlarmCondition::GreaterOrEqual => v >= effective_hi(config, active),
            AlarmCondition::LessOrEqual => v <= effective_lo(config, active),
            AlarmCondition::Between => effective_lo(config, active) <= v <= effective_hi(
                config,
                active,
            ),
            AlarmCondition::Outside => v < effective_lo(config, active) || v > effective_hi(
                config,
                active,
            ),
        },
    }
}

/// The threshold that an alarm event reports: the low one for the
/// less-than conditions, the high one otherwise.
pub open spec fn threshold_of(config: AlarmConfig) -> i64 {
    match config.condition {
        AlarmCondition::LessThan | AlarmCondition::LessOrEqual => config.threshold_lo_micro,
        _ => config.threshold_hi_micro,
    }
}

/// Text of a reading.
pub open spec fn reading_text(value: Reading) -> Seq<char> {
    match value {
        Reading::Number(v) => micro_text(v as int),
        Reading::NotANumber => "NaN"@,
    }
}

/// Message of an alarm event: `"{name} triggered: {value} {symbol}
/// {threshold}"` on becoming active, `"{name} cleared"` otherwise.
pub open spec fn alarm_message(config: AlarmConfig, state: AlarmState, value: Reading) -> Seq<
    char,
> {
    if state == AlarmState::Active {
        config.name@ + " triggered: "@ + reading_text(value) + " "@ + spec_condition_symbol(
            config.condition,
        ) + " "@ + micro_text(threshold_of(config) as int)
    } else {
        config.name@ + " cleared"@
    }
}

/// The end of a debounce interval that starts at `timestamp_ns`,
/// saturating.
pub open spec fn debounce_deadline(timestamp_ns: u64, debounce_ms: u32) -> u64 {
    if timestamp_ns + debounce_ms * 1_000_000 > u64::MAX {
        u64::MAX
    } else {
        (timestamp_ns + debounce_ms * 1_000_000) as u64
    }
}

/// Whether an alarm is evaluated for a value of the named register at the
/// given time: it is bound to that register, enabled, and not held back by
/// its debounce.
pub open spec fn alarm_due(t: AlarmTracking, register_name: Seq<char>, timestamp_ns: u64) -> bool {
    &&& t.config.register_name@ == register_name
    &&& t.config.enabled
    &&& match t.debounce_until_ns {
        Some(until) => timestamp_ns >= until,
        None => true,
    }
}

/// The state that a value calls for.
pub open spec fn alarm_target(t: AlarmTracking, value: Reading) -> AlarmState {
    if condition_met(t.config, value, t.state == AlarmState::Active) {
        AlarmState::Active
    } else {
        AlarmState::Normal
    }
}

/// Whether the alarm changes state.
pub open spec fn alarm_transitions(
    t: AlarmTracking,
    register_name: Seq<char>,
    value: Reading,
    timestamp_ns: u64,
) -> bool {
    alarm_due(t, register_name, timestamp_ns) && alarm_target(t, value) != t.state
}

/// The alarm after a value was evaluated.
pub open spec fn alarm_after(
    t: AlarmTracking,
    register_name: Seq<char>,
    value: Reading,
    timestamp_ns: u64,
) -> AlarmTracking {
    if alarm_transitions(t, register_name, value, timestamp_ns) {
        AlarmTracking {
            config: t.config,
            state: alarm_target(t, value),
            active_since_ns: if alarm_target(t, value) == AlarmState::Active {
                Some(timestamp_ns)
            } else {
                t.active_since_ns
            },
            debounce_until_ns: if t.config.debounce_ms > 0 {
                Some(debounce_deadline(timestamp_ns, t.config.debounce_ms))
            } else {
                t.debounce_until_ns
            },
        }
    } else {
        t
    }
}

/// The event of a transition.
pub open spec fn alarm_event(t: AlarmTracking, value: Reading, timestamp_ns: u64) -> AlarmEventOutputView {
    AlarmEventOutputView {
        alarm_id: t.config.alarm_id@,
        name: t.config.name@,
        state: alarm_target(t, value),
        severity: t.config.severity,
        current_value: value,
        threshold_value: threshold_of(t.config),
        message: alarm_message(t.config, alarm_target(t, value), value),
        timestamp_ns,
    }
}

/// The events of the alarms that change state, in the order of the alarms.
pub open spec fn alarm_events(
    alarms: Seq<AlarmTracking>,
    register_name: Seq<char>,
    value: Reading,
    timestamp_ns: u64,
) -> Seq<AlarmEventOutputView>
    decreases alarms.len(),
{
    if alarms.len() == 0 {
        Seq::<AlarmEventOutputView>::empty()
    } else {
        let before = alarm_events(alarms.drop_last(), register_name, value, timestamp_ns);
        if alarm_transitions(alarms.last(), register_name, value, timestamp_ns) {
            before.push(alarm_event(alarms.last(), value, timestamp_ns))
        } else {
            before
        }
    }
}

/// The alarms after a value was evaluated by each of them.
pub open spec fn alarms_after(
    alarms: Seq<AlarmTracking>,
    register_name: Seq<char>,
    value: Reading,
    timestamp_ns: u64,
) -> Seq<AlarmTracking> {
    Seq::new(alarms.len(), |i: int| alarm_after(alarms[i], register_name, value, timestamp_ns))
}

/// Evaluates an alarm condition.
pub fn evaluate_condition(value: Reading, config: &AlarmConfig, currently_active: bool) -> (met:
    bool)
    ensures
        met == condition_met(*config, value, currently_active),
{
    let v: i128 = match value {
        Reading::NotANumber => {
            return false;
        },
        Reading::Number(v) => v,
    };
    let hi: i128 = if currently_active {
        (config.threshold_hi_micro as i128) - (config.hysteresis_micro as i128)
    } else {
        config.threshold_hi_micro as i128
    };
    let lo: i128 = if currently_active {
        (config.threshold_lo_micro as i128) + (config.hysteresis_micro as i128)
    } else {
        config.threshold_lo_micro as i128
    };
    match config.condition {
        AlarmCondition::GreaterThan => v > hi,
        AlarmCondition::LessThan => v < lo,
        AlarmCondition::Equal => v == config.threshold_hi_micro as i128,
        AlarmCondition::NotEqual => v != config.threshold_hi_micro as i128,
        AlarmCondition::GreaterOrEqual => v >= hi,
        AlarmCondition::LessOrEqual => v <= lo,
        AlarmCondition::Between => v >= lo && v <= hi,
        AlarmCondition::Outside => v < lo || v > hi,
    }
}

/// Appends the text of a reading.
pub fn push_reading(out: &mut String, value: Reading)
    ensures
        final(out)@ == old(out)@ + reading_text(value),
{
    match value {
        Reading::Number(v) => {
            push_micro(out, v);
        },
        Reading::NotANumber => {
            out.append("NaN");
        },
    }
}

impl AlarmTracking {
    /// A new alarm: normal, never active, not debounced.
    pub fn new(config: AlarmConfig) -> (t: Self)
        ensures
            t == (AlarmTracking {
                config,
                state: AlarmState::Normal,
                active_since_ns: None,
                debounce_until_ns: None,
            }),
    {
        AlarmTracking {
            config,
            state: AlarmState::Normal,
            active_since_ns: None,
            debounce_until_ns: None,
        }
    }

    /// Evaluates the alarm for a value of the named register.  Returns the
    /// event of the transition, if the alarm changes state.
    pub fn evaluate(&mut self, register_name: &String, value: Reading, timestamp_ns: u64) -> (event:
        Option<AlarmEventOutput>)
        ensures
            *final(self) == alarm_after(*old(self), register_name@, value, timestamp_ns),
            alarm_transitions(*old(self), register_name@, value, timestamp_ns) ==> (
            event matches Some(e) && e@ == alarm_event(*old(self), value, timestamp_ns)),
            !alarm_transitions(*old(self), register_name@, value, timestamp_ns) ==> event
                is None,
    {
        if !(self.config.register_name == *register_name) {
            return None;
        }
        if !self.config.enabled {
            return None;
        }
        match self.debounce_until_ns {
            Some(until) => {
                if timestamp_ns < until {
                    return None;
                }
            },
            None => {},
        }
        let met: bool = evaluate_condition(value, &self.config, self.state == AlarmState::Active);
        let new_state: AlarmState = if met {
            AlarmState::Active
        } else {
            AlarmState::Normal
        };
        if self.state == new_state {
            return None;
        }
        if self.config.debounce_ms > 0 {
            let hold: u64 = (self.config.debounce_ms as u64) * 1_000_000;
            let until: u64 = if timestamp_ns > u64::MAX - hold {
                u64::MAX
            } else {
                timestamp_ns + hold
            };
            self.debounce_until_ns = Some(until);
        }
        self.state = new_state;
        if new_state == AlarmState::Active {
            self.active_since_ns = Some(timestamp_ns);
        }
        let threshold: i64 = match self.config.condition {
            AlarmCondition::LessThan | AlarmCondition::LessOrEqual => self.config.threshold_lo_micro,
            _ => self.config.threshold_hi_micro,
        };
        let mut message: String = self.config.name.clone();
        if new_state == AlarmState::Active {
            message.append(" triggered: ");
            push_reading(&mut message, value);
            message.append(" ");
            message.append(condition_symbol(&self.config.condition));
            message.append(" ");
            push_micro(&mut message, threshold as i128);
        } else {
            message.append(" cleared");
        }
        assert(message@ =~= alarm_message(old(self).config, new_state, value));
        Some(
            AlarmEventOutput {
                alarm_id: self.config.alarm_id.clone(),
                name: self.config.name.clone(),
                state: new_state,
                severity: self.config.severity,
                current_value: value,
                threshold_value: threshold,
                message,
                timestamp_ns,
            },
        )
    }
}

/// Evaluates every alarm, in order, for a value of the named register.
/// Returns the events of the alarms that changed state.
pub fn evaluate_alarms(
    alarms: &mut Vec<AlarmTracking>,
    register_name: &String,
    value: Reading,
    timestamp_ns: u64,
) -> (events: Vec<AlarmEventOutput>)
    ensures
        final(alarms)@ == alarms_after(old(alarms)@, register_name@, value, timestamp_ns),
        alarm_views(events@) == alarm_events(old(alarms)@, register_name@, value, timestamp_ns),
{
    let mut events: Vec<AlarmEventOutput> = Vec::new();
    let mut i: usize = 0;
    assert(old(alarms)@.subrange(0, 0) =~= Seq::<AlarmTracking>::empty());
    while i < alarms.len()
        invariant
            0 <= i <= alarms@.len(),
            alarms@.len() == old(alarms)@.len(),
            forall|k: int|
                0 <= k < i ==> #[trigger] alarms@[k] == alarm_after(
                    old(alarms)@[k],
                    register_name@,
                    value,
                    timestamp_ns,
                ),
            forall|k: int| i <= k < alarms@.len() ==> #[trigger] alarms@[k] == old(alarms)@[k],
            alarm_views(events@) == alarm_events(
                old(alarms)@.subrange(0, i as int),
                register_name@,
                value,
                timestamp_ns,
            ),
        decreases alarms@.len() - i,
    {
        let ghost before: Seq<AlarmEventOutputView> = alarm_views(events@);
        let event: Option<AlarmEventOutput> = alarms[i].evaluate(
            register_name,
            value,
            timestamp_ns,
        );
        assert(old(alarms)@.subrange(0, i + 1).drop_last() =~= old(alarms)@.subrange(0, i as int));
        assert(old(alarms)@.subrange(0, i + 1).last() == old(alarms)@[i as int]);
        match event {
            Some(e) => {
                events.push(e);
                assert(alarm_views(events@) =~= before.push(e@));
            },
            None => {},
        }
        i = i + 1;
    }
    assert(old(alarms)@.subrange(0, i as int) =~= old(alarms)@);
    assert(alarms@ =~= alarms_after(old(alarms)@, register_name@, value, timestamp_ns));
    events
}

/// Debounce: after a transition of an alarm with a debounce time, no value
/// makes it change state again before the debounce deadline.
pub proof fn lemma_debounce_holds_transitions(
    t: AlarmTracking,
    register_name: Seq<char>,
    first: Reading,
    first_ns: u64,
    second: Reading,
    second_ns: u64,
)
    requires
        alarm_transitions(t, register_name, first, first_ns),
        t.config.debounce_ms > 0,
        second_ns < debounce_deadline(first_ns, t.config.debounce_ms),
    ensures
        !alarm_transitions(
            alarm_after(t, register_name, first, first_ns),
            register_name,
            second,
            second_ns,
        ),
        alarm_after(alarm_after(t, register_name, first, first_ns), register_name, second, second_ns)
            == alarm_after(t, register_name, first, first_ns),
{
}

/// No event carries an id that no changing alarm has: where every alarm
/// of the list that changes state has another id than `alarm_id`, no event
/// of the evaluation carries `alarm_id`.
pub proof fn lemma_events_carry_changing_ids(
    alarms: Seq<AlarmTracking>,
    alarm_id: Seq<char>,
    register_name: Seq<char>,
    value: Reading,
    timestamp_ns: u64,
)
    requires
        forall|i: int|
            0 <= i < alarms.len() && alarm_transitions(
                #[trigger] alarms[i],
                register_name,
                value,
                timestamp_ns,
            ) ==> alarms[i].config.alarm_id@ != alarm_id,
    ensures
        forall|k: int|
            0 <= k < alarm_events(alarms, register_name, value, timestamp_ns).len() ==> (
            #[trigger] alarm_events(alarms, register_name, value, timestamp_ns)[k]).alarm_id
                != alarm_id,
    decreases alarms.len(),
{
    if alarms.len() > 0 {
        let front = alarms.drop_last();
        assert forall|i: int|
            0 <= i < front.len() && alarm_transitions(
                #[trigger] front[i],
                register_name,
                value,
                timestamp_ns,
            ) implies front[i].config.alarm_id@ != alarm_id by {
            assert(front[i] == alarms[i]);
        }
        lemma_events_carry_changing_ids(front, alarm_id, register_name, value, timestamp_ns);
        let before = alarm_events(front, register_name, value, timestamp_ns);
        let all = alarm_events(alarms, register_name, value, timestamp_ns);
        assert forall|k: int| 0 <= k < all.len() implies (#[trigger] all[k]).alarm_id
            != alarm_id by {
            if k < before.len() {
                assert(all[k] == before[k]);
            } else {
                assert(alarm_transitions(
                    alarms[alarms.len() - 1],
                    register_name,
                    value,
                    timestamp_ns,
                ));
                assert(all[k] == alarm_event(alarms.last(), value, timestamp_ns));
            }
        }
    }
}

/// Debounce, for a whole evaluation: after an alarm with a debounce time
/// changed state at `first_ns`, an evaluation of the alarms before the
/// debounce deadline, for any register and value, leaves that alarm as it
/// is and yields no event with its id.  The alarms' ids must be distinct.
/// So two events of one alarm lie at least the debounce time apart, as
/// long as the deadline does not pass the largest timestamp.
pub proof fn lemma_debounce_silences_alarm(
    alarms: Seq<AlarmTracking>,
    a: int,
    register_name: Seq<char>,
    first: Reading,
    first_ns: u64,
    other_name: Seq<char>,
    second: Reading,
    second_ns: u64,
)
    requires
        0 <= a < alarms.len(),
        alarms_unique(alarms),
        alarm_transitions(alarms[a], register_name, first, first_ns),
        alarms[a].config.debounce_ms > 0,
        second_ns < debounce_deadline(first_ns, alarms[a].config.debounce_ms),
    ensures
        ({
            let held = alarms_after(alarms, register_name, first, first_ns);
            &&& alarms_after(held, other_name, second, second_ns)[a] == held[a]
            &&& held[a].state == alarm_target(alarms[a], first)
            &&& forall|k: int|
                0 <= k < alarm_events(held, other_name, second, second_ns).len() ==> (
                #[trigger] alarm_events(held, other_name, second, second_ns)[k]).alarm_id
                    != alarms[a].config.alarm_id@
        }),
{
    let held = alarms_after(alarms, register_name, first, first_ns);
    assert(held[a] == alarm_after(alarms[a], register_name, first, first_ns));
    assert(!alarm_due(held[a], other_name, second_ns));
    assert forall|i: int|
        0 <= i < held.len() && alarm_transitions(
            #[trigger] held[i],
            other_name,
            second,
            second_ns,
        ) implies held[i].config.alarm_id@ != alarms[a].config.alarm_id@ by {
        assert(held[i].config == alarms[i].config);
        if i < a {
            assert(alarms[i].config.alarm_id@ != alarms[a].config.alarm_id@);
        } else if a < i {
            assert(alarms[a].config.alarm_id@ != alarms[i].config.alarm_id@);
        }
    }
    lemma_events_carry_changing_ids(
        held,
        alarms[a].config.alarm_id@,
        other_name,
        second,
        second_ns,
    );
}

/// Hysteresis: an active greater-than alarm stays active exactly while the
/// value is above the high threshold less the hysteresis, and an active
/// greater-or-equal alarm exactly while the value is not below it.
pub proof fn lemma_hysteresis_keeps_active(t: AlarmTracking, v: i128)
    requires
        t.state == AlarmState::Active,
        t.config.condition == AlarmCondition::GreaterThan || t.config.condition
            == AlarmCondition::GreaterOrEqual,
    ensures
        t.config.condition == AlarmCondition::GreaterThan ==> (alarm_target(t, Reading::Number(v))
            == AlarmState::Active <==> v > t.config.threshold_hi_micro
            - t.config.hysteresis_micro),
        t.config.condition == AlarmCondition::GreaterOrEqual ==> (alarm_target(
            t,
            Reading::Number(v),
        ) == AlarmState::Active <==> v >= t.config.threshold_hi_micro
            - t.config.hysteresis_micro),
        forall|name: Seq<char>, ts: u64|
            alarm_target(t, Reading::Number(v)) == AlarmState::Active ==> #[trigger] alarm_after(
                t,
                name,
                Reading::Number(v),
                ts,
            ) == t,
{
}


/// What one call of the emitter produced: the value events and the alarm
/// events, each in the order in which they arose.
#[derive(Debug)]
pub struct EmitterOutput {
    /// Value events
    pub events: Vec<StreamEvent>,
    /// Alarm events
    pub alarms: Vec<AlarmEventOutput>,
}

/// The emitter as a mathematical value.
pub struct EmitterState {
    /// Gateway id
    pub gateway_id: Seq<u8>,
    /// Registers, in the order in which their keys were first added
    pub registers: Seq<RegisterMapping>,
    /// Alarms, in the order in which their ids were first added
    pub alarms: Seq<AlarmTracking>,
    /// The id of the next value event
    pub event_id: u64,
}

/// The raw words of one read, with the timestamps of their processing.
pub struct RawBatch {
    /// Device id
    pub device: Seq<char>,
    /// Address of the first word
    pub start_address: u16,
    /// The words
    pub words: Seq<u16>,
    /// Quality of the read
    pub quality: Quality,
    /// Source timestamp
    pub source_ns: u64,
    /// Server timestamp
    pub server_ns: u64,
}

/// What processing produced, as mathematical values.
pub struct Emitted {
    /// The emitter afterwards
    pub state: EmitterState,
    /// Value events
    pub events: Seq<StreamEventView>,
    /// Alarm events
    pub alarms: Seq<AlarmEventOutputView>,
}

/// The batch of one read: the source timestamp defaults to the server
/// timestamp.
pub open spec fn raw_batch(
    device: Seq<char>,
    start_address: u16,
    words: Seq<u16>,
    quality: Quality,
    source_timestamp_ns: Option<u64>,
    server_ns: u64,
) -> RawBatch {
    RawBatch {
        device,
        start_address,
        words,
        quality,
        source_ns: match source_timestamp_ns {
            Some(t) => t,
            None => server_ns,
        },
        server_ns,
    }
}

/// Whether a register has the given device and address.
pub open spec fn key_matches(m: RegisterMapping, device: Seq<char>, address: int) -> bool {
    m.config.device_id@ == device && m.config.address == address
}

/// Index of the first register from `from` on with the given device and
/// address; the number of registers if there is none.
pub open spec fn first_match(
    registers: Seq<RegisterMapping>,
    device: Seq<char>,
    address: int,
    from: int,
) -> int
    decreases registers.len() - from,
{
    if from < 0 || from >= registers.len() {
        registers.len() as int
    } else if key_matches(registers[from], device, address) {
        from
    } else {
        first_match(registers, device, address, from + 1)
    }
}

/// Whether no two registers share device and address.
pub open spec fn registers_unique(registers: Seq<RegisterMapping>) -> bool {
    forall|i: int, j: int|
        0 <= i < j < registers.len() ==> !key_matches(
            #[trigger] registers[j],
            (#[trigger] registers[i]).config.device_id@,
            registers[i].config.address as int,
        )
}

/// Index of the first alarm from `from` on with the given id; the number
/// of alarms if there is none.
pub open spec fn first_alarm(alarms: Seq<AlarmTracking>, alarm_id: Seq<char>, from: int) -> int
    decreases alarms.len() - from,
{
    if from < 0 || from >= alarms.len() {
        alarms.len() as int
    } else if alarms[from].config.alarm_id@ == alarm_id {
        from
    } else {
        first_alarm(alarms, alarm_id, from + 1)
    }
}

/// Whether no two alarms share an id.
pub open spec fn alarms_unique(alarms: Seq<AlarmTracking>) -> bool {
    forall|i: int, j: int|
        0 <= i < j < alarms.len() ==> (#[trigger] alarms[i]).config.alarm_id@
            != (#[trigger] alarms[j]).config.alarm_id@
}

/// Change detection.  A register that emits on change and has a last value
/// emits only if the new value differs from it by more than the change
/// threshold; every other register always emits.  What is not a number
/// differs from nothing.
pub open spec fn should_emit(config: RegisterConfig, last: Option<Reading>, scaled: Reading) -> bool {
    if config.emit_on_change {
        match last {
            Some(Reading::Number(l)) => match scaled {
                Reading::Number(s) => s - l > config.change_threshold_micro || l - s
                    > config.change_threshold_micro,
                Reading::NotANumber => false,
            },
            Some(Reading::NotANumber) => false,
            None => true,
        }
    } else {
        true
    }
}

/// Topic of a value event:
/// `lex://estream/sys/industrial/{gw}/device/{device}/{name}`, where `{gw}`
/// is the lowercase hex of the first 8 bytes of the gateway id.
pub open spec fn value_topic(gateway_id: Seq<u8>, device: Seq<char>, name: Seq<char>) -> Seq<char> {
    "lex://estream/sys/industrial/"@ + hex_lower(gateway_id.subrange(0, 8)) + "/device/"@ + device
        + "/"@ + name
}

/// The event id after `id`, wrapping at 64 bits.
pub open spec fn event_id_after(id: u64) -> u64 {
    if id == u64::MAX {
        0
    } else {
        (id + 1) as u64
    }
}

/// Processing of one decoded value for the register at `idx`: scaling,
/// change detection, the value event, and the alarms bound to the
/// register's name.  Without an event nothing changes.
pub open spec fn emit_step(
    state: EmitterState,
    idx: int,
    value: RegisterValueView,
    quality: Quality,
    source_ns: u64,
    server_ns: u64,
) -> Emitted {
    let m = state.registers[idx];
    let scaled = spec_scaled_reading(value, m.config.scale_micro, m.config.offset_micro);
    if should_emit(m.config, m.last_value, scaled) {
        Emitted {
            state: EmitterState {
                gateway_id: state.gateway_id,
                registers: state.registers.update(
                    idx,
                    RegisterMapping { config: m.config, last_value: Some(scaled) },
                ),
                alarms: alarms_after(state.alarms, m.config.name@, scaled, server_ns),
                event_id: event_id_after(state.event_id),
            },
            events: seq![
                StreamEventView {
                    event_id: state.event_id,
                    device_id: m.config.device_id@,
                    name: m.config.name@,
                    value: scaled,
                    unit: m.config.unit@,
                    quality,
                    source_timestamp_ns: source_ns,
                    server_timestamp_ns: server_ns,
                    topic: value_topic(state.gateway_id, m.config.device_id@, m.config.name@),
                },
            ],
            alarms: alarm_events(state.alarms, m.config.name@, scaled, server_ns),
        }
    } else {
        Emitted {
            state,
            events: Seq::<StreamEventView>::empty(),
            alarms: Seq::<AlarmEventOutputView>::empty(),
        }
    }
}

/// Processing of the words from position `i` on.  At each position the
/// register at that address is looked up.  If there is one and the words
/// that its data type takes are there, they are decoded in one pass and
/// processed, and the walk goes on behind them; otherwise it goes on with
/// the next word.  The walk ends with the words, or where the address
/// would pass 65535.
pub open spec fn process_from(state: EmitterState, batch: RawBatch, i: int) -> Emitted
    decreases batch.words.len() - i,
{
    if i < 0 || i >= batch.words.len() || batch.start_address + i > 65535 {
        Emitted {
            state,
            events: Seq::<StreamEventView>::empty(),
            alarms: Seq::<AlarmEventOutputView>::empty(),
        }
    } else {
        let idx = first_match(state.registers, batch.device, batch.start_address + i, 0);
        if idx >= state.registers.len() {
            process_from(state, batch, i + 1)
        } else {
            let config = state.registers[idx].config;
            let count = config.data_type.spec_word_count() as int;
            match spec_decode(
                config.data_type,
                config.word_order,
                batch.words.subrange(i, i + count),
            ) {
                Some(value) => if i + count <= batch.words.len() {
                    let step = emit_step(
                        state,
                        idx,
                        value,
                        batch.quality,
                        batch.source_ns,
                        batch.server_ns,
                    );
                    let rest = process_from(step.state, batch, i + count);
                    Emitted {
                        state: rest.state,
                        events: step.events + rest.events,
                        alarms: step.alarms + rest.alarms,
                    }
                } else {
                    process_from(state, batch, i + 1)
                },
                None => process_from(state, batch, i + 1),
            }
        }
    }
}

/// The emitter after a register was added: a register with the same
/// device and address is replaced, and its last value forgotten.
pub open spec fn spec_add_register(state: EmitterState, config: RegisterConfig) -> EmitterState {
    let idx = first_match(state.registers, config.device_id@, config.address as int, 0);
    EmitterState {
        registers: if idx < state.registers.len() {
            state.registers.update(idx, RegisterMapping { config, last_value: None })
        } else {
            state.registers.push(RegisterMapping { config, last_value: None })
        },
        ..state
    }
}

/// The emitter after an alarm was added: normal, never active, not
/// debounced.  An alarm with the same id is replaced.
pub open spec fn spec_add_alarm(state: EmitterState, config: AlarmConfig) -> EmitterState {
    let idx = first_alarm(state.alarms, config.alarm_id@, 0);
    let fresh = AlarmTracking {
        config,
        state: AlarmState::Normal,
        active_since_ns: None,
        debounce_until_ns: None,
    };
    EmitterState {
        alarms: if idx < state.alarms.len() {
            state.alarms.update(idx, fresh)
        } else {
            state.alarms.push(fresh)
        },
        ..state
    }
}

/// Whether `a` and `b` differ by more than `threshold`.
pub fn differs_by_more(a: i128, b: i128, threshold: i64) -> (r: bool)
    ensures
        r == (a - b > threshold || b - a > threshold),
{
    if threshold < 0 {
        return true;
    }
    let (hi, lo): (i128, i128) = if a >= b {
        (a, b)
    } else {
        (b, a)
    };
    let distance: u128 = if lo >= 0 || hi < 0 {
        (hi - lo) as u128
    } else {
        let below: i128 = -(lo + 1);
        (hi as u128) + (below as u128) + 1
    };
    distance > threshold as u128
}

/// Stream emitter.
pub struct StreamEmitter {
    config: EmitterConfig,
    registers: Vec<RegisterMapping>,
    alarms: Vec<AlarmTracking>,
    event_id: u64,
}

impl View for StreamEmitter {
    type V = EmitterState;

    closed spec fn view(&self) -> EmitterState {
        EmitterState {
            gateway_id: self.config.gateway_id@,
            registers: self.registers@,
            alarms: self.alarms@,
            event_id: self.event_id,
        }
    }
}

impl StreamEmitter {
    /// Validity: no two registers share device and address, no two alarms
    /// share an id.
    pub open spec fn wf(&self) -> bool {
        registers_unique(self@.registers) && alarms_unique(self@.alarms)
    }

    /// Creates an emitter without registers and alarms.  The first event
    /// gets the id 1.
    pub fn new(config: EmitterConfig) -> (emitter: Self)
        ensures
            emitter.wf(),
            emitter@.gateway_id == config.gateway_id@,
            emitter@.registers.len() == 0,
            emitter@.alarms.len() == 0,
            emitter@.event_id == 1,
    {
        StreamEmitter { config, registers: Vec::new(), alarms: Vec::new(), event_id: 1 }
    }

    /// Number of registers.
    pub fn register_count(&self) -> (n: usize)
        ensures
            n == self@.registers.len(),
    {
        self.registers.len()
    }

    /// Number of alarms.
    pub fn alarm_count(&self) -> (n: usize)
        ensures
            n == self@.alarms.len(),
    {
        self.alarms.len()
    }

    /// Looks up the register of a device at an address.
    pub fn find_register(&self, device_id: &String, address: u16) -> (r: Option<usize>)
        ensures
            match r {
                Some(idx) => idx < self@.registers.len() && idx == first_match(
                    self@.registers,
                    device_id@,
                    address as int,
                    0,
                ),
                None => first_match(self@.registers, device_id@, address as int, 0)
                    == self@.registers.len(),
            },
    {
        let mut i: usize = 0;
        while i < self.registers.len()
            invariant
                0 <= i <= self.registers@.len(),
                first_match(self.registers@, device_id@, address as int, 0) == first_match(
                    self.registers@,
                    device_id@,
                    address as int,
                    i as int,
                ),
            decreases self.registers@.len() - i,
        {
            if self.registers[i].config.address == address && self.registers[i].config.device_id
                == *device_id {
                return Some(i);
            }
            i = i + 1;
        }
        None
    }

    /// Looks up the alarm with an id.
    pub fn find_alarm(&self, alarm_id: &String) -> (r: Option<usize>)
        ensures
            match r {
                Some(idx) => idx < self@.alarms.len() && idx == first_alarm(
                    self@.alarms,
                    alarm_id@,
                    0,
                ),
                None => first_alarm(self@.alarms, alarm_id@, 0) == self@.alarms.len(),
            },
    {
        let mut i: usize = 0;
        while i < self.alarms.len()
            invariant
                0 <= i <= self.alarms@.len(),
                first_alarm(self.alarms@, alarm_id@, 0) == first_alarm(
                    self.alarms@,
                    alarm_id@,
                    i as int,
                ),
            decreases self.alarms@.len() - i,
        {
            if self.alarms[i].config.alarm_id == *alarm_id {
                return Some(i);
            }
            i = i + 1;
        }
        None
    }

    /// Returns the state of the alarm with an id.
    pub fn alarm_state(&self, alarm_id: &str) -> (r: Option<AlarmState>)
        ensures
            match r {
                Some(state) => first_alarm(self@.alarms, alarm_id@, 0) < self@.alarms.len()
                    && state == self@.alarms[first_alarm(self@.alarms, alarm_id@, 0)].state,
                None => first_alarm(self@.alarms, alarm_id@, 0) == self@.alarms.len(),
            },
    {
        let id: String = alarm_id.to_owned();
        match self.find_alarm(&id) {
            Some(idx) => Some(self.alarms[idx].state),
            None => None,
        }
    }

    /// Adds a register.  A register with the same device and address is
    /// replaced, and its last value forgotten.
    pub fn add_register(&mut self, config: RegisterConfig)
        requires
            old(self).wf(),
        ensures
            final(self).wf(),
            final(self)@ == spec_add_register(old(self)@, config),
    {
        match self.find_register(&config.device_id, config.address) {
            Some(idx) => {
                proof {
                    lemma_first_match_found(
                        self@.registers,
                        config.device_id@,
                        config.address as int,
                        0,
                    );
                }
                self.registers[idx] = RegisterMapping { config, last_value: None };
            },
            None => {
                proof {
                    lemma_first_match_none(
                        self@.registers,
                        config.device_id@,
                        config.address as int,
                        0,
                    );
                }
                self.registers.push(RegisterMapping { config, last_value: None });
            },
        }
    }

    /// Adds an alarm: normal, never active, not debounced.  An alarm with
    /// the same id is replaced.
    pub fn add_alarm(&mut self, config: AlarmConfig)
        requires
            old(self).wf(),
        ensures
            final(self).wf(),
            final(self)@ == spec_add_alarm(old(self)@, config),
    {
        match self.find_alarm(&config.alarm_id) {
            Some(idx) => {
                proof {
                    lemma_first_alarm_found(self@.alarms, config.alarm_id@, 0);
                }
                self.alarms[idx] = AlarmTracking::new(config);
            },
            None => {
                proof {
                    lemma_first_alarm_none(self@.alarms, config.alarm_id@, 0);
                }
                self.alarms.push(AlarmTracking::new(config));
            },
        }
    }

    /// Generates the topic of a register's value events.
    pub fn generate_topic(&self, config: &RegisterConfig) -> (topic: String)
        ensures
            topic@ == value_topic(self@.gateway_id, config.device_id@, config.name@),
    {
        let mut prefix: Vec<u8> = Vec::new();
        let mut k: usize = 0;
        while k < 8
            invariant
                0 <= k <= 8,
                prefix@ == self.config.gateway_id@.subrange(0, k as int),
            decreases 8 - k,
        {
            prefix.push(self.config.gateway_id[k]);
            assert(prefix@ =~= self.config.gateway_id@.subrange(0, k + 1));
            k = k + 1;
        }
        let hex: String = hex_encode(prefix.as_slice());
        let mut topic: String = "lex://estream/sys/industrial/".to_owned();
        topic.append(hex.as_str());
        topic.append("/device/");
        topic.append(config.device_id.as_str());
        topic.append("/");
        topic.append(config.name.as_str());
        assert(topic@ =~= value_topic(self@.gateway_id, config.device_id@, config.name@));
        topic
    }

    /// Processes one decoded value for the register at `idx`.
    fn emit_register(
        &mut self,
        idx: usize,
        value: &RegisterValue,
        quality: Quality,
        source_ns: u64,
        server_ns: u64,
    ) -> (out: (Option<StreamEvent>, Vec<AlarmEventOutput>))
        requires
            idx < old(self)@.registers.len(),
        ensures
            final(self)@ == emit_step(
                old(self)@,
                idx as int,
                value@,
                quality,
                source_ns,
                server_ns,
            ).state,
            (match out.0 {
                Some(e) => seq![e@],
                None => Seq::<StreamEventView>::empty(),
            }) == emit_step(old(self)@, idx as int, value@, quality, source_ns, server_ns).events,
            alarm_views(out.1@) == emit_step(
                old(self)@,
                idx as int,
                value@,
                quality,
                source_ns,
                server_ns,
            ).alarms,
    {
        let scaled: Reading = value.scaled(
            self.registers[idx].config.scale_micro,
            self.registers[idx].config.offset_micro,
        );
        let emit: bool = if self.registers[idx].config.emit_on_change {
            match self.registers[idx].last_value {
                Some(Reading::Number(l)) => match scaled {
                    Reading::Number(s) => differs_by_more(
                        s,
                        l,
                        self.registers[idx].config.change_threshold_micro,
                    ),
                    Reading::NotANumber => false,
                },
                Some(Reading::NotANumber) => false,
                None => true,
            }
        } else {
            true
        };
        if !emit {
            let none: Vec<AlarmEventOutput> = Vec::new();
            assert(alarm_views(none@) =~= Seq::<AlarmEventOutputView>::empty());
            return (None, none);
        }
        self.registers[idx].last_value = Some(scaled);
        let event_id: u64 = self.event_id;
        self.event_id = if event_id == u64::MAX {
            0
        } else {
            event_id + 1
        };
        let topic: String = self.generate_topic(&self.registers[idx].config);
        let event = StreamEvent {
            event_id,
            device_id: self.registers[idx].config.device_id.clone(),
            name: self.registers[idx].config.name.clone(),
            value: scaled,
            unit: self.registers[idx].config.unit.clone(),
            quality,
            source_timestamp_ns: source_ns,
            server_timestamp_ns: server_ns,
            topic,
        };
        let name: String = self.registers[idx].config.name.clone();
        let alarms: Vec<AlarmEventOutput> = evaluate_alarms(
            &mut self.alarms,
            &name,
            scaled,
            server_ns,
        );
        proof {
            let step = emit_step(old(self)@, idx as int, value@, quality, source_ns, server_ns);
            assert(self@.registers =~= step.state.registers);
            assert(self@.alarms =~= step.state.alarms);
            assert(seq![event@] =~= step.events);
        }
        (Some(event), alarms)
    }

    /// Processes the raw words of one read at the given server time.
    ///
    /// The result and the emitter afterwards are those of `process_from` at
    /// position 0, with the source timestamp defaulting to the server
    /// timestamp.
    pub fn process_raw_at(
        &mut self,
        device_id: &str,
        start_address: u16,
        values: &[u16],
        quality: Quality,
        source_timestamp_ns: Option<u64>,
        server_timestamp_ns: u64,
    ) -> (out: EmitterOutput)
        ensures
            ({
                let batch = raw_batch(
                    device_id@,
                    start_address,
                    values@,
                    quality,
                    source_timestamp_ns,
                    server_timestamp_ns,
                );
                &&& final(self)@ == process_from(old(self)@, batch, 0).state
                &&& stream_views(out.events@) == process_from(old(self)@, batch, 0).events
                &&& alarm_views(out.alarms@) == process_from(old(self)@, batch, 0).alarms
            }),
            old(self).wf() ==> final(self).wf(),
    {
        let device: String = device_id.to_owned();
        let source_ns: u64 = match source_timestamp_ns {
            Some(t) => t,
            None => server_timestamp_ns,
        };
        let ghost batch = raw_batch(
            device_id@,
            start_address,
            values@,
            quality,
            source_timestamp_ns,
            server_timestamp_ns,
        );
        let ghost total = process_from(old(self)@, batch, 0);
        let mut events: Vec<StreamEvent> = Vec::new();
        let mut alarms: Vec<AlarmEventOutput> = Vec::new();
        let mut i: usize = 0;
        assert(stream_views(events@) =~= Seq::<StreamEventView>::empty());
        assert(alarm_views(alarms@) =~= Seq::<AlarmEventOutputView>::empty());
        assert(total.events =~= stream_views(events@) + total.events);
        assert(total.alarms =~= alarm_views(alarms@) + total.alarms);
        while i < values.len() && i <= 65535 - (start_address as usize)
            invariant
                0 <= i <= values@.len(),
                device@ == batch.device,
                batch.start_address == start_address,
                batch.words == values@,
                batch.quality == quality,
                batch.source_ns == source_ns,
                batch.server_ns == server_timestamp_ns,
                total.state == process_from(self@, batch, i as int).state,
                total.events == stream_views(events@) + process_from(self@, batch, i as int).events,
                total.alarms == alarm_views(alarms@) + process_from(self@, batch, i as int).alarms,
                old(self).wf() ==> self.wf(),
            decreases values@.len() - i,
        {
            let address: u16 = ((start_address as usize) + i) as u16;
            let ghost before = self@;
            let ghost events_before = stream_views(events@);
            let ghost alarms_before = alarm_views(alarms@);
            match self.find_register(&device, address) {
                None => {
                    i = i + 1;
                },
                Some(idx) => {
                    let count: usize = self.registers[idx].config.data_type.word_count() as usize;
                    if i + count > values.len() {
                        i = i + 1;
                    } else {
                        let chunk: &[u16] = slice_subrange(values, i, i + count);
                        match decode_words(
                            self.registers[idx].config.data_type,
                            self.registers[idx].config.word_order,
                            chunk,
                        ) {
                            None => {
                                i = i + 1;
                            },
                            Some(value) => {
                                let (event, mut step_alarms) = self.emit_register(
                                    idx,
                                    &value,
                                    quality,
                                    source_ns,
                                    server_timestamp_ns,
                                );
                                proof {
                                    let step = emit_step(
                                        before,
                                        idx as int,
                                        value@,
                                        quality,
                                        source_ns,
                                        server_timestamp_ns,
                                    );
                                    lemma_emit_step_keeps_unique(
                                        before,
                                        idx as int,
                                        value@,
                                        quality,
                                        source_ns,
                                        server_timestamp_ns,
                                    );
                                    let rest = process_from(step.state, batch, i + count);
                                    assert(process_from(before, batch, i as int).events
                                        == step.events + rest.events);
                                    assert(process_from(before, batch, i as int).alarms
                                        == step.alarms + rest.alarms);
                                }
                                let ghost step_alarm_views = alarm_views(step_alarms@);
                                match event {
                                    Some(e) => {
                                        events.push(e);
                                        assert(stream_views(events@) =~= events_before + seq![e@]);
                                    },
                                    None => {
                                        assert(stream_views(events@) =~= events_before
                                            + Seq::<StreamEventView>::empty());
                                    },
                                }
                                alarms.append(&mut step_alarms);
                                assert(alarm_views(alarms@) =~= alarms_before + step_alarm_views);
                                proof {
                                    let step = emit_step(
                                        before,
                                        idx as int,
                                        value@,
                                        quality,
                                        source_ns,
                                        server_timestamp_ns,
                                    );
                                    let rest = process_from(step.state, batch, i + count);
                                    assert(total.events =~= stream_views(events@) + rest.events);
                                    assert(total.alarms =~= alarm_views(alarms@) + rest.alarms);
                                }
                                i = i + count;
                            },
                        }
                    }
                },
            }
        }
        proof {
            let rest = process_from(self@, batch, i as int);
            assert(total.events =~= stream_views(events@));
            assert(total.alarms =~= alarm_views(alarms@));
        }
        EmitterOutput { events, alarms }
    }

    /// Processes the raw words of one read, stamped with the current time.
    /// The result is always `Ok`: what `process_raw_at` gives at the time
    /// that the clock returned.
    pub fn process_raw(
        &mut self,
        device_id: &str,
        start_address: u16,
        values: &[u16],
        quality: Quality,
        source_timestamp_ns: Option<u64>,
    ) -> (r: Result<EmitterOutput, IndustrialError>)
        ensures
            r matches Ok(out) && exists|server_ns: u64|
                {
                    &&& final(self)@ == (#[trigger] process_from(
                        old(self)@,
                        raw_batch(
                            device_id@,
                            start_address,
                            values@,
                            quality,
                            source_timestamp_ns,
                            server_ns,
                        ),
                        0,
                    )).state
                    &&& stream_views(out.events@) == process_from(
                        old(self)@,
                        raw_batch(
                            device_id@,
                            start_address,
                            values@,
                            quality,
                            source_timestamp_ns,
                            server_ns,
                        ),
                        0,
                    ).events
                    &&& alarm_views(out.alarms@) == process_from(
                        old(self)@,
                        raw_batch(
                            device_id@,
                            start_address,
                            values@,
                            quality,
                            source_timestamp_ns,
                            server_ns,
                        ),
                        0,
                    ).alarms
                },
            old(self).wf() ==> final(self).wf(),
    {
        let server_ns: u64 = timestamp_ns();
        let out: EmitterOutput = self.process_raw_at(
            device_id,
            start_address,
            values,
            quality,
            source_timestamp_ns,
            server_ns,
        );
        proof {
            let batch = raw_batch(
                device_id@,
                start_address,
                values@,
                quality,
                source_timestamp_ns,
                server_ns,
            );
            assert(self@ == process_from(old(self)@, batch, 0).state);
        }
        Ok(out)
    }
}

/// Where `first_match` finds a register, it has the key and none before it
/// has.
pub proof fn lemma_first_match_found(
    registers: Seq<RegisterMapping>,
    device: Seq<char>,
    address: int,
    from: int,
)
    requires
        0 <= from,
        first_match(registers, device, address, from) < registers.len(),
    ensures
        from <= first_match(registers, device, address, from),
        key_matches(registers[first_match(registers, device, address, from)], device, address),
        forall|k: int|
            from <= k < first_match(registers, device, address, from) ==> !key_matches(
                #[trigger] registers[k],
                device,
                address,
            ),
    decreases registers.len() - from,
{
    if from < registers.len() && !key_matches(registers[from], device, address) {
        lemma_first_match_found(registers, device, address, from + 1);
    }
}

/// Where `first_match` finds no register, none from `from` on has the key.
pub proof fn lemma_first_match_none(
    registers: Seq<RegisterMapping>,
    device: Seq<char>,
    address: int,
    from: int,
)
    requires
        0 <= from,
        first_match(registers, device, address, from) >= registers.len(),
    ensures
        forall|k: int|
            from <= k < registers.len() ==> !key_matches(#[trigger] registers[k], device, address),
    decreases registers.len() - from,
{
    if from < registers.len() {
        lemma_first_match_none(registers, device, address, from + 1);
    }
}

/// Where `first_alarm` finds an alarm, it has the id and none before it
/// has.
pub proof fn lemma_first_alarm_found(alarms: Seq<AlarmTracking>, alarm_id: Seq<char>, from: int)
    requires
        0 <= from,
        first_alarm(alarms, alarm_id, from) < alarms.len(),
    ensures
        from <= first_alarm(alarms, alarm_id, from),
        alarms[first_alarm(alarms, alarm_id, from)].config.alarm_id@ == alarm_id,
        forall|k: int|
            from <= k < first_alarm(alarms, alarm_id, from) ==> (#[trigger] alarms[k]).config.alarm_id@
                != alarm_id,
    decreases alarms.len() - from,
{
    if from < alarms.len() && alarms[from].config.alarm_id@ != alarm_id {
        lemma_first_alarm_found(alarms, alarm_id, from + 1);
    }
}

/// Where `first_alarm` finds no alarm, none from `from` on has the id.
pub proof fn lemma_first_alarm_none(alarms: Seq<AlarmTracking>, alarm_id: Seq<char>, from: int)
    requires
        0 <= from,
        first_alarm(alarms, alarm_id, from) >= alarms.len(),
    ensures
        forall|k: int|
            from <= k < alarms.len() ==> (#[trigger] alarms[k]).config.alarm_id@ != alarm_id,
    decreases alarms.len() - from,
{
    if from < alarms.len() {
        lemma_first_alarm_none(alarms, alarm_id, from + 1);
    }
}

/// Processing a value keeps every register's key and every alarm's id, so
/// it keeps them unique.
pub proof fn lemma_emit_step_keeps_unique(
    state: EmitterState,
    idx: int,
    value: RegisterValueView,
    quality: Quality,
    source_ns: u64,
    server_ns: u64,
)
    requires
        0 <= idx < state.registers.len(),
    ensures
        registers_unique(state.registers) ==> registers_unique(
            emit_step(state, idx, value, quality, source_ns, server_ns).state.registers,
        ),
        alarms_unique(state.alarms) ==> alarms_unique(
            emit_step(state, idx, value, quality, source_ns, server_ns).state.alarms,
        ),
{
    let after = emit_step(state, idx, value, quality, source_ns, server_ns).state;
    assert(after.registers.len() == state.registers.len());
    assert forall|k: int| 0 <= k < state.registers.len() implies (#[trigger] after.registers[k]).config
        == state.registers[k].config by {}
    assert forall|k: int| 0 <= k < state.alarms.len() implies (#[trigger] after.alarms[k]).config
        == state.alarms[k].config by {}
    if registers_unique(state.registers) {
        assert forall|i: int, j: int| 0 <= i < j < after.registers.len() implies !key_matches(
            #[trigger] after.registers[j],
            (#[trigger] after.registers[i]).config.device_id@,
            after.registers[i].config.address as int,
        ) by {
            assert(!key_matches(
                state.registers[j],
                state.registers[i].config.device_id@,
                state.registers[i].config.address as int,
            ));
        }
    }
    if alarms_unique(state.alarms) {
        assert forall|i: int, j: int| 0 <= i < j < after.alarms.len() implies (
        #[trigger] after.alarms[i]).config.alarm_id@ != (#[trigger] after.alarms[j]).config.alarm_id@ by {
            assert(state.alarms[i].config.alarm_id@ != state.alarms[j].config.alarm_id@);
        }
    }
}

/// Change detection: right after a register emitted a value, a value
/// within the change threshold of it produces no event and changes
/// nothing.  The threshold must not be negative.
pub proof fn lemma_unchanged_value_emits_once(
    state: EmitterState,
    idx: int,
    first: RegisterValueView,
    second: RegisterValueView,
    quality: Quality,
    source_ns: u64,
    server_ns: u64,
)
    requires
        0 <= idx < state.registers.len(),
        state.registers[idx].config.emit_on_change,
        state.registers[idx].config.change_threshold_micro >= 0,
        ({
            let config = state.registers[idx].config;
            let a = spec_scaled_reading(first, config.scale_micro, config.offset_micro);
            let b = spec_scaled_reading(second, config.scale_micro, config.offset_micro);
            match (a, b) {
                (Reading::Number(x), Reading::Number(y)) => x - y
                    <= config.change_threshold_micro && y - x <= config.change_threshold_micro,
                _ => true,
            }
        }),
        emit_step(state, idx, first, quality, source_ns, server_ns).events.len() == 1,
    ensures
        ({
            let after = emit_step(state, idx, first, quality, source_ns, server_ns).state;
            let again = emit_step(after, idx, second, quality, source_ns, server_ns);
            again.events.len() == 0 && again.alarms.len() == 0 && again.state == after
        }),
{
}


/// Where `first_match` finds a register from position 0 on, the register
/// has the key.
proof fn lemma_match_has_key(registers: Seq<RegisterMapping>, device: Seq<char>, address: int)
    ensures
        first_match(registers, device, address, 0) < registers.len() ==> 0 <= first_match(
            registers,
            device,
            address,
            0,
        ) && key_matches(registers[first_match(registers, device, address, 0)], device, address),
{
    if first_match(registers, device, address, 0) < registers.len() {
        lemma_first_match_found(registers, device, address, 0);
    }
}

/// Topics: every value event of one call names the call's device, and
/// its topic is `lex://estream/sys/industrial/{gw}/device/{device}/{name}`
/// with the event's own device and register name and the hex of the first
/// 8 bytes of the gateway id.  The gateway id never changes.
pub proof fn lemma_event_topics(state: EmitterState, batch: RawBatch, i: int)
    requires
        0 <= i,
    ensures
        process_from(state, batch, i).state.gateway_id == state.gateway_id,
        forall|k: int|
            0 <= k < process_from(state, batch, i).events.len() ==> (#[trigger] process_from(
                state,
                batch,
                i,
            ).events[k]).device_id == batch.device && process_from(state, batch, i).events[k].topic
                == value_topic(
                state.gateway_id,
                batch.device,
                process_from(state, batch, i).events[k].name,
            ),
    decreases batch.words.len() - i,
{
    if i < batch.words.len() && batch.start_address + i <= 65535 {
        let idx = first_match(state.registers, batch.device, batch.start_address + i, 0);
        lemma_match_has_key(state.registers, batch.device, batch.start_address + i);
        if idx >= state.registers.len() {
            lemma_event_topics(state, batch, i + 1);
        } else {
            let config = state.registers[idx].config;
            let count = config.data_type.spec_word_count() as int;
            match spec_decode(
                config.data_type,
                config.word_order,
                batch.words.subrange(i, i + count),
            ) {
                Some(value) => {
                    if i + count <= batch.words.len() {
                        let step = emit_step(
                            state,
                            idx,
                            value,
                            batch.quality,
                            batch.source_ns,
                            batch.server_ns,
                        );
                        lemma_event_topics(step.state, batch, i + count);
                        let rest = process_from(step.state, batch, i + count);
                        let all = process_from(state, batch, i).events;
                        assert(all == step.events + rest.events);
                        assert forall|k: int| 0 <= k < all.len() implies (#[trigger] all[k]).device_id
                            == batch.device && all[k].topic == value_topic(
                            state.gateway_id,
                            batch.device,
                            all[k].name,
                        ) by {
                            if k < step.events.len() {
                                assert(all[k] == step.events[k]);
                            } else {
                                assert(all[k] == rest.events[k - step.events.len()]);
                            }
                        }
                    } else {
                        lemma_event_topics(state, batch, i + 1);
                    }
                },
                None => {
                    lemma_event_topics(state, batch, i + 1);
                },
            }
        }
    }
}

} // verus!
