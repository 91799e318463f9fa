//! Poll scheduler: due times per poll item, a global rate cap, and
//! adaptive intervals that back off on failure and reset on success.
//!
//! The scheduler never sleeps and never reads a clock.  `poll` takes the
//! current time and says what to do next: wait, retry after the rate cap's
//! remainder, or dispatch a trigger.

use vstd::prelude::*;
use std::collections::HashMap;
use crate::industrial::config::RegisterConfig;
use crate::industrial::schedule_entry::{ScheduleEntry, is_more_urgent, more_urgent};
use crate::industrial::types::{RegisterType, latency_ema, spec_latency_ema, timestamp_ns};

verus! {

broadcast use vstd::std_specs::hash::group_hash_axioms;

/// Poll scheduler configuration.
#[derive(Debug, Clone, Copy, PartialEq, Eq, Structural)]
pub struct SchedulerConfig {
    /// Maximum polls per second (rate limit)
    pub max_polls_per_second: u32,
    /// Enable adaptive scheduling
    pub adaptive_enabled: bool,
    /// Backoff factor on errors, in thousandths
    pub backoff_factor_milli: u32,
    /// Maximum backoff interval in milliseconds
    pub max_backoff_interval_ms: u32,
}

impl Default for SchedulerConfig {
    fn default() -> (c: Self)
        ensures
            c == (SchedulerConfig {
                max_polls_per_second: 100,
                adaptive_enabled: true,
                backoff_factor_milli: 1500,
                max_backoff_interval_ms: 60000,
            }),
    {
        SchedulerConfig {
            max_polls_per_second: 100,
            adaptive_enabled: true,
            backoff_factor_milli: 1500,
            max_backoff_interval_ms: 60000,
        }
    }
}

/// A scheduled poll item.
#[derive(Debug)]
pub struct PollItem {
    /// Unique poll id
    pub poll_id: u32,
    /// Device id
    pub device_id: String,
    /// Register name
    pub name: String,
    /// Register class
    pub register_type: RegisterType,
    /// Starting address
    pub address: u16,
    /// Number of registers
    pub count: u16,
    /// Base poll interval in milliseconds
    pub base_interval_ms: u32,
    /// Current effective interval
    pub current_interval_ms: u32,
    /// Priority (higher is more important)
    pub priority: u8,
    /// Whether enabled
    pub enabled: bool,
}

impl Clone for PollItem {
    fn clone(&self) -> (c: Self)
        ensures
            c == *self,
    {
        PollItem {
            poll_id: self.poll_id,
            device_id: self.device_id.clone(),
            name: self.name.clone(),
            register_type: self.register_type,
            address: self.address,
            count: self.count,
            base_interval_ms: self.base_interval_ms,
            current_interval_ms: self.current_interval_ms,
            priority: self.priority,
            enabled: self.enabled,
        }
    }
}

impl PollItem {
    /// The poll item of a register: it fetches as many words as the
    /// register's data type takes, at the register's interval and
    /// priority, and is enabled.
    pub fn from_register(config: &RegisterConfig, poll_id: u32) -> (item: Self)
        ensures
            item == (PollItem {
                poll_id,
                device_id: config.device_id,
                name: config.name,
                register_type: config.register_type,
                address: config.address,
                count: config.data_type.spec_word_count(),
                base_interval_ms: config.poll_interval_ms,
                current_interval_ms: config.poll_interval_ms,
                priority: config.priority,
                enabled: true,
            }),
    {
        PollItem {
            poll_id,
            device_id: config.device_id.clone(),
            name: config.name.clone(),
            register_type: config.register_type,
            address: config.address,
            count: config.data_type.word_count(),
            base_interval_ms: config.poll_interval_ms,
            current_interval_ms: config.poll_interval_ms,
            priority: config.priority,
            enabled: true,
        }
    }
}

/// Poll status of a single item.
#[derive(Debug, Clone, Copy, PartialEq, Eq, Structural)]
pub struct PollStatus {
    /// Current effective interval
    pub current_interval_ms: u32,
    /// Last poll timestamp
    pub last_poll_ns: u64,
    /// Next scheduled poll timestamp
    pub next_poll_ns: u64,
    /// Total polls completed
    pub polls_total: u64,
    /// Successful polls
    pub polls_success: u64,
    /// Failed polls
    pub polls_failed: u64,
    /// Average latency in microseconds
    pub avg_latency_us: u32,
    /// Consecutive failures
    pub consecutive_failures: u16,
}

impl Default for PollStatus {
    fn default() -> (s: Self)
        ensures
            s == (PollStatus {
                current_interval_ms: 0,
                last_poll_ns: 0,
                next_poll_ns: 0,
                polls_total: 0,
                polls_success: 0,
                polls_failed: 0,
                avg_latency_us: 0,
                consecutive_failures: 0,
            }),
    {
        PollStatus {
            current_interval_ms: 0,
            last_poll_ns: 0,
            next_poll_ns: 0,
            polls_total: 0,
            polls_success: 0,
            polls_failed: 0,
            avg_latency_us: 0,
            consecutive_failures: 0,
        }
    }
}

/// A poll trigger.
#[derive(Debug)]
pub struct PollTrigger {
    /// Poll id
    pub poll_id: u32,
    /// Device id
    pub device_id: String,
    /// Register class
    pub register_type: RegisterType,
    /// Address
    pub address: u16,
    /// Count
    pub count: u16,
    /// Sequence number
    pub sequence_number: u64,
    /// Scheduled time
    pub scheduled_time_ns: u64,
    /// Actual trigger time
    pub actual_time_ns: u64,
}

/// Poll completion feedback.
#[derive(Debug, Clone, Copy, PartialEq, Eq, Structural)]
pub struct PollComplete {
    /// Poll id
    pub poll_id: u32,
    /// Sequence number
    pub sequence_number: u64,
    /// Success status
    pub success: bool,
    /// Latency in microseconds
    pub latency_us: u32,
}

/// What the scheduler asks its driver to do next.
#[derive(Debug)]
pub enum SchedulerAction {
    /// The scheduler is stopped
    Stopped,
    /// Nothing is due: sleep, then ask again
    Idle { sleep_ms: u64 },
    /// A stale or disabled entry was dropped: ask again at once
    Discarded { poll_id: u32 },
    /// The rate cap holds the next dispatch back: sleep, then ask again
    Throttled { wait_ns: u64 },
    /// Dispatch this trigger
    Trigger(PollTrigger),
}

/// How long the driver sleeps when nothing is due, in milliseconds.
pub const IDLE_SLEEP_MS: u64 = 10;

/// The scheduler as a mathematical value.
pub struct SchedulerState {
    /// Configuration
    pub config: SchedulerConfig,
    /// Poll items, by poll id
    pub items: Map<u32, PollItem>,
    /// Status of each item, by poll id
    pub status: Map<u32, PollStatus>,
    /// The schedule
    pub schedule: Seq<ScheduleEntry>,
    /// Sequence number of the next trigger
    pub sequence: u64,
    /// Time of the last dispatch, if there was one
    pub last_dispatch_ns: Option<u64>,
    /// Whether the scheduler runs
    pub running: bool,
}

/// Whether no two schedule entries share a poll id.
pub open spec fn entries_unique(schedule: Seq<ScheduleEntry>) -> bool {
    forall|i: int, j: int|
        0 <= i < j < schedule.len() ==> (#[trigger] schedule[i]).poll_id
            != (#[trigger] schedule[j]).poll_id
}

/// The schedule without the entries of a poll id.
pub open spec fn without_poll(schedule: Seq<ScheduleEntry>, poll_id: u32) -> Seq<ScheduleEntry>
    decreases schedule.len(),
{
    if schedule.len() == 0 {
        Seq::<ScheduleEntry>::empty()
    } else {
        let before = without_poll(schedule.drop_last(), poll_id);
        if schedule.last().poll_id == poll_id {
            before
        } else {
            before.push(schedule.last())
        }
    }
}

/// `without_poll` keeps only entries of the schedule, in order, none of
/// them of the given poll id, and keeps the entries unique.
pub proof fn lemma_without_poll(schedule: Seq<ScheduleEntry>, poll_id: u32)
    ensures
        without_poll(schedule, poll_id).len() <= schedule.len(),
        forall|k: int|
            0 <= k < without_poll(schedule, poll_id).len() ==> (#[trigger] without_poll(
                schedule,
                poll_id,
            )[k]).poll_id != poll_id && schedule.contains(without_poll(schedule, poll_id)[k]),
        forall|k: int|
            0 <= k < schedule.len() && (#[trigger] schedule[k]).poll_id != poll_id
                ==> without_poll(schedule, poll_id).contains(schedule[k]),
        entries_unique(schedule) ==> entries_unique(without_poll(schedule, poll_id)),
    decreases schedule.len(),
{
    if schedule.len() > 0 {
        let front = schedule.drop_last();
        let before = without_poll(front, poll_id);
        let result = without_poll(schedule, poll_id);
        lemma_without_poll(front, poll_id);
        assert forall|k: int| 0 <= k < result.len() implies (#[trigger] result[k]).poll_id
            != poll_id && schedule.contains(result[k]) by {
            if k < before.len() {
                assert(front.contains(before[k]));
                let w = choose|w: int| 0 <= w < front.len() && front[w] == before[k];
                assert(schedule[w] == before[k]);
            } else {
                assert(result[k] == schedule.last());
                assert(schedule[schedule.len() - 1] == schedule.last());
            }
        }
        assert forall|k: int|
            0 <= k < schedule.len() && (#[trigger] schedule[k]).poll_id
                != poll_id implies result.contains(schedule[k]) by {
            if k < front.len() {
                assert(front[k] == schedule[k]);
                assert(before.contains(front[k]));
                let w = choose|w: int| 0 <= w < before.len() && before[w] == front[k];
                assert(result[w] == schedule[k]);
            } else {
                assert(result[result.len() - 1] == schedule[k]);
            }
        }
        if entries_unique(schedule) {
            assert(entries_unique(front)) by {
                assert forall|i: int, j: int| 0 <= i < j < front.len() implies (
                #[trigger] front[i]).poll_id != (#[trigger] front[j]).poll_id by {
                    assert(schedule[i].poll_id != schedule[j].poll_id);
                }
            }
            assert forall|i: int, j: int| 0 <= i < j < result.len() implies (
            #[trigger] result[i]).poll_id != (#[trigger] result[j]).poll_id by {
                if j < before.len() {
                } else {
                    assert(front.contains(before[i]));
                    let w = choose|w: int| 0 <= w < front.len() && front[w] == before[i];
                    assert(schedule[w].poll_id != schedule[schedule.len() - 1].poll_id);
                }
            }
        }
    }
}

/// Index of the most urgent of the first `n` entries (0 for an empty
/// schedule).
pub open spec fn head_of(schedule: Seq<ScheduleEntry>, n: int) -> int
    decreases n,
{
    if n <= 1 {
        0
    } else {
        let h = head_of(schedule, n - 1);
        if more_urgent(schedule[n - 1], schedule[h]) {
            n - 1
        } else {
            h
        }
    }
}

/// The head is among the first `n` entries, and none of them is more
/// urgent.
pub proof fn lemma_head_is_most_urgent(schedule: Seq<ScheduleEntry>, n: int)
    requires
        1 <= n <= schedule.len(),
    ensures
        0 <= head_of(schedule, n) < n,
        forall|k: int|
            0 <= k < n ==> !more_urgent(#[trigger] schedule[k], schedule[head_of(schedule, n)]),
    decreases n,
{
    if n > 1 {
        lemma_head_is_most_urgent(schedule, n - 1);
    }
}

/// The least gap between two dispatches under a rate cap: one second
/// divided by the rate, rounded up to whole nanoseconds.
pub open spec fn min_gap_ns(rate: u32) -> int {
    if rate == 0 {
        0
    } else {
        (1_000_000_000 + rate - 1) / (rate as int)
    }
}

/// `rate` gaps span at least one second; where the rate divides a second,
/// the gap is exactly one second divided by the rate.
pub proof fn lemma_min_gap(rate: u32)
    requires
        rate > 0,
    ensures
        min_gap_ns(rate) * rate >= 1_000_000_000,
        min_gap_ns(rate) >= 1,
        1_000_000_000int % (rate as int) == 0 ==> min_gap_ns(rate) == 1_000_000_000int / (
        rate as int),
{
    let r: int = rate as int;
    let n: int = 1_000_000_000 + r - 1;
    vstd::arithmetic::div_mod::lemma_fundamental_div_mod(n, r);
    vstd::arithmetic::div_mod::lemma_mod_bound(n, r);
    assert(r * (n / r) == (n / r) * r) by (nonlinear_arith);
    assert(n / r >= 1) by {
        vstd::arithmetic::div_mod::lemma_div_is_ordered(r, n, r);
        vstd::arithmetic::div_mod::lemma_div_multiples_vanish(1, r);
        assert(r * 1 == r);
    }
    if 1_000_000_000int % r == 0 {
        let q: int = 1_000_000_000int / r;
        vstd::arithmetic::div_mod::lemma_fundamental_div_mod(1_000_000_000, r);
        assert(n == r * q + (r - 1));
        assert(q * r == r * q) by (nonlinear_arith);
        vstd::arithmetic::div_mod::lemma_fundamental_div_mod_converse(n, r, q, r - 1);
    }
}

/// Rate cap: where consecutive dispatches lie at least `min_gap_ns(rate)`
/// apart, any `rate + 1` dispatches span at least one second.  So no
/// half-open window of one second holds more than `rate` dispatches.
pub proof fn lemma_rate_cap(times: Seq<int>, rate: u32, i: int, j: int)
    requires
        rate > 0,
        forall|k: int|
            0 <= k < times.len() - 1 ==> #[trigger] times[k + 1] - times[k] >= min_gap_ns(rate),
        0 <= i <= j < times.len(),
    ensures
        times[j] - times[i] >= (j - i) * min_gap_ns(rate),
        j - i >= rate ==> times[j] - times[i] >= 1_000_000_000,
    decreases j - i,
{
    let gap: int = min_gap_ns(rate);
    lemma_min_gap(rate);
    if i < j {
        lemma_rate_cap(times, rate, i, j - 1);
        assert(times[(j - 1) + 1] - times[j - 1] >= gap);
        assert((j - i) * gap == (j - 1 - i) * gap + gap) by (nonlinear_arith);
    } else {
        assert((j - i) * gap == 0) by (nonlinear_arith)
            requires
                j - i == 0,
        ;
    }
    if j - i >= rate {
        assert((j - i) * gap >= rate * gap) by (nonlinear_arith)
            requires
                j - i >= rate,
                gap >= 0,
        ;
        assert(rate * gap == gap * rate) by (nonlinear_arith);
    }
}

/// The interval after one failure: the current interval times the backoff
/// factor, in whole milliseconds, capped at the maximum backoff interval.
pub open spec fn backoff_step(config: SchedulerConfig, current_ms: u32) -> u32 {
    let grown: int = (current_ms as int * config.backoff_factor_milli as int) / 1000;
    if grown > config.max_backoff_interval_ms {
        config.max_backoff_interval_ms
    } else {
        grown as u32
    }
}

/// The interval after `k` consecutive failures that follow a success (or
/// the item's registration): `backoff_step` applied `k` times to the base
/// interval.
pub open spec fn backoff_after(config: SchedulerConfig, base_ms: u32, k: nat) -> u32
    decreases k,
{
    if k == 0 {
        base_ms
    } else {
        backoff_step(config, backoff_after(config, base_ms, (k - 1) as nat))
    }
}

/// `base` to the power `k`.
pub open spec fn int_pow(base: int, k: nat) -> int
    decreases k,
{
    if k == 0 {
        1
    } else {
        base * int_pow(base, (k - 1) as nat)
    }
}

/// For a factor of at least one, the interval never falls below the cap
/// once it has reached it; so from a base interval above the maximum
/// backoff interval, the interval after any number of failures, at least
/// one, is the maximum.
pub proof fn lemma_backoff_from_above_cap(config: SchedulerConfig, base_ms: u32, k: nat)
    requires
        config.backoff_factor_milli >= 1000,
        base_ms > config.max_backoff_interval_ms,
        k >= 1,
    ensures
        backoff_after(config, base_ms, k) == config.max_backoff_interval_ms,
    decreases k,
{
    let f: int = config.backoff_factor_milli as int;
    let max: int = config.max_backoff_interval_ms as int;
    let prev: int = backoff_after(config, base_ms, (k - 1) as nat) as int;
    if k > 1 {
        lemma_backoff_from_above_cap(config, base_ms, (k - 1) as nat);
    }
    assert(prev >= max);
    assert(prev * f >= 1000 * max) by (nonlinear_arith)
        requires
            prev >= max,
            f >= 1000,
            max >= 0,
    ;
    vstd::arithmetic::div_mod::lemma_div_is_ordered(1000 * max, prev * f, 1000);
    vstd::arithmetic::div_mod::lemma_div_multiples_vanish(max, 1000);
}

/// For a whole backoff factor of at least one, the interval after `k`
/// consecutive failures is the base interval times the factor to the power
/// `k`, capped at the maximum backoff interval.
pub proof fn lemma_backoff_closed_form(config: SchedulerConfig, base_ms: u32, k: nat)
    requires
        config.backoff_factor_milli % 1000 == 0,
        config.backoff_factor_milli >= 1000,
        base_ms <= config.max_backoff_interval_ms || k >= 1,
    ensures
        int_pow(config.backoff_factor_milli as int / 1000, k) >= 1,
        backoff_after(config, base_ms, k) as int == (if base_ms * int_pow(
            config.backoff_factor_milli as int / 1000,
            k,
        ) > config.max_backoff_interval_ms {
            config.max_backoff_interval_ms as int
        } else {
            base_ms * int_pow(config.backoff_factor_milli as int / 1000, k)
        }),
    decreases k,
{
    let f: int = config.backoff_factor_milli as int / 1000;
    let max: int = config.max_backoff_interval_ms as int;
    let base: int = base_ms as int;
    assert(config.backoff_factor_milli as int == 1000 * f);
    assert(f >= 1);
    if base > max {
        lemma_backoff_from_above_cap(config, base_ms, k);
        lemma_int_pow_positive(f, k);
        let q: int = int_pow(f, k);
        assert(base * q >= base) by (nonlinear_arith)
            requires
                q >= 1,
                base >= 0,
        ;
    } else if k == 0 {
        assert(int_pow(f, 0) == 1);
        assert(base * int_pow(f, 0) == base) by (nonlinear_arith)
            requires
                int_pow(f, 0) == 1,
        ;
    } else {
        lemma_backoff_closed_form(config, base_ms, (k - 1) as nat);
        let prev: int = backoff_after(config, base_ms, (k - 1) as nat) as int;
        let p: int = int_pow(f, (k - 1) as nat);
        let q: int = int_pow(f, k);
        assert(q == f * p);
        assert(q >= 1) by (nonlinear_arith)
            requires
                q == f * p,
                f >= 1,
                p >= 1,
        ;
        let grown: int = (prev * config.backoff_factor_milli as int) / 1000;
        assert(grown == prev * f) by {
            assert(prev * config.backoff_factor_milli as int == 1000 * (prev * f))
                by (nonlinear_arith)
                requires
                    config.backoff_factor_milli as int == 1000 * f,
            ;
            vstd::arithmetic::div_mod::lemma_div_multiples_vanish(prev * f, 1000);
        }
        assert(backoff_after(config, base_ms, k) == backoff_step(
            config,
            backoff_after(config, base_ms, (k - 1) as nat),
        ));
        assert(backoff_after(config, base_ms, k) as int == (if grown > max {
            max
        } else {
            grown
        }));
        if base * p > max {
            assert(prev == max);
            assert(prev * f >= max) by (nonlinear_arith)
                requires
                    prev == max,
                    f >= 1,
                    max >= 0,
            ;
            assert(base * q >= base * p) by (nonlinear_arith)
                requires
                    q == f * p,
                    f >= 1,
                    p >= 1,
                    base >= 0,
            ;
        } else {
            assert(prev == base * p);
            assert(prev * f == base * q) by (nonlinear_arith)
                requires
                    prev == base * p,
                    q == f * p,
            ;
        }
    }
}

/// Powers of a base of at least one are at least one.
pub proof fn lemma_int_pow_positive(base: int, k: nat)
    requires
        base >= 1,
    ensures
        int_pow(base, k) >= 1,
    decreases k,
{
    if k > 0 {
        lemma_int_pow_positive(base, (k - 1) as nat);
        let p: int = int_pow(base, (k - 1) as nat);
        assert(base * p >= 1) by (nonlinear_arith)
            requires
                base >= 1,
                p >= 1,
        ;
    }
}

/// A power of a base of at least 1000 is at least the same power of
/// 1000.
pub proof fn lemma_int_pow_above(base: int, k: nat)
    requires
        base >= 1000,
    ensures
        int_pow(base, k) >= int_pow(1000, k) >= 1,
    decreases k,
{
    if k > 0 {
        lemma_int_pow_above(base, (k - 1) as nat);
        let p: int = int_pow(base, (k - 1) as nat);
        let t: int = int_pow(1000, (k - 1) as nat);
        assert(base * p >= 1000 * t >= 1) by (nonlinear_arith)
            requires
                base >= 1000,
                p >= t,
                t >= 1,
        ;
    }
}

/// Whether the first `k` backoff steps from a base interval involve no
/// rounding: at every step at which the grown interval is still within
/// the maximum, it is a whole number of milliseconds.
pub open spec fn backoff_unrounded(config: SchedulerConfig, base_ms: u32, k: nat) -> bool {
    forall|j: nat|
        j <= k && base_ms * int_pow(config.backoff_factor_milli as int, j)
            <= config.max_backoff_interval_ms * int_pow(1000, j) ==> (base_ms * #[trigger] int_pow(
            config.backoff_factor_milli as int,
            j,
        )) % int_pow(1000, j) == 0
}

/// Closed form of the backoff: for a factor of at least one, and as long
/// as no step rounds, the interval after `k` consecutive failures is the
/// base interval times the factor to the power `k`, capped at the maximum
/// backoff interval.  With the factor in thousandths, the uncapped value
/// `r` satisfies `r * 1000^k == base * factor^k`.  A base interval above
/// the maximum is capped by the first failure.
pub proof fn lemma_backoff_power_form(config: SchedulerConfig, base_ms: u32, k: nat)
    requires
        config.backoff_factor_milli >= 1000,
        base_ms <= config.max_backoff_interval_ms || k >= 1,
        backoff_unrounded(config, base_ms, k),
    ensures
        base_ms * int_pow(config.backoff_factor_milli as int, k) > config.max_backoff_interval_ms
            * int_pow(1000, k) ==> backoff_after(config, base_ms, k)
            == config.max_backoff_interval_ms,
        base_ms * int_pow(config.backoff_factor_milli as int, k) <= config.max_backoff_interval_ms
            * int_pow(1000, k) ==> backoff_after(config, base_ms, k) * int_pow(1000, k) == base_ms
            * int_pow(config.backoff_factor_milli as int, k),
    decreases k,
{
    let f: int = config.backoff_factor_milli as int;
    let max: int = config.max_backoff_interval_ms as int;
    let base: int = base_ms as int;
    if base > max {
        lemma_backoff_from_above_cap(config, base_ms, k);
        lemma_int_pow_above(f, k);
        let p: int = int_pow(f, k);
        let t: int = int_pow(1000, k);
        assert(base * p > max * t) by (nonlinear_arith)
            requires
                base > max,
                max >= 0,
                p >= t,
                t >= 1,
        ;
    } else if k == 0 {
        assert(int_pow(f, 0) == 1);
        assert(int_pow(1000, 0) == 1);
        assert(base * int_pow(f, 0) == base) by (nonlinear_arith)
            requires
                int_pow(f, 0) == 1,
        ;
        assert(max * int_pow(1000, 0) == max) by (nonlinear_arith)
            requires
                int_pow(1000, 0) == 1,
        ;
        assert(base * int_pow(1000, 0) == base) by (nonlinear_arith)
            requires
                int_pow(1000, 0) == 1,
        ;
    } else {
        let km: nat = (k - 1) as nat;
        assert(backoff_unrounded(config, base_ms, km)) by {
            assert forall|j: nat|
                j <= km && base_ms * int_pow(f, j) <= config.max_backoff_interval_ms * int_pow(
                    1000,
                    j,
                ) implies (base_ms * #[trigger] int_pow(f, j)) % int_pow(1000, j) == 0 by {
                assert(j <= k);
            }
        }
        lemma_backoff_power_form(config, base_ms, km);
        lemma_int_pow_positive(1000, km);
        lemma_int_pow_positive(f, km);
        let prev: int = backoff_after(config, base_ms, km) as int;
        let t1: int = int_pow(1000, km);
        let t: int = int_pow(1000, k);
        let n1: int = base * int_pow(f, km);
        let n: int = base * int_pow(f, k);
        assert(t == 1000 * t1);
        assert(n == n1 * f) by (nonlinear_arith)
            requires
                n == base * int_pow(f, k),
                n1 == base * int_pow(f, km),
                int_pow(f, k) == f * int_pow(f, km),
        ;
        let grown: int = (prev * f) / 1000;
        assert(backoff_after(config, base_ms, k) as int == (if grown > max {
            max
        } else {
            grown
        }));
        if n1 > max * t1 {
            // capped before this step
            assert(prev == max);
            assert(n > max * t) by (nonlinear_arith)
                requires
                    n == n1 * f,
                    t == 1000 * t1,
                    n1 > max * t1,
                    f >= 1000,
                    max >= 0,
                    t1 >= 1,
            ;
            assert(prev * f >= 1000 * max) by (nonlinear_arith)
                requires
                    prev == max,
                    f >= 1000,
                    max >= 0,
            ;
            vstd::arithmetic::div_mod::lemma_div_is_ordered(1000 * max, prev * f, 1000);
            vstd::arithmetic::div_mod::lemma_div_multiples_vanish(max, 1000);
        } else {
            assert(prev * t1 == n1);
            assert((prev * f) * t1 == n) by (nonlinear_arith)
                requires
                    prev * t1 == n1,
                    n == n1 * f,
            ;
            if n > max * t {
                assert(prev * f > 1000 * max) by (nonlinear_arith)
                    requires
                        (prev * f) * t1 == n,
                        n > max * t,
                        t == 1000 * t1,
                        t1 >= 1,
                ;
                vstd::arithmetic::div_mod::lemma_div_is_ordered(1000 * max, prev * f, 1000);
                vstd::arithmetic::div_mod::lemma_div_multiples_vanish(max, 1000);
            } else {
                assert(n % t == 0);
                let q: int = n / t;
                vstd::arithmetic::div_mod::lemma_fundamental_div_mod(n, t);
                assert(n == t * q);
                assert(prev * f == 1000 * q) by (nonlinear_arith)
                    requires
                        (prev * f) * t1 == n,
                        n == t * q,
                        t == 1000 * t1,
                        t1 >= 1,
                ;
                vstd::arithmetic::div_mod::lemma_div_multiples_vanish(q, 1000);
                assert(grown == q);
                assert(q <= max) by (nonlinear_arith)
                    requires
                        n == t * q,
                        n <= max * t,
                        t >= 1,
                ;
                assert(q * t == n) by (nonlinear_arith)
                    requires
                        n == t * q,
                ;
            }
        }
    }
}

/// A counter plus one, saturating.
pub open spec fn bump_u64(v: u64) -> u64 {
    if v == u64::MAX {
        v
    } else {
        (v + 1) as u64
    }
}

/// A counter plus one, saturating.
pub open spec fn bump_u16(v: u16) -> u16 {
    if v == u16::MAX {
        v
    } else {
        (v + 1) as u16
    }
}

/// The sequence number after `v`, wrapping at 64 bits.
pub open spec fn sequence_after(v: u64) -> u64 {
    if v == u64::MAX {
        0
    } else {
        (v + 1) as u64
    }
}

/// The due time one interval after `now_ns`, saturating.
pub open spec fn due_after(now_ns: u64, interval_ms: u32) -> u64 {
    if now_ns + interval_ms * 1_000_000 > u64::MAX {
        u64::MAX
    } else {
        (now_ns + interval_ms * 1_000_000) as u64
    }
}

/// The item after feedback: with adaptive scheduling, a success resets the
/// current interval to the base interval and a failure backs it off.
pub open spec fn item_after_complete(config: SchedulerConfig, item: PollItem, success: bool) -> PollItem {
    if !config.adaptive_enabled {
        item
    } else if success {
        PollItem { current_interval_ms: item.base_interval_ms, ..item }
    } else {
        PollItem { current_interval_ms: backoff_step(config, item.current_interval_ms), ..item }
    }
}

/// The status after feedback: the counters and the latency average are
/// updated, the current interval follows the item, and the due times stay
/// as they are.
pub open spec fn status_after_complete(
    config: SchedulerConfig,
    status: PollStatus,
    item: PollItem,
    complete: PollComplete,
) -> PollStatus {
    PollStatus {
        current_interval_ms: if config.adaptive_enabled {
            item_after_complete(config, item, complete.success).current_interval_ms
        } else {
            status.current_interval_ms
        },
        last_poll_ns: status.last_poll_ns,
        next_poll_ns: status.next_poll_ns,
        polls_total: bump_u64(status.polls_total),
        polls_success: if complete.success {
            bump_u64(status.polls_success)
        } else {
            status.polls_success
        },
        polls_failed: if complete.success {
            status.polls_failed
        } else {
            bump_u64(status.polls_failed)
        },
        avg_latency_us: spec_latency_ema(status.avg_latency_us, complete.latency_us),
        consecutive_failures: if complete.success {
            0
        } else {
            bump_u16(status.consecutive_failures)
        },
    }
}

/// The item after `k` failures in a row.
pub open spec fn item_after_failures(config: SchedulerConfig, item: PollItem, k: nat) -> PollItem
    decreases k,
{
    if k == 0 {
        item
    } else {
        item_after_complete(config, item_after_failures(config, item, (k - 1) as nat), false)
    }
}

/// Adaptive backoff: with adaptive scheduling, `k` failures in a row after
/// a success leave the current interval at `backoff_after(base, k)`, and
/// the next success resets it to the base interval.
pub proof fn lemma_consecutive_failures(config: SchedulerConfig, item: PollItem, k: nat)
    requires
        config.adaptive_enabled,
    ensures
        item_after_failures(
            config,
            item_after_complete(config, item, true),
            k,
        ).current_interval_ms == backoff_after(config, item.base_interval_ms, k),
        item_after_failures(config, item_after_complete(config, item, true), k).base_interval_ms
            == item.base_interval_ms,
        item_after_complete(
            config,
            item_after_failures(config, item_after_complete(config, item, true), k),
            true,
        ).current_interval_ms == item.base_interval_ms,
    decreases k,
{
    if k > 0 {
        lemma_consecutive_failures(config, item, (k - 1) as nat);
    }
}

/// The scheduler after an item was added at `now_ns`: the item starts at
/// its base interval and is due at once.  An item with the same poll id is
/// replaced, and the schedule holds one entry for the id.
pub open spec fn spec_add_poll(state: SchedulerState, item: PollItem, now_ns: u64) -> SchedulerState {
    SchedulerState {
        config: state.config,
        items: state.items.insert(
            item.poll_id,
            PollItem { current_interval_ms: item.base_interval_ms, ..item },
        ),
        status: state.status.insert(
            item.poll_id,
            PollStatus {
                current_interval_ms: item.base_interval_ms,
                last_poll_ns: 0,
                next_poll_ns: now_ns,
                polls_total: 0,
                polls_success: 0,
                polls_failed: 0,
                avg_latency_us: 0,
                consecutive_failures: 0,
            },
        ),
        schedule: without_poll(state.schedule, item.poll_id).push(
            ScheduleEntry { next_time_ns: now_ns, priority: item.priority, poll_id: item.poll_id },
        ),
        sequence: state.sequence,
        last_dispatch_ns: state.last_dispatch_ns,
        running: state.running,
    }
}

/// The scheduler after an item was removed.  Its schedule entry stays and
/// is dropped when it comes up.
pub open spec fn spec_remove_poll(state: SchedulerState, poll_id: u32) -> SchedulerState {
    SchedulerState {
        items: state.items.remove(poll_id),
        status: state.status.remove(poll_id),
        ..state
    }
}

/// The scheduler after an item was enabled or disabled.  An unknown poll
/// id changes nothing.
pub open spec fn spec_set_enabled(state: SchedulerState, poll_id: u32, enabled: bool) -> SchedulerState {
    if state.items.contains_key(poll_id) {
        SchedulerState {
            items: state.items.insert(poll_id, PollItem { enabled, ..state.items[poll_id] }),
            ..state
        }
    } else {
        state
    }
}

/// The scheduler after feedback.  Feedback for an unknown poll id changes
/// nothing.  The schedule is never touched, so late feedback cannot rewind
/// a due time.
pub open spec fn spec_poll_complete(state: SchedulerState, complete: PollComplete) -> SchedulerState {
    if state.items.contains_key(complete.poll_id) {
        SchedulerState {
            items: state.items.insert(
                complete.poll_id,
                item_after_complete(state.config, state.items[complete.poll_id], complete.success),
            ),
            status: state.status.insert(
                complete.poll_id,
                status_after_complete(
                    state.config,
                    state.status[complete.poll_id],
                    state.items[complete.poll_id],
                    complete,
                ),
            ),
            ..state
        }
    } else {
        state
    }
}

/// What `poll` decides at `now_ns`.
pub enum PollDecision {
    /// The scheduler is stopped
    Stopped,
    /// The rate cap is zero, the schedule is empty, or its head is not due
    Idle,
    /// The head is due, but its item is gone or disabled
    Discard { head: int },
    /// The head is due, but the last dispatch is too recent
    Throttle { wait_ns: u64 },
    /// The head is due and is dispatched for the item of this poll id
    Dispatch { head: int, poll_id: u32 },
}

/// The decision of the scheduler at `now_ns`.
pub open spec fn spec_decide(state: SchedulerState, now_ns: u64) -> PollDecision {
    let head = head_of(state.schedule, state.schedule.len() as int);
    if !state.running {
        PollDecision::Stopped
    } else if state.config.max_polls_per_second == 0 || state.schedule.len() == 0
        || state.schedule[head].next_time_ns > now_ns {
        PollDecision::Idle
    } else {
        let poll_id = state.schedule[head].poll_id;
        if !state.items.contains_key(poll_id) || !state.items[poll_id].enabled {
            PollDecision::Discard { head }
        } else {
            match state.last_dispatch_ns {
                Some(last) => if now_ns - last < min_gap_ns(state.config.max_polls_per_second) {
                    PollDecision::Throttle {
                        wait_ns: (if now_ns < last {
                            min_gap_ns(state.config.max_polls_per_second)
                        } else {
                            min_gap_ns(state.config.max_polls_per_second) - (now_ns - last)
                        }) as u64,
                    }
                } else {
                    PollDecision::Dispatch { head, poll_id }
                },
                None => PollDecision::Dispatch { head, poll_id },
            }
        }
    }
}

/// The trigger of a dispatch.
pub open spec fn spec_trigger(state: SchedulerState, head: int, poll_id: u32, now_ns: u64) -> PollTrigger {
    PollTrigger {
        poll_id: state.items[poll_id].poll_id,
        device_id: state.items[poll_id].device_id,
        register_type: state.items[poll_id].register_type,
        address: state.items[poll_id].address,
        count: state.items[poll_id].count,
        sequence_number: state.sequence,
        scheduled_time_ns: state.schedule[head].next_time_ns,
        actual_time_ns: now_ns,
    }
}

/// The scheduler after `poll` at `now_ns`.  A discarded head leaves the
/// schedule.  A dispatched head is replaced by an entry that is due one
/// current interval after `now_ns`; the item's status records both times,
/// the sequence number advances and `now_ns` becomes the time of the last
/// dispatch.
pub open spec fn spec_poll_state(state: SchedulerState, now_ns: u64) -> SchedulerState {
    match spec_decide(state, now_ns) {
        PollDecision::Stopped | PollDecision::Idle | PollDecision::Throttle { .. } => state,
        PollDecision::Discard { head } => SchedulerState {
            schedule: state.schedule.remove(head),
            ..state
        },
        PollDecision::Dispatch { head, poll_id } => SchedulerState {
            config: state.config,
            items: state.items,
            status: state.status.insert(
                poll_id,
                PollStatus {
                    last_poll_ns: now_ns,
                    next_poll_ns: due_after(now_ns, state.items[poll_id].current_interval_ms),
                    ..state.status[poll_id]
                },
            ),
            schedule: state.schedule.remove(head).push(
                ScheduleEntry {
                    next_time_ns: due_after(now_ns, state.items[poll_id].current_interval_ms),
                    priority: state.items[poll_id].priority,
                    poll_id: state.items[poll_id].poll_id,
                },
            ),
            sequence: sequence_after(state.sequence),
            last_dispatch_ns: Some(now_ns),
            running: state.running,
        },
    }
}

/// Whether an action is the one that the decision calls for.
pub open spec fn action_matches(action: SchedulerAction, state: SchedulerState, now_ns: u64) -> bool {
    match spec_decide(state, now_ns) {
        PollDecision::Stopped => action is Stopped,
        PollDecision::Idle => action matches SchedulerAction::Idle { sleep_ms } && sleep_ms
            == IDLE_SLEEP_MS,
        PollDecision::Discard { head } => action matches SchedulerAction::Discarded { poll_id }
            && poll_id == state.schedule[head].poll_id,
        PollDecision::Throttle { wait_ns } => action matches SchedulerAction::Throttled {
            wait_ns: w,
        } && w == wait_ns,
        PollDecision::Dispatch { head, poll_id } => action matches SchedulerAction::Trigger(t)
            && t == spec_trigger(state, head, poll_id, now_ns),
    }
}

/// Validity of a scheduler: every item has its status and every status
/// its item, each item stands under its own poll id, and the schedule
/// holds at most one entry per poll id.
pub open spec fn state_wf(state: SchedulerState) -> bool {
    &&& forall|id: u32| #[trigger] state.items.contains_key(id) <==> state.status.contains_key(id)
    &&& forall|id: u32|
        state.items.contains_key(id) ==> (#[trigger] state.items[id]).poll_id == id
    &&& entries_unique(state.schedule)
}

/// Rate cap of a dispatch: a dispatch happens only while the scheduler
/// runs under a rate above zero, and at least `min_gap_ns` after the
/// dispatch before it; it becomes the last dispatch.
pub proof fn lemma_dispatch_respects_rate_cap(state: SchedulerState, now_ns: u64)
    requires
        spec_decide(state, now_ns) is Dispatch,
    ensures
        state.running,
        state.config.max_polls_per_second > 0,
        state.last_dispatch_ns matches Some(last) ==> now_ns - last >= min_gap_ns(
            state.config.max_polls_per_second,
        ),
        spec_poll_state(state, now_ns).last_dispatch_ns == Some(now_ns),
        spec_poll_state(state, now_ns).config == state.config,
{
}

/// A dispatch serves the most urgent entry: it is due, and no entry of the
/// schedule is more urgent.
pub proof fn lemma_dispatch_serves_head(state: SchedulerState, now_ns: u64)
    requires
        spec_decide(state, now_ns) matches PollDecision::Dispatch { .. },
    ensures
        ({
            let head = spec_decide(state, now_ns)->Dispatch_head;
            &&& 0 <= head < state.schedule.len()
            &&& state.schedule[head].next_time_ns <= now_ns
            &&& state.schedule[head].poll_id == spec_decide(state, now_ns)->Dispatch_poll_id
            &&& forall|k: int|
                0 <= k < state.schedule.len() ==> !more_urgent(
                    #[trigger] state.schedule[k],
                    state.schedule[head],
                )
        }),
{
    lemma_head_is_most_urgent(state.schedule, state.schedule.len() as int);
}

/// `poll` keeps a scheduler valid.
pub proof fn lemma_poll_keeps_wf(state: SchedulerState, now_ns: u64)
    requires
        state_wf(state),
    ensures
        state_wf(spec_poll_state(state, now_ns)),
{
    let after = spec_poll_state(state, now_ns);
    if state.schedule.len() > 0 {
        lemma_head_is_most_urgent(state.schedule, state.schedule.len() as int);
    }
    match spec_decide(state, now_ns) {
        PollDecision::Discard { head } => {
            let removed = state.schedule.remove(head);
            assert forall|i: int, j: int| 0 <= i < j < removed.len() implies (
            #[trigger] removed[i]).poll_id != (#[trigger] removed[j]).poll_id by {
                let si = if i < head {
                    i
                } else {
                    i + 1
                };
                let sj = if j < head {
                    j
                } else {
                    j + 1
                };
                assert(removed[i] == state.schedule[si]);
                assert(removed[j] == state.schedule[sj]);
            }
        },
        PollDecision::Dispatch { head, poll_id } => {
            let removed = state.schedule.remove(head);
            let pushed = after.schedule;
            assert(pushed.len() == removed.len() + 1);
            assert(state.items[poll_id].poll_id == poll_id);
            assert forall|i: int, j: int| 0 <= i < j < pushed.len() implies (
            #[trigger] pushed[i]).poll_id != (#[trigger] pushed[j]).poll_id by {
                let si = if i < head {
                    i
                } else {
                    i + 1
                };
                assert(pushed[i] == state.schedule[si]);
                if j < removed.len() {
                    let sj = if j < head {
                        j
                    } else {
                        j + 1
                    };
                    assert(pushed[j] == state.schedule[sj]);
                } else {
                    assert(pushed[j].poll_id == state.schedule[head].poll_id);
                    if si < head {
                        assert(state.schedule[si].poll_id != state.schedule[head].poll_id);
                    } else {
                        assert(state.schedule[head].poll_id != state.schedule[si].poll_id);
                    }
                }
            }
            assert forall|id: u32| #[trigger]
                after.items.contains_key(id) <==> after.status.contains_key(id) by {
                assert(state.items.contains_key(id) <==> state.status.contains_key(id));
            }
        },
        _ => {},
    }
}

/// Interval between triggers: after a trigger for a poll id at `first_ns`,
/// no `poll` before one current interval has passed dispatches that poll
/// id again.
pub proof fn lemma_no_early_retrigger(state: SchedulerState, first_ns: u64, second_ns: u64)
    requires
        state_wf(state),
        spec_decide(state, first_ns) is Dispatch,
        second_ns < due_after(
            first_ns,
            state.items[spec_decide(state, first_ns)->Dispatch_poll_id].current_interval_ms,
        ),
    ensures
        spec_decide(spec_poll_state(state, first_ns), second_ns) matches PollDecision::Dispatch {
            head,
            poll_id,
        } ==> poll_id != spec_decide(state, first_ns)->Dispatch_poll_id,
{
    let head = spec_decide(state, first_ns)->Dispatch_head;
    let poll_id = spec_decide(state, first_ns)->Dispatch_poll_id;
    let after = spec_poll_state(state, first_ns);
    lemma_poll_keeps_wf(state, first_ns);
    lemma_head_is_most_urgent(state.schedule, state.schedule.len() as int);
    assert(state.items[poll_id].poll_id == poll_id);
    let last = after.schedule.len() - 1;
    assert(after.schedule[last].poll_id == poll_id);
    assert(after.schedule[last].next_time_ns == due_after(
        first_ns,
        state.items[poll_id].current_interval_ms,
    ));
    if spec_decide(after, second_ns) is Dispatch {
        let head2 = spec_decide(after, second_ns)->Dispatch_head;
        let poll_id2 = spec_decide(after, second_ns)->Dispatch_poll_id;
        lemma_head_is_most_urgent(after.schedule, after.schedule.len() as int);
        if poll_id2 == poll_id {
            if head2 < last {
                assert(after.schedule[head2].poll_id != after.schedule[last].poll_id);
            }
        }
    }
}

/// The scheduler after `poll` was called at each of the first `n` times.
pub open spec fn polled(state: SchedulerState, times: Seq<u64>, n: int) -> SchedulerState
    decreases n,
{
    if n <= 0 {
        state
    } else {
        spec_poll_state(polled(state, times, n - 1), times[n - 1])
    }
}

/// The times, among the first `n`, at which `poll` dispatched a trigger.
pub open spec fn dispatch_times(state: SchedulerState, times: Seq<u64>, n: int) -> Seq<int>
    decreases n,
{
    if n <= 0 {
        Seq::<int>::empty()
    } else if spec_decide(polled(state, times, n - 1), times[n - 1]) is Dispatch {
        dispatch_times(state, times, n - 1).push(times[n - 1] as int)
    } else {
        dispatch_times(state, times, n - 1)
    }
}

/// However `poll` is called, two dispatches in a row lie at least the
/// least gap apart, and the scheduler remembers the last of them.
pub proof fn lemma_dispatches_are_spaced(state: SchedulerState, times: Seq<u64>, n: int)
    requires
        state.last_dispatch_ns is None,
        0 <= n <= times.len(),
    ensures
        polled(state, times, n).config == state.config,
        forall|k: int|
            0 <= k < dispatch_times(state, times, n).len() ==> 0 <= #[trigger] dispatch_times(
                state,
                times,
                n,
            )[k] <= u64::MAX,
        dispatch_times(state, times, n).len() == 0 ==> polled(state, times, n).last_dispatch_ns
            is None,
        dispatch_times(state, times, n).len() > 0 ==> polled(state, times, n).last_dispatch_ns
            == Some(dispatch_times(state, times, n).last() as u64) && state.config.max_polls_per_second
            > 0,
        forall|k: int|
            0 <= k < dispatch_times(state, times, n).len() - 1 ==> #[trigger] dispatch_times(
                state,
                times,
                n,
            )[k + 1] - dispatch_times(state, times, n)[k] >= min_gap_ns(
                state.config.max_polls_per_second,
            ),
    decreases n,
{
    if n > 0 {
        lemma_dispatches_are_spaced(state, times, n - 1);
        let before = polled(state, times, n - 1);
        let earlier = dispatch_times(state, times, n - 1);
        let all = dispatch_times(state, times, n);
        if spec_decide(before, times[n - 1]) is Dispatch {
            lemma_dispatch_respects_rate_cap(before, times[n - 1]);
            assert forall|k: int| 0 <= k < all.len() - 1 implies #[trigger] all[k + 1] - all[k]
                >= min_gap_ns(state.config.max_polls_per_second) by {
                if k + 1 < earlier.len() {
                    assert(earlier[k + 1] - earlier[k] >= min_gap_ns(
                        state.config.max_polls_per_second,
                    ));
                    assert(all[k + 1] == earlier[k + 1]);
                    assert(all[k] == earlier[k]);
                } else {
                    assert(all[k + 1] == times[n - 1] as int);
                    assert(all[k] == earlier[earlier.len() - 1]);
                    assert(0 <= earlier[earlier.len() - 1] <= u64::MAX);
                    assert(before.last_dispatch_ns == Some(earlier.last() as u64));
                }
            }
            assert forall|k: int| 0 <= k < all.len() implies 0 <= #[trigger] all[k]
                <= u64::MAX by {
                if k < earlier.len() {
                    assert(all[k] == earlier[k]);
                }
            }
        }
    }
}

/// Rate cap: however `poll` is called on a scheduler that has not
/// dispatched yet, any `rate + 1` of its dispatches span at least one
/// second, where `rate` is the configured number of polls per second.  So
/// no half-open window of one second holds more than `rate` dispatches.
pub proof fn lemma_rate_cap_of_polls(state: SchedulerState, times: Seq<u64>, i: int, j: int)
    requires
        state.last_dispatch_ns is None,
        0 <= i <= j < dispatch_times(state, times, times.len() as int).len(),
        j - i >= state.config.max_polls_per_second,
    ensures
        dispatch_times(state, times, times.len() as int)[j] - dispatch_times(
            state,
            times,
            times.len() as int,
        )[i] >= 1_000_000_000,
{
    lemma_dispatches_are_spaced(state, times, times.len() as int);
    lemma_rate_cap(
        dispatch_times(state, times, times.len() as int),
        state.config.max_polls_per_second,
        i,
        j,
    );
}

/// The triggers that `poll` dispatched at the first `n` times, in order:
/// the trigger of each dispatch, built from the scheduler as it stood
/// before that step.
pub open spec fn dispatched_triggers(state: SchedulerState, times: Seq<u64>, n: int) -> Seq<
    PollTrigger,
>
    decreases n,
{
    if n <= 0 {
        Seq::<PollTrigger>::empty()
    } else {
        match spec_decide(polled(state, times, n - 1), times[n - 1]) {
            PollDecision::Dispatch { head, poll_id } => dispatched_triggers(
                state,
                times,
                n - 1,
            ).push(spec_trigger(polled(state, times, n - 1), head, poll_id, times[n - 1])),
            _ => dispatched_triggers(state, times, n - 1),
        }
    }
}

/// The triggers that were dispatched carry the times of the dispatches.
pub proof fn lemma_triggers_carry_dispatch_times(state: SchedulerState, times: Seq<u64>, n: int)
    requires
        0 <= n <= times.len(),
    ensures
        trigger_times(dispatched_triggers(state, times, n)) == dispatch_times(state, times, n),
    decreases n,
{
    if n > 0 {
        lemma_triggers_carry_dispatch_times(state, times, n - 1);
        let earlier = dispatched_triggers(state, times, n - 1);
        match spec_decide(polled(state, times, n - 1), times[n - 1]) {
            PollDecision::Dispatch { head, poll_id } => {
                let t = spec_trigger(polled(state, times, n - 1), head, poll_id, times[n - 1]);
                assert(trigger_times(earlier.push(t)) =~= trigger_times(earlier).push(
                    times[n - 1] as int,
                ));
            },
            _ => {},
        }
    } else {
        assert(trigger_times(dispatched_triggers(state, times, n)) =~= Seq::<int>::empty());
    }
}

/// The times at which a sequence of triggers was dispatched.
pub open spec fn trigger_times(triggers: Seq<PollTrigger>) -> Seq<int> {
    Seq::new(triggers.len(), |i: int| triggers[i].actual_time_ns as int)
}

/// Poll scheduler.
pub struct PollScheduler {
    config: SchedulerConfig,
    items: HashMap<u32, PollItem>,
    status: HashMap<u32, PollStatus>,
    schedule: Vec<ScheduleEntry>,
    sequence: u64,
    last_dispatch_ns: Option<u64>,
    running: bool,
}

impl View for PollScheduler {
    type V = SchedulerState;

    closed spec fn view(&self) -> SchedulerState {
        SchedulerState {
            config: self.config,
            items: self.items@,
            status: self.status@,
            schedule: self.schedule@,
            sequence: self.sequence,
            last_dispatch_ns: self.last_dispatch_ns,
            running: self.running,
        }
    }
}

impl PollScheduler {
    /// Validity of the scheduler.
    pub open spec fn wf(&self) -> bool {
        state_wf(self@)
    }

    /// Creates a scheduler without items.  It is not running, the first
    /// trigger gets the sequence number 1, and nothing was dispatched yet.
    pub fn new(config: SchedulerConfig) -> (scheduler: Self)
        ensures
            scheduler.wf(),
            scheduler@ == (SchedulerState {
                config,
                items: Map::<u32, PollItem>::empty(),
                status: Map::<u32, PollStatus>::empty(),
                schedule: Seq::<ScheduleEntry>::empty(),
                sequence: 1,
                last_dispatch_ns: None,
                running: false,
            }),
    {
        let scheduler = PollScheduler {
            config,
            items: HashMap::new(),
            status: HashMap::new(),
            schedule: Vec::new(),
            sequence: 1,
            last_dispatch_ns: None,
            running: false,
        };
        assert(scheduler@.schedule =~= Seq::<ScheduleEntry>::empty());
        scheduler
    }

    /// Returns whether the scheduler holds an item with a poll id.
    pub fn has_poll(&self, poll_id: u32) -> (b: bool)
        ensures
            b == self@.items.contains_key(poll_id),
    {
        self.items.contains_key(&poll_id)
    }

    /// Returns the number of poll items.
    pub fn item_count(&self) -> (n: usize)
        ensures
            n == self@.items.len(),
    {
        self.items.len()
    }

    /// Returns the number of schedule entries.
    pub fn schedule_len(&self) -> (n: usize)
        ensures
            n == self@.schedule.len(),
    {
        self.schedule.len()
    }

    /// Returns whether the scheduler runs.
    pub fn is_running(&self) -> (b: bool)
        ensures
            b == self@.running,
    {
        self.running
    }

    /// Returns the current interval of an item.
    pub fn current_interval_ms(&self, poll_id: u32) -> (r: Option<u32>)
        ensures
            r == (if self@.items.contains_key(poll_id) {
                Some(self@.items[poll_id].current_interval_ms)
            } else {
                None::<u32>
            }),
    {
        match self.items.get(&poll_id) {
            Some(item) => Some(item.current_interval_ms),
            None => None,
        }
    }

    /// Adds a poll item at the time `now_ns`.
    pub fn add_poll_at(&mut self, item: PollItem, now_ns: u64)
        requires
            old(self).wf(),
        ensures
            final(self).wf(),
            final(self)@ == spec_add_poll(old(self)@, item, now_ns),
    {
        let poll_id: u32 = item.poll_id;
        let priority: u8 = item.priority;
        let base: u32 = item.base_interval_ms;
        let mut fresh: PollItem = item;
        fresh.current_interval_ms = base;
        let status = PollStatus {
            current_interval_ms: base,
            last_poll_ns: 0,
            next_poll_ns: now_ns,
            polls_total: 0,
            polls_success: 0,
            polls_failed: 0,
            avg_latency_us: 0,
            consecutive_failures: 0,
        };
        proof {
            lemma_without_poll(self@.schedule, poll_id);
        }
        self.items.insert(poll_id, fresh);
        self.status.insert(poll_id, status);
        let mut kept: Vec<ScheduleEntry> = Vec::new();
        let mut i: usize = 0;
        assert(self.schedule@.subrange(0, 0) =~= Seq::<ScheduleEntry>::empty());
        while i < self.schedule.len()
            invariant
                0 <= i <= self.schedule@.len(),
                kept@ == without_poll(self.schedule@.subrange(0, i as int), poll_id),
            decreases self.schedule@.len() - i,
        {
            assert(self.schedule@.subrange(0, i + 1).drop_last() =~= self.schedule@.subrange(
                0,
                i as int,
            ));
            if self.schedule[i].poll_id != poll_id {
                kept.push(self.schedule[i]);
            }
            i = i + 1;
        }
        assert(self.schedule@.subrange(0, i as int) =~= self.schedule@);
        kept.push(ScheduleEntry { next_time_ns: now_ns, priority, poll_id });
        self.schedule = kept;
        proof {
            let before = old(self)@;
            let after = spec_add_poll(before, item, now_ns);
            assert(self@.items =~= after.items);
            assert(self@.status =~= after.status);
            assert(self@.schedule =~= after.schedule);
            let base_schedule = without_poll(before.schedule, poll_id);
            assert forall|a: int, b: int| 0 <= a < b < after.schedule.len() implies (
            #[trigger] after.schedule[a]).poll_id != (#[trigger] after.schedule[b]).poll_id by {
                if b < base_schedule.len() {
                    assert(after.schedule[a] == base_schedule[a]);
                    assert(after.schedule[b] == base_schedule[b]);
                } else {
                    assert(after.schedule[a] == base_schedule[a]);
                }
            }
            assert forall|id: u32| #[trigger]
                after.items.contains_key(id) <==> after.status.contains_key(id) by {
                assert(before.items.contains_key(id) <==> before.status.contains_key(id));
            }
            assert forall|id: u32| after.items.contains_key(id) implies (
            #[trigger] after.items[id]).poll_id == id by {
                if id != poll_id {
                    assert(before.items[id].poll_id == id);
                }
            }
        }
    }

    /// Adds a poll item at the current time: `add_poll_at` with the time
    /// that the clock returned.
    pub fn add_poll(&mut self, item: PollItem)
        requires
            old(self).wf(),
        ensures
            final(self).wf(),
            exists|now_ns: u64| final(self)@ == #[trigger] spec_add_poll(old(self)@, item, now_ns),
    {
        let now_ns: u64 = timestamp_ns();
        self.add_poll_at(item, now_ns);
    }

    /// Removes a poll item.
    pub fn remove_poll(&mut self, poll_id: u32)
        requires
            old(self).wf(),
        ensures
            final(self).wf(),
            final(self)@ == spec_remove_poll(old(self)@, poll_id),
    {
        self.items.remove(&poll_id);
        self.status.remove(&poll_id);
        proof {
            let before = old(self)@;
            let after = spec_remove_poll(before, poll_id);
            assert(self@.items =~= after.items);
            assert(self@.status =~= after.status);
            assert forall|id: u32| #[trigger]
                after.items.contains_key(id) <==> after.status.contains_key(id) by {
                assert(before.items.contains_key(id) <==> before.status.contains_key(id));
            }
            assert forall|id: u32| after.items.contains_key(id) implies (
            #[trigger] after.items[id]).poll_id == id by {
                assert(before.items[id].poll_id == id);
            }
        }
    }

    /// Enables or disables a poll item.
    pub fn set_enabled(&mut self, poll_id: u32, enabled: bool)
        requires
            old(self).wf(),
        ensures
            final(self).wf(),
            final(self)@ == spec_set_enabled(old(self)@, poll_id, enabled),
    {
        let mut item: PollItem = match self.items.get(&poll_id) {
            Some(item) => item.clone(),
            None => {
                return ;
            },
        };
        item.enabled = enabled;
        self.items.insert(poll_id, item);
        proof {
            let before = old(self)@;
            let after = spec_set_enabled(before, poll_id, enabled);
            assert(self@.items =~= after.items);
            assert forall|id: u32| #[trigger]
                after.items.contains_key(id) <==> after.status.contains_key(id) by {
                assert(before.items.contains_key(id) <==> before.status.contains_key(id));
            }
            assert forall|id: u32| after.items.contains_key(id) implies (
            #[trigger] after.items[id]).poll_id == id by {
                assert(before.items[id].poll_id == id);
            }
        }
    }

    /// Reports poll completion.
    pub fn poll_complete(&mut self, complete: PollComplete)
        requires
            old(self).wf(),
        ensures
            final(self).wf(),
            final(self)@ == spec_poll_complete(old(self)@, complete),
            final(self)@.schedule == old(self)@.schedule,
    {
        let mut item: PollItem = match self.items.get(&complete.poll_id) {
            Some(item) => item.clone(),
            None => {
                return ;
            },
        };
        assert(self@.status.contains_key(complete.poll_id));
        let mut status: PollStatus = match self.status.get(&complete.poll_id) {
            Some(status) => *status,
            // not reached: every item has its status
            None => PollStatus::default(),
        };
        let config: SchedulerConfig = self.config;
        if status.polls_total < u64::MAX {
            status.polls_total = status.polls_total + 1;
        }
        if complete.success {
            if status.polls_success < u64::MAX {
                status.polls_success = status.polls_success + 1;
            }
            status.consecutive_failures = 0;
            if config.adaptive_enabled {
                item.current_interval_ms = item.base_interval_ms;
                status.current_interval_ms = item.base_interval_ms;
            }
        } else {
            if status.polls_failed < u64::MAX {
                status.polls_failed = status.polls_failed + 1;
            }
            if status.consecutive_failures < u16::MAX {
                status.consecutive_failures = status.consecutive_failures + 1;
            }
            if config.adaptive_enabled {
                let current: u64 = item.current_interval_ms as u64;
                let factor: u64 = config.backoff_factor_milli as u64;
                assert(current * factor <= 0xFFFF_FFFF * 0xFFFF_FFFF) by (nonlinear_arith)
                    requires
                        current <= 0xFFFF_FFFF,
                        factor <= 0xFFFF_FFFF,
                ;
                let grown: u64 = (current * factor) / 1000;
                let next: u32 = if grown > config.max_backoff_interval_ms as u64 {
                    config.max_backoff_interval_ms
                } else {
                    grown as u32
                };
                item.current_interval_ms = next;
                status.current_interval_ms = next;
            }
        }
        status.avg_latency_us = latency_ema(status.avg_latency_us, complete.latency_us);
        self.items.insert(complete.poll_id, item);
        self.status.insert(complete.poll_id, status);
        proof {
            let before = old(self)@;
            let after = spec_poll_complete(before, complete);
            assert(before.items[complete.poll_id].poll_id == complete.poll_id);
            assert(self@.items =~= after.items);
            assert(self@.status =~= after.status);
            assert forall|id: u32| #[trigger]
                after.items.contains_key(id) <==> after.status.contains_key(id) by {
                assert(before.items.contains_key(id) <==> before.status.contains_key(id));
            }
            assert forall|id: u32| after.items.contains_key(id) implies (
            #[trigger] after.items[id]).poll_id == id by {
                assert(before.items[id].poll_id == id);
            }
        }
    }

    /// Gets the status of a poll item.
    pub fn get_status(&self, poll_id: u32) -> (r: Option<PollStatus>)
        ensures
            r == (if self@.status.contains_key(poll_id) {
                Some(self@.status[poll_id])
            } else {
                None::<PollStatus>
            }),
    {
        match self.status.get(&poll_id) {
            Some(status) => Some(*status),
            None => None,
        }
    }

    /// Starts the scheduler: `poll` dispatches from now on.
    pub fn start(&mut self)
        ensures
            final(self)@ == (SchedulerState { running: true, ..old(self)@ }),
            old(self).wf() ==> final(self).wf(),
    {
        self.running = true;
    }

    /// Stops the scheduler.  The schedule is kept as it is.
    pub fn stop(&mut self)
        ensures
            final(self)@ == (SchedulerState { running: false, ..old(self)@ }),
            old(self).wf() ==> final(self).wf(),
    {
        self.running = false;
    }

    /// Index of the most urgent entry of a schedule that is not empty.
    fn head_index(&self) -> (h: usize)
        requires
            self@.schedule.len() > 0,
        ensures
            h < self@.schedule.len(),
            h == head_of(self@.schedule, self@.schedule.len() as int),
    {
        let mut h: usize = 0;
        let mut n: usize = 1;
        while n < self.schedule.len()
            invariant
                1 <= n <= self.schedule@.len(),
                h < n,
                h == head_of(self.schedule@, n as int),
            decreases self.schedule@.len() - n,
        {
            if is_more_urgent(&self.schedule[n], &self.schedule[h]) {
                h = n;
            }
            n = n + 1;
        }
        h
    }

    /// One step of the scheduler at the time `now_ns`.
    ///
    /// A stopped scheduler answers `Stopped`.  Under a rate cap of zero,
    /// with an empty schedule, or while the most urgent entry is not due,
    /// the answer is `Idle`.  A due entry whose item is gone or disabled is
    /// dropped (`Discarded`).  A due entry that comes less than the least
    /// gap after the last dispatch is held back (`Throttled`, with the
    /// remaining wait).  Otherwise the entry is dispatched (`Trigger`) and
    /// scheduled again one current interval after `now_ns`.
    pub fn poll(&mut self, now_ns: u64) -> (action: SchedulerAction)
        requires
            old(self).wf(),
        ensures
            final(self).wf(),
            final(self)@ == spec_poll_state(old(self)@, now_ns),
            action_matches(action, old(self)@, now_ns),
    {
        proof {
            lemma_poll_keeps_wf(self@, now_ns);
        }
        if !self.running {
            return SchedulerAction::Stopped;
        }
        if self.config.max_polls_per_second == 0 || self.schedule.len() == 0 {
            return SchedulerAction::Idle { sleep_ms: IDLE_SLEEP_MS };
        }
        let head: usize = self.head_index();
        let entry: ScheduleEntry = self.schedule[head];
        if entry.next_time_ns > now_ns {
            return SchedulerAction::Idle { sleep_ms: IDLE_SLEEP_MS };
        }
        let item: PollItem = match self.items.get(&entry.poll_id) {
            Some(item) => item.clone(),
            None => {
                self.schedule.remove(head);
                assert(self@.schedule =~= spec_poll_state(old(self)@, now_ns).schedule);
                return SchedulerAction::Discarded { poll_id: entry.poll_id };
            },
        };
        if !item.enabled {
            self.schedule.remove(head);
            assert(self@.schedule =~= spec_poll_state(old(self)@, now_ns).schedule);
            return SchedulerAction::Discarded { poll_id: entry.poll_id };
        }
        let rate: u64 = self.config.max_polls_per_second as u64;
        let gap: u64 = (1_000_000_000 + rate - 1) / rate;
        match self.last_dispatch_ns {
            Some(last) => {
                if now_ns < last {
                    return SchedulerAction::Throttled { wait_ns: gap };
                }
                if now_ns - last < gap {
                    return SchedulerAction::Throttled { wait_ns: gap - (now_ns - last) };
                }
            },
            None => {},
        }
        let interval_ns: u64 = (item.current_interval_ms as u64) * 1_000_000;
        let next_due: u64 = if now_ns > u64::MAX - interval_ns {
            u64::MAX
        } else {
            now_ns + interval_ns
        };
        let sequence: u64 = self.sequence;
        self.sequence = if sequence == u64::MAX {
            0
        } else {
            sequence + 1
        };
        self.last_dispatch_ns = Some(now_ns);
        assert(self@.status.contains_key(entry.poll_id));
        let mut status: PollStatus = match self.status.get(&entry.poll_id) {
            Some(status) => *status,
            // not reached: every item has its status
            None => PollStatus::default(),
        };
        status.last_poll_ns = now_ns;
        status.next_poll_ns = next_due;
        self.status.insert(entry.poll_id, status);
        self.schedule.remove(head);
        self.schedule.push(
            ScheduleEntry { next_time_ns: next_due, priority: item.priority, poll_id: item.poll_id },
        );
        let trigger = PollTrigger {
            poll_id: item.poll_id,
            device_id: item.device_id,
            register_type: item.register_type,
            address: item.address,
            count: item.count,
            sequence_number: sequence,
            scheduled_time_ns: entry.next_time_ns,
            actual_time_ns: now_ns,
        };
        proof {
            let after = spec_poll_state(old(self)@, now_ns);
            assert(self@.status =~= after.status);
            assert(self@.schedule =~= after.schedule);
            assert(self@.items =~= after.items);
        }
        SchedulerAction::Trigger(trigger)
    }

    /// Runs the scheduler over a sequence of clock readings: one step of
    /// `poll` at each of them, in order.  Returns the triggers that were
    /// dispatched, each as `poll` built it.  A stopped scheduler dispatches
    /// none.
    pub fn run(&mut self, times: &[u64]) -> (triggers: Vec<PollTrigger>)
        requires
            old(self).wf(),
        ensures
            final(self).wf(),
            final(self)@ == polled(old(self)@, times@, times@.len() as int),
            triggers@ == dispatched_triggers(old(self)@, times@, times@.len() as int),
            trigger_times(triggers@) == dispatch_times(old(self)@, times@, times@.len() as int),
    {
        let mut triggers: Vec<PollTrigger> = Vec::new();
        let mut i: usize = 0;
        assert(triggers@ =~= dispatched_triggers(old(self)@, times@, 0));
        while i < times.len()
            invariant
                0 <= i <= times@.len(),
                self.wf(),
                self@ == polled(old(self)@, times@, i as int),
                triggers@ == dispatched_triggers(old(self)@, times@, i as int),
            decreases times@.len() - i,
        {
            let ghost before = triggers@;
            match self.poll(times[i]) {
                SchedulerAction::Trigger(t) => {
                    triggers.push(t);
                    assert(triggers@ =~= before.push(t));
                },
                _ => {},
            }
            i = i + 1;
        }
        proof {
            lemma_triggers_carry_dispatch_times(old(self)@, times@, times@.len() as int);
        }
        triggers
    }
}

} // verus!
