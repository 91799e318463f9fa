//! Entries of the poll schedule and their order of urgency.

use vstd::prelude::*;
use std::cmp::Ordering;
use vstd::std_specs::cmp::PartialOrdSpecImpl;

verus! {

/// An entry of the schedule: when a poll item is next due.
#[derive(Debug, Clone, Copy, PartialEq, Eq, Structural)]
pub struct ScheduleEntry {
    /// Next poll time in nanoseconds
    pub next_time_ns: u64,
    /// Priority (higher is more important)
    pub priority: u8,
    /// Poll id
    pub poll_id: u32,
}

/// Whether `a` is served before `b`: the earlier due time first, then the
/// higher priority, then the lower poll id.
pub open spec fn more_urgent(a: ScheduleEntry, b: ScheduleEntry) -> bool {
    a.next_time_ns < b.next_time_ns || (a.next_time_ns == b.next_time_ns && (a.priority
        > b.priority || (a.priority == b.priority && a.poll_id < b.poll_id)))
}

/// Returns whether `a` is served before `b`.
pub fn is_more_urgent(a: &ScheduleEntry, b: &ScheduleEntry) -> (r: bool)
    ensures
        r == more_urgent(*a, *b),
{
    a.next_time_ns < b.next_time_ns || (a.next_time_ns == b.next_time_ns && (a.priority
        > b.priority || (a.priority == b.priority && a.poll_id < b.poll_id)))
}

impl PartialOrd for ScheduleEntry {
    /// The more urgent entry is the greater one.
    fn partial_cmp(&self, other: &Self) -> (r: Option<Ordering>) {
        if is_more_urgent(self, other) {
            Some(Ordering::Greater)
        } else if is_more_urgent(other, self) {
            Some(Ordering::Less)
        } else {
            Some(Ordering::Equal)
        }
    }
}

impl PartialOrdSpecImpl for ScheduleEntry {
    open spec fn obeys_partial_cmp_spec() -> bool {
        true
    }

    open spec fn partial_cmp_spec(&self, other: &Self) -> Option<Ordering> {
        if more_urgent(*self, *other) {
            Some(Ordering::Greater)
        } else if more_urgent(*other, *self) {
            Some(Ordering::Less)
        } else {
            Some(Ordering::Equal)
        }
    }
}

/// Urgency is a strict total order: of two different entries exactly one
/// is more urgent, none is more urgent than itself, and urgency is
/// transitive.
pub proof fn lemma_urgency_is_total_order(a: ScheduleEntry, b: ScheduleEntry, c: ScheduleEntry)
    ensures
        !more_urgent(a, a),
        a != b ==> (more_urgent(a, b) <==> !more_urgent(b, a)),
        more_urgent(a, b) && more_urgent(b, c) ==> more_urgent(a, c),
{
}

} // verus!
