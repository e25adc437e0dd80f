//! The replaceable one-shot timers behind `scheduleTimer`. The timer crate
//! does the waiting and the delivery; the contracts speak only of which
//! timer identifiers are pending and with what delay.

use vstd::prelude::*;
use std::collections::HashMap;
use std::sync::mpsc::Sender;
use crate::types::SourceEvent;

verus! {

/// The pending one-shot timers: each timer identifier maps to the delay, in
/// milliseconds, that its latest schedule was armed with.
pub uninterp spec fn timer_pending(t: TimerBank) -> Map<Seq<char>, int>;

/// The longest delay a timer may be armed with: about three thousand years
/// in milliseconds. The date arithmetic under `schedule_with_delay` panics
/// when now-plus-delay leaves the representable date range, several orders
/// of magnitude above this bound.
pub const MAX_TIMER_DELAY_MS: i64 = 100_000_000_000_000;

/// Owns the timer thread and one replaceable guard per timer identifier.
/// Holds a `timer::MessageTimer` and its `timer::Guard`s, which Verus does
/// not read: the contracts speak of `timer_pending` instead.
#[verifier::external_body]
pub struct TimerBank {
    timer: timer::MessageTimer<SourceEvent>,
    guards: HashMap<String, timer::Guard>,
}

impl TimerBank {
    /// Relies on `timer::MessageTimer::new`: a fresh timer, with its delivery
    /// thread, has nothing scheduled.
    #[verifier::external_body]
    pub(crate) fn new(tx: Sender<SourceEvent>) -> (r: TimerBank)
        ensures
            timer_pending(r) =~= Map::empty(),
    {
        TimerBank { timer: timer::MessageTimer::new(tx), guards: HashMap::new() }
    }

    /// Relies on `timer::MessageTimer::schedule_with_delay`: it delivers `ev`
    /// on the queue once, no earlier than `delay_ms` after this call, unless
    /// the returned `timer::Guard` is dropped first — and storing the new
    /// guard under `id` drops any previous guard held for `id`, which cancels
    /// that earlier schedule. The bounds on `delay_ms` keep the call away
    /// from the inputs on which chrono's duration construction or its date
    /// addition panic (`i64::MIN` milliseconds; delays past the last
    /// representable date).
    #[verifier::external_body]
    pub(crate) fn schedule(&mut self, id: &String, delay_ms: i64, ev: SourceEvent)
        requires
            0 <= delay_ms <= MAX_TIMER_DELAY_MS,
        ensures
            timer_pending(*final(self)) == timer_pending(*old(self)).insert(
                id@,
                delay_ms as int,
            ),
    {
        let guard = self.timer.schedule_with_delay(chrono::Duration::milliseconds(delay_ms), ev);
        let _ = self.guards.insert(id.clone(), guard);
    }
}

/// Law: re-scheduling a timer replaces it. Whatever was pending, arming `id`
/// with delay `d` and then arming `id` again with delay `d2` before the
/// first fires leaves exactly one pending timer under `id`, armed with `d2`
/// — the very state that arming only the second schedule would have left.
pub proof fn lemma_timer_reschedule_replaces(
    pending: Map<Seq<char>, int>,
    id: Seq<char>,
    d: int,
    d2: int,
)
    ensures
        pending.insert(id, d).insert(id, d2) =~= pending.insert(id, d2),
        pending.insert(id, d).insert(id, d2)[id] == d2,
        pending.insert(id, d).insert(id, d2).dom().contains(id),
{
}

} // verus!
