//! Virtual time: a clock that its driver advances, and one-shot timers.
//!
//! The clock is the one holder of the time. A peripheral keeps no copy of
//! it: it is handed the clock's tick with every write and with every poll.

use vstd::prelude::*;
use crate::bus::Bus;
use crate::types::{BusError, RvAddr, RvData, RvSize};

verus! {

/// The source of virtual time. It only moves when its driver advances it.
/// Writes that start a wait and polls that end one go through the clock, so
/// that both count by the same time.
pub struct Clock {
    now: u64,
}

impl Clock {
    /// The number of ticks that have passed.
    pub closed spec fn spec_now(&self) -> u64 {
        self.now
    }

    /// A clock at tick zero.
    pub fn new() -> (clock: Clock)
        ensures
            clock.spec_now() == 0,
    {
        Clock { now: 0 }
    }

    /// The number of ticks that have passed.
    #[verifier::when_used_as_spec(spec_now)]
    pub fn now(&self) -> (t: u64)
        ensures
            t == self.spec_now(),
    {
        self.now
    }

    /// Moves time forward by `delta` ticks and then polls `bus`, once,
    /// with the new time.
    pub fn increment_and_poll<B: Bus>(&mut self, delta: u64, bus: &mut B)
        requires
            old(self).now() + delta <= u64::MAX,
        ensures
            final(self).now() == old(self).now() + delta,
            old(bus).polled(final(self).now(), final(bus)),
    {
        self.now = self.now + delta;
        bus.poll(self.now);
    }

    /// Writes `val` with `size` at `addr` of `bus`, at the clock's present
    /// time.
    pub fn write<B: Bus>(&self, bus: &mut B, size: RvSize, addr: RvAddr, val: RvData) -> (r: Result<
        (),
        BusError,
    >)
        ensures
            old(bus).writes(self.now(), size, addr, val, final(bus), r),
    {
        bus.write(self.now, size, addr, val)
    }

    /// Moves time forward by `delta` ticks and then polls every peripheral
    /// of `buses`, each once and in the order of the list, with the new
    /// time.
    pub fn increment_and_poll_all<B: Bus>(&mut self, delta: u64, buses: &mut Vec<B>)
        requires
            old(self).now() + delta <= u64::MAX,
        ensures
            final(self).now() == old(self).now() + delta,
            final(buses).len() == old(buses).len(),
            forall|i: int|
                0 <= i < old(buses).len() ==> (#[trigger] old(buses)[i]).polled(
                    final(self).now(),
                    &final(buses)[i],
                ),
    {
        self.now = self.now + delta;
        let now: u64 = self.now;
        let mut i: usize = 0;
        while i < buses.len()
            invariant
                i <= buses.len(),
                buses.len() == old(buses).len(),
                forall|k: int| 0 <= k < i ==> (#[trigger] old(buses)[k]).polled(now, &buses[k]),
                forall|k: int| i <= k < buses.len() ==> buses[k] == #[trigger] old(buses)[k],
            decreases buses.len() - i,
        {
            buses[i].poll(now);
            i = i + 1;
        }
    }
}

/// A one-shot action that a timer has scheduled.
#[derive(Clone, Copy, Debug)]
pub struct TimerAction {
    fire_at: u128,
}

impl TimerAction {
    /// The tick from which on the action has fired. It is kept wider than
    /// the clock so that no sum of a time and a delay wraps.
    pub closed spec fn spec_fire_at(&self) -> u128 {
        self.fire_at
    }

    /// The tick from which on the action has fired.
    #[verifier::when_used_as_spec(spec_fire_at)]
    pub fn fire_at(&self) -> (t: u128)
        ensures
            t == self.spec_fire_at(),
    {
        self.fire_at
    }

    /// Whether the action has fired by the tick `now`.
    pub open spec fn has_fired(&self, now: u64) -> bool {
        now >= self.fire_at()
    }
}

/// What `Timer::fired` answers for a slot at the tick `now`.
pub open spec fn slot_fired(slot: Option<TimerAction>, now: u64) -> bool {
    match slot {
        Some(action) => action.has_fired(now),
        None => false,
    }
}

/// What `Timer::fired` leaves in a slot at the tick `now`: nothing where the
/// action has fired, else what was there.
pub open spec fn slot_after(slot: Option<TimerAction>, now: u64) -> Option<TimerAction> {
    if slot_fired(slot, now) {
        None
    } else {
        slot
    }
}

/// The scheduler of one-shot actions. It holds no time: the tick of the
/// clock is handed to it with every call.
pub struct Timer;

impl Timer {
    /// Schedules, at the tick `now`, an action that fires once
    /// `ticks_from_now` more ticks have passed.
    pub fn schedule_poll_in(now: u64, ticks_from_now: u64) -> (action: TimerAction)
        ensures
            action.fire_at() == now + ticks_from_now,
    {
        TimerAction { fire_at: now as u128 + ticks_from_now as u128 }
    }

    /// Whether the action in `slot` has fired by the tick `now`. An action
    /// that has fired is taken out of the slot, so that it is reported once.
    pub fn fired(now: u64, slot: &mut Option<TimerAction>) -> (r: bool)
        ensures
            r == slot_fired(*old(slot), now),
            *final(slot) == slot_after(*old(slot), now),
    {
        let has_fired = match slot {
            Some(action) => now as u128 >= action.fire_at,
            None => false,
        };
        if has_fired {
            *slot = None;
        }
        has_fired
    }
}

/// An action is reported as fired at most once: once it has been, no call
/// at any time reports it again.
pub proof fn lemma_fired_at_most_once(slot: Option<TimerAction>, now: u64, later: u64)
    requires
        slot_fired(slot, now),
    ensures
        !slot_fired(slot_after(slot, now), later),
        slot_after(slot_after(slot, now), later) == slot_after(slot, now),
{
}

} // verus!
