//! Event-rate tracking over a sliding window, for the diagnostic task that
//! monitors how often something ticks.
//!
//! The tracker counts events and keeps one history entry per window slot:
//! the event count and clock reading at the moment that slot was rotated
//! in. Advancing the window pops the oldest entry and pushes the present,
//! yielding how many events fell into the window and how long the window
//! really was — as exact integers. Turning that into a frequency and
//! holding it against tolerated bounds is floating-point arithmetic, which
//! stays outside with the clock itself; the clock readings come in here as
//! plain nanosecond values from a monotonic source.

use vstd::prelude::*;

verus! {

/// One window slot: the running event count and the clock reading when
/// the slot was rotated in.
#[derive(Clone, Copy, Debug, PartialEq, Eq, Structural)]
pub struct HistoryEntry {
    /// Events counted since the last reset, at rotation time.
    pub count: usize,
    /// The monotonic clock, in nanoseconds, at rotation time.
    pub stamp_nanos: u64,
}

impl HistoryEntry {
    /// A slot recording the given running count at the given clock
    /// reading.
    pub fn new(count: usize, stamp_nanos: u64) -> (e: HistoryEntry)
        ensures
            e == (HistoryEntry { count, stamp_nanos }),
    {
        HistoryEntry { count, stamp_nanos }
    }
}

/// What one advance of the window observed.
#[derive(Clone, Copy, Debug, PartialEq, Eq, Structural)]
pub struct WindowReport {
    /// How many events fell inside the window.
    pub events: usize,
    /// How long the window really was, in nanoseconds.
    pub window_nanos: u64,
    /// Events counted since the last reset, in all.
    pub events_total: usize,
}

/// The event counter with its sliding window of history slots.
pub struct Tracker {
    count: usize,
    history: Vec<HistoryEntry>,
    window_size: usize,
}

impl Tracker {
    /// Events counted since the last reset.
    pub closed spec fn spec_count(&self) -> nat {
        self.count as nat
    }

    /// The window slots, oldest first.
    pub closed spec fn spec_history(&self) -> Seq<HistoryEntry> {
        self.history@
    }

    /// How many slots the window holds.
    pub closed spec fn spec_window_size(&self) -> nat {
        self.window_size as nat
    }

    /// The newest clock reading recorded in any slot.
    pub open spec fn latest_stamp(&self) -> nat {
        self.spec_history().last().stamp_nanos as nat
    }

    /// There is always one entry per window slot, no entry counts more
    /// events than have happened, and the clock readings never decrease
    /// from slot to slot.
    pub open spec fn wf(&self) -> bool {
        &&& self.spec_window_size() >= 1
        &&& self.spec_history().len() == self.spec_window_size()
        &&& forall|i: int|
            0 <= i < self.spec_history().len() ==> (#[trigger] self.spec_history()[i]).count as nat
                <= self.spec_count()
        &&& forall|i: int, j: int|
            0 <= i <= j < self.spec_history().len() ==> (
            #[trigger] self.spec_history()[i]).stamp_nanos <= (
            #[trigger] self.spec_history()[j]).stamp_nanos
    }

    /// A fresh tracker: no events yet, every slot rotated in at `now`.
    pub fn new(window_size: usize, now_nanos: u64) -> (t: Tracker)
        requires
            window_size >= 1,
        ensures
            t.wf(),
            t.spec_count() == 0,
            t.spec_window_size() == window_size as nat,
            forall|i: int|
                0 <= i < t.spec_history().len() ==> (#[trigger] t.spec_history()[i]) == (
                HistoryEntry { count: 0, stamp_nanos: now_nanos }),
    {
        let mut t = Tracker { count: 0, history: Vec::new(), window_size };
        t.clear(now_nanos);
        t
    }

    /// Counts one event.
    pub fn tick(&mut self)
        requires
            old(self).wf(),
            old(self).spec_count() < usize::MAX as nat,
        ensures
            final(self).wf(),
            final(self).spec_count() == old(self).spec_count() + 1,
            final(self).spec_history() == old(self).spec_history(),
            final(self).spec_window_size() == old(self).spec_window_size(),
    {
        self.count = self.count + 1;
    }

    /// Resets the statistics: no events, every slot rotated in at `now`.
    /// Good to do right before the observed routine starts, so the delay
    /// since creation does not widen the first reading.
    pub fn clear(&mut self, now_nanos: u64)
        requires
            old(self).spec_window_size() >= 1,
        ensures
            final(self).wf(),
            final(self).spec_count() == 0,
            final(self).spec_window_size() == old(self).spec_window_size(),
            final(self).latest_stamp() == now_nanos as nat,
            forall|i: int|
                0 <= i < final(self).spec_history().len() ==> (
                #[trigger] final(self).spec_history()[i]) == (HistoryEntry {
                    count: 0,
                    stamp_nanos: now_nanos,
                }),
    {
        self.count = 0;
        self.history.clear();
        let entry = HistoryEntry { count: 0, stamp_nanos: now_nanos };
        let mut i: usize = 0;
        while i < self.window_size
            invariant
                self.spec_count() == 0,
                self.spec_window_size() == old(self).spec_window_size(),
                entry == (HistoryEntry { count: 0, stamp_nanos: now_nanos }),
                i <= self.window_size,
                self.history@.len() == i as nat,
                forall|k: int| 0 <= k < i as int ==> (#[trigger] self.history@[k]) == entry,
            decreases self.window_size - i,
        {
            self.history.push(entry);
            i += 1;
        }
    }

    /// Rotates the window once, at clock reading `now`: the oldest slot
    /// leaves, the present enters, and the report says how many events
    /// fell between the two and how far apart their clock readings were.
    /// The clock must not have gone backwards since the newest slot — it
    /// is a monotonic source.
    pub fn advance_window(&mut self, now_nanos: u64) -> (r: WindowReport)
        requires
            old(self).wf(),
            old(self).latest_stamp() <= now_nanos as nat,
        ensures
            final(self).wf(),
            final(self).spec_count() == old(self).spec_count(),
            final(self).spec_window_size() == old(self).spec_window_size(),
            r.events as nat == old(self).spec_count() - old(self).spec_history()[0].count,
            r.window_nanos as nat == now_nanos - old(self).spec_history()[0].stamp_nanos,
            r.events_total as nat == old(self).spec_count(),
            final(self).spec_history() == old(self).spec_history().remove(0).push(
                HistoryEntry { count: old(self).count_value(), stamp_nanos: now_nanos },
            ),
    {
        proof {
            assert(old(self).spec_history()[0].stamp_nanos <= old(self).latest_stamp());
        }
        let start = self.history.remove(0);
        let end = HistoryEntry { count: self.count, stamp_nanos: now_nanos };
        self.history.push(end);
        proof {
            let h = self.spec_history();
            assert forall|i: int, j: int| 0 <= i <= j < h.len() implies (
            #[trigger] h[i]).stamp_nanos <= (#[trigger] h[j]).stamp_nanos by {
                if j < h.len() - 1 {
                    assert(h[i] == old(self).spec_history()[i + 1]);
                    assert(h[j] == old(self).spec_history()[j + 1]);
                } else if i < h.len() - 1 {
                    assert(h[i] == old(self).spec_history()[i + 1]);
                    assert(h[i].stamp_nanos as nat <= old(self).latest_stamp());
                }
            }
        }
        WindowReport {
            events: self.count - start.count,
            window_nanos: now_nanos - start.stamp_nanos,
            events_total: self.count,
        }
    }

    /// The running event count, as a value.
    pub closed spec fn count_value(&self) -> usize {
        self.count
    }

    /// The newest clock reading recorded in any slot, as a value.
    pub fn latest_stamp_nanos(&self) -> (n: u64)
        requires
            self.wf(),
        ensures
            n as nat == self.latest_stamp(),
    {
        self.history[self.history.len() - 1].stamp_nanos
    }

    /// Events counted since the last reset.
    pub fn total(&self) -> (n: usize)
        ensures
            n as nat == self.spec_count(),
    {
        self.count
    }

    /// How many slots the window holds.
    pub fn window_size(&self) -> (n: usize)
        ensures
            n as nat == self.spec_window_size(),
    {
        self.window_size
    }
}

} // verus!
