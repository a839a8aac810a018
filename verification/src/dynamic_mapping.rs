//! A keyed limiter whose capacity and period are supplied per call.
//!
//! A key's counter is created lazily with the pair supplied on first sight;
//! later calls for the same key use the counter's stored parameters, even if
//! the caller passes a different pair, so a window's shape is never redefined
//! mid-flight.  A counter untouched for longer than `max_period` is eligible
//! for eviction by the sweep.

use crate::jumping_window::{JumpingWindow, WindowModel};
use crate::table::WindowTable;
use crate::ConfigError;
use vstd::prelude::*;

verus! {

/// A keyed fixed-window limiter whose `(capacity, period)` pair is chosen
/// per key on first sight.
pub struct DynamicMapping {
    max_period: u64,
    table: WindowTable,
}

impl DynamicMapping {
    /// The retention bound: how long a counter may go untouched before the
    /// sweep may remove it.
    pub closed spec fn spec_max_period(self) -> u64 {
        self.max_period
    }

    /// The per-key counters currently stored.
    pub closed spec fn windows(self) -> Map<u64, WindowModel> {
        self.table@
    }

    /// The table's internal well-formedness.
    pub closed spec fn inv(self) -> bool {
        self.table.wf()
    }

    pub open spec fn wf(self) -> bool {
        &&& self.inv()
        &&& self.spec_max_period() > 0
        &&& forall|k: u64| #[trigger] self.windows().contains_key(k) ==> self.windows()[k].wf()
    }

    /// Every stored counter's window starts no later than `now`: the shape
    /// the table has whenever `now` comes from a monotonic clock.
    pub open spec fn valid_at(self, now: nat) -> bool {
        forall|k: u64| #[trigger] self.windows().contains_key(k) ==> self.windows()[k].window_start
            <= now
    }

    /// The counter consulted for `key` at time `now`: the stored one — its
    /// first-seen parameters win — or a fresh one built from the pair
    /// supplied with this call.
    pub open spec fn counter(self, key: u64, capacity: nat, period: nat, now: nat) -> WindowModel {
        if self.windows().contains_key(key) {
            self.windows()[key]
        } else {
            WindowModel::fresh(capacity, period, now)
        }
    }

    /// Builds a limiter, rejecting a zero retention bound.
    pub fn new(max_period: u64) -> (r: Result<DynamicMapping, ConfigError>)
        ensures
            max_period > 0 ==> (r matches Ok(m) && m.wf() && m.spec_max_period() == max_period
                && m.windows() == Map::<u64, WindowModel>::empty()),
            max_period == 0 ==> r === Err(ConfigError::ZeroPeriod),
    {
        if max_period == 0 {
            Err(ConfigError::ZeroPeriod)
        } else {
            Ok(DynamicMapping { max_period, table: WindowTable::new() })
        }
    }

    /// The counter for `key`, ready to be operated on and stored back.
    fn lookup(&self, key: u64, capacity: u64, period: u64, now: u64) -> (w: JumpingWindow)
        requires
            self.wf(),
            self.valid_at(now as nat),
            capacity > 0,
            period > 0,
        ensures
            w@ == self.counter(key, capacity as nat, period as nat, now as nat),
            w.wf(),
            w@.window_start <= now,
    {
        match self.table.get_window(key) {
            Some(w) => w,
            None => JumpingWindow::fresh(capacity, period, now),
        }
    }

    /// Stores `w` back as the counter for `key`.
    fn store(&mut self, key: u64, w: JumpingWindow)
        requires
            old(self).inv(),
            w.wf(),
        ensures
            final(self).inv(),
            final(self).windows() == old(self).windows().insert(key, w@),
            final(self).spec_max_period() == old(self).spec_max_period(),
    {
        self.table.put(key, w);
    }

    /// Remaining quota for `key` at time `now`; reading normalizes the
    /// stored window but consumes nothing.
    pub fn tokens(&mut self, key: u64, capacity: u64, period: u64, now: u64) -> (r: u64)
        requires
            old(self).wf(),
            old(self).valid_at(now as nat),
            capacity > 0,
            period > 0,
        ensures
            final(self).wf(),
            final(self).valid_at(now as nat),
            final(self).spec_max_period() == old(self).spec_max_period(),
            final(self).windows() == old(self).windows().insert(
                key,
                old(self).counter(key, capacity as nat, period as nat, now as nat).norm(now as nat),
            ),
            r == old(self).counter(key, capacity as nat, period as nat, now as nat).spec_tokens(
                now as nat,
            ),
    {
        let mut w = self.lookup(key, capacity, period, now);
        let r = w.tokens(now);
        self.store(key, w);
        r
    }

    /// Time until `key`'s current window next rolls over.
    pub fn next_reset(&mut self, key: u64, capacity: u64, period: u64, now: u64) -> (r: u64)
        requires
            old(self).wf(),
            old(self).valid_at(now as nat),
            capacity > 0,
            period > 0,
        ensures
            final(self).wf(),
            final(self).valid_at(now as nat),
            final(self).spec_max_period() == old(self).spec_max_period(),
            final(self).windows() == old(self).windows().insert(
                key,
                old(self).counter(key, capacity as nat, period as nat, now as nat).norm(now as nat),
            ),
            r == old(self).counter(key, capacity as nat, period as nat, now as nat).spec_next_reset(
                now as nat,
            ),
    {
        let mut w = self.lookup(key, capacity, period, now);
        let r = w.next_reset(now);
        self.store(key, w);
        r
    }

    /// How long a denied caller on `key` must wait; `None` while quota
    /// remains.
    pub fn retry_after(&mut self, key: u64, capacity: u64, period: u64, now: u64) -> (r: Option<
        u64,
    >)
        requires
            old(self).wf(),
            old(self).valid_at(now as nat),
            capacity > 0,
            period > 0,
        ensures
            final(self).wf(),
            final(self).valid_at(now as nat),
            final(self).spec_max_period() == old(self).spec_max_period(),
            final(self).windows() == old(self).windows().insert(
                key,
                old(self).counter(key, capacity as nat, period as nat, now as nat).norm(now as nat),
            ),
            r is None <==> old(self).counter(key, capacity as nat, period as nat, now as nat).spec_tokens(
                now as nat,
            ) > 0,
            r matches Some(d) ==> d == old(self).counter(
                key,
                capacity as nat,
                period as nat,
                now as nat,
            ).spec_next_reset(now as nat),
    {
        let mut w = self.lookup(key, capacity, period, now);
        let r = w.retry_after(now);
        self.store(key, w);
        r
    }

    /// Whether an admission attempt on `key` at `now` would succeed.
    pub fn can_trigger(&mut self, key: u64, capacity: u64, period: u64, now: u64) -> (r: bool)
        requires
            old(self).wf(),
            old(self).valid_at(now as nat),
            capacity > 0,
            period > 0,
        ensures
            final(self).wf(),
            final(self).valid_at(now as nat),
            final(self).spec_max_period() == old(self).spec_max_period(),
            final(self).windows() == old(self).windows().insert(
                key,
                old(self).counter(key, capacity as nat, period as nat, now as nat).norm(now as nat),
            ),
            r == old(self).counter(key, capacity as nat, period as nat, now as nat).spec_can_trigger(
                now as nat,
            ),
    {
        let mut w = self.lookup(key, capacity, period, now);
        let r = w.can_trigger(now);
        self.store(key, w);
        r
    }

    /// Admits one event for `key` if quota remains in its current window:
    /// `None` on admission, or the time to wait on denial.
    pub fn trigger(&mut self, key: u64, capacity: u64, period: u64, now: u64) -> (r: Option<u64>)
        requires
            old(self).wf(),
            old(self).valid_at(now as nat),
            capacity > 0,
            period > 0,
        ensures
            final(self).wf(),
            final(self).valid_at(now as nat),
            final(self).spec_max_period() == old(self).spec_max_period(),
            final(self).windows() == old(self).windows().insert(
                key,
                old(self).counter(key, capacity as nat, period as nat, now as nat).spec_trigger(
                    now as nat,
                ).0,
            ),
            r is None <==> old(self).counter(key, capacity as nat, period as nat, now as nat).spec_can_trigger(
                now as nat,
            ),
            r matches Some(d) ==> d == old(self).counter(
                key,
                capacity as nat,
                period as nat,
                now as nat,
            ).spec_next_reset(now as nat),
    {
        let mut w = self.lookup(key, capacity, period, now);
        let r = w.trigger(now);
        self.store(key, w);
        r
    }

    /// Discards `key`'s pending usage: its counter starts a fresh, empty
    /// window at `now`, shaped by the pair supplied with this call.
    pub fn reset(&mut self, key: u64, capacity: u64, period: u64, now: u64)
        requires
            old(self).wf(),
            old(self).valid_at(now as nat),
            capacity > 0,
            period > 0,
        ensures
            final(self).wf(),
            final(self).valid_at(now as nat),
            final(self).spec_max_period() == old(self).spec_max_period(),
            final(self).windows() == old(self).windows().insert(
                key,
                WindowModel::fresh(capacity as nat, period as nat, now as nat),
            ),
    {
        let w = JumpingWindow::fresh(capacity, period, now);
        self.store(key, w);
    }

    /// How many keys currently hold a counter.
    pub fn len(&self) -> (n: usize)
        ensures
            n == self.windows().dom().len(),
    {
        self.table.len()
    }

    /// One eviction pass: removes every counter whose window has gone
    /// untouched for longer than `max_period`; all other counters are kept
    /// unchanged.  No in-flight call can still depend on a removed counter,
    /// since every window is at most `max_period` long.
    pub fn sweep(&mut self, now: u64)
        requires
            old(self).wf(),
            old(self).valid_at(now as nat),
        ensures
            final(self).wf(),
            final(self).valid_at(now as nat),
            final(self).spec_max_period() == old(self).spec_max_period(),
            forall|k: u64| #[trigger] final(self).windows().contains_key(k) <==> (old(self).windows().contains_key(k)
                && now - old(self).windows()[k].window_start <= old(self).spec_max_period()),
            forall|k: u64| #[trigger] final(self).windows().contains_key(k)
                ==> final(self).windows()[k] == old(self).windows()[k],
    {
        proof {
            assert forall|k: u64| #[trigger] self.table@.contains_key(k) implies self.table@[k].window_start
                <= now by {
                assert(self.windows().contains_key(k));
            }
        }
        let retention = self.max_period;
        self.table.sweep(retention, now);
        proof {
            assert forall|k: u64| #[trigger] self.windows().contains_key(k) implies self.windows()[k].wf()
                && self.windows()[k].window_start <= now by {
                assert(old(self).windows().contains_key(k));
            }
        }
    }
}

} // verus!
