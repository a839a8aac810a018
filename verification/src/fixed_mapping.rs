//! A keyed limiter whose capacity and period are fixed at construction.
//!
//! Every operation takes a key hash and the current time; the counter for a
//! key is created lazily on first sight.  A sweep (driven by a caller-side
//! maintenance loop) evicts counters whose window has gone untouched for
//! longer than one period.

use crate::jumping_window::{JumpingWindow, WindowModel};
use crate::table::WindowTable;
use crate::ConfigError;
use vstd::prelude::*;

verus! {

/// A keyed fixed-window limiter with one `(capacity, period)` pair for all
/// keys.
pub struct FixedMapping {
    capacity: u64,
    period: u64,
    table: WindowTable,
}

impl FixedMapping {
    /// Maximum events per window, shared by every key.
    pub closed spec fn spec_capacity(self) -> u64 {
        self.capacity
    }

    /// Window length in nanoseconds, shared by every key.
    pub closed spec fn spec_period(self) -> u64 {
        self.period
    }

    /// The per-key counters currently stored.
    pub closed spec fn windows(self) -> Map<u64, WindowModel> {
        self.table@
    }

    /// The table's internal well-formedness.
    pub closed spec fn inv(self) -> bool {
        self.table.wf()
    }

    pub open spec fn wf(self) -> bool {
        &&& self.inv()
        &&& self.spec_capacity() > 0
        &&& self.spec_period() > 0
        &&& forall|k: u64| #[trigger] self.windows().contains_key(k) ==> self.windows()[k].wf()
            && self.windows()[k].capacity == self.spec_capacity() && self.windows()[k].period
            == self.spec_period()
    }

    /// Every stored counter's window starts no later than `now`: the shape
    /// the table has whenever `now` comes from a monotonic clock.
    pub open spec fn valid_at(self, now: nat) -> bool {
        forall|k: u64| #[trigger] self.windows().contains_key(k) ==> self.windows()[k].window_start
            <= now
    }

    /// The counter consulted for `key` at time `now`: the stored one, or a
    /// fresh one about to be created.
    pub open spec fn counter(self, key: u64, now: nat) -> WindowModel {
        if self.windows().contains_key(key) {
            self.windows()[key]
        } else {
            WindowModel::fresh(self.spec_capacity() as nat, self.spec_period() as nat, now)
        }
    }

    /// Builds a limiter, rejecting a configuration that could never or
    /// always admit.
    pub fn new(capacity: u64, period: u64) -> (r: Result<FixedMapping, ConfigError>)
        ensures
            capacity > 0 && period > 0 ==> (r matches Ok(m) && m.wf() && m.spec_capacity()
                == capacity && m.spec_period() == period && m.windows() == Map::<
                u64,
                WindowModel,
            >::empty()),
            capacity == 0 ==> r === Err(ConfigError::ZeroCapacity),
            capacity > 0 && period == 0 ==> r === Err(ConfigError::ZeroPeriod),
    {
        if capacity == 0 {
            Err(ConfigError::ZeroCapacity)
        } else if period == 0 {
            Err(ConfigError::ZeroPeriod)
        } else {
            Ok(FixedMapping { capacity, period, table: WindowTable::new() })
        }
    }

    /// The counter for `key`, normalized to `now`, ready to be operated on
    /// and stored back.
    fn lookup(&self, key: u64, now: u64) -> (w: JumpingWindow)
        requires
            self.wf(),
            self.valid_at(now as nat),
        ensures
            w@ == self.counter(key, now as nat),
            w.wf(),
            w@.window_start <= now,
    {
        match self.table.get_window(key) {
            Some(w) => w,
            None => JumpingWindow::fresh(self.capacity, self.period, now),
        }
    }

    /// Stores `w` back as the counter for `key`.
    fn store(&mut self, key: u64, w: JumpingWindow)
        requires
            old(self).inv(),
            w.wf(),
        ensures
            final(self).inv(),
            final(self).windows() == old(self).windows().insert(key, w@),
            final(self).spec_capacity() == old(self).spec_capacity(),
            final(self).spec_period() == old(self).spec_period(),
    {
        self.table.put(key, w);
    }

    /// Remaining quota for `key` at time `now`; reading normalizes the
    /// stored window but consumes nothing.
    pub fn tokens(&mut self, key: u64, now: u64) -> (r: u64)
        requires
            old(self).wf(),
            old(self).valid_at(now as nat),
        ensures
            final(self).wf(),
            final(self).valid_at(now as nat),
            final(self).spec_capacity() == old(self).spec_capacity(),
            final(self).spec_period() == old(self).spec_period(),
            final(self).windows() == old(self).windows().insert(
                key,
                old(self).counter(key, now as nat).norm(now as nat),
            ),
            r == old(self).counter(key, now as nat).spec_tokens(now as nat),
    {
        let mut w = self.lookup(key, now);
        let r = w.tokens(now);
        self.store(key, w);
        r
    }

    /// Time until `key`'s current window next rolls over.
    pub fn next_reset(&mut self, key: u64, now: u64) -> (r: u64)
        requires
            old(self).wf(),
            old(self).valid_at(now as nat),
        ensures
            final(self).wf(),
            final(self).valid_at(now as nat),
            final(self).spec_capacity() == old(self).spec_capacity(),
            final(self).spec_period() == old(self).spec_period(),
            final(self).windows() == old(self).windows().insert(
                key,
                old(self).counter(key, now as nat).norm(now as nat),
            ),
            r == old(self).counter(key, now as nat).spec_next_reset(now as nat),
    {
        let mut w = self.lookup(key, now);
        let r = w.next_reset(now);
        self.store(key, w);
        r
    }

    /// How long a denied caller on `key` must wait; `None` while quota
    /// remains.
    pub fn retry_after(&mut self, key: u64, now: u64) -> (r: Option<u64>)
        requires
            old(self).wf(),
            old(self).valid_at(now as nat),
        ensures
            final(self).wf(),
            final(self).valid_at(now as nat),
            final(self).spec_capacity() == old(self).spec_capacity(),
            final(self).spec_period() == old(self).spec_period(),
            final(self).windows() == old(self).windows().insert(
                key,
                old(self).counter(key, now as nat).norm(now as nat),
            ),
            r is None <==> old(self).counter(key, now as nat).spec_tokens(now as nat) > 0,
            r matches Some(d) ==> d == old(self).counter(key, now as nat).spec_next_reset(
                now as nat,
            ),
    {
        let mut w = self.lookup(key, now);
        let r = w.retry_after(now);
        self.store(key, w);
        r
    }

    /// Whether an admission attempt on `key` at `now` would succeed.
    pub fn can_trigger(&mut self, key: u64, now: u64) -> (r: bool)
        requires
            old(self).wf(),
            old(self).valid_at(now as nat),
        ensures
            final(self).wf(),
            final(self).valid_at(now as nat),
            final(self).spec_capacity() == old(self).spec_capacity(),
            final(self).spec_period() == old(self).spec_period(),
            final(self).windows() == old(self).windows().insert(
                key,
                old(self).counter(key, now as nat).norm(now as nat),
            ),
            r == old(self).counter(key, now as nat).spec_can_trigger(now as nat),
    {
        let mut w = self.lookup(key, now);
        let r = w.can_trigger(now);
        self.store(key, w);
        r
    }

    /// Admits one event for `key` if quota remains in its current window:
    /// `None` on admission, or the time to wait on denial.
    pub fn trigger(&mut self, key: u64, now: u64) -> (r: Option<u64>)
        requires
            old(self).wf(),
            old(self).valid_at(now as nat),
        ensures
            final(self).wf(),
            final(self).valid_at(now as nat),
            final(self).spec_capacity() == old(self).spec_capacity(),
            final(self).spec_period() == old(self).spec_period(),
            final(self).windows() == old(self).windows().insert(
                key,
                old(self).counter(key, now as nat).spec_trigger(now as nat).0,
            ),
            r is None <==> old(self).counter(key, now as nat).spec_can_trigger(now as nat),
            r matches Some(d) ==> d == old(self).counter(key, now as nat).spec_next_reset(
                now as nat,
            ),
    {
        let mut w = self.lookup(key, now);
        let r = w.trigger(now);
        self.store(key, w);
        r
    }

    /// Discards `key`'s pending usage: its counter starts a fresh, empty
    /// window at `now`.
    pub fn reset(&mut self, key: u64, now: u64)
        requires
            old(self).wf(),
            old(self).valid_at(now as nat),
        ensures
            final(self).wf(),
            final(self).valid_at(now as nat),
            final(self).spec_capacity() == old(self).spec_capacity(),
            final(self).spec_period() == old(self).spec_period(),
            final(self).windows() == old(self).windows().insert(
                key,
                WindowModel::fresh(
                    old(self).spec_capacity() as nat,
                    old(self).spec_period() as nat,
                    now as nat,
                ),
            ),
    {
        let w = JumpingWindow::fresh(self.capacity, self.period, now);
        self.store(key, w);
    }

    /// How many keys currently hold a counter.
    pub fn len(&self) -> (n: usize)
        ensures
            n == self.windows().dom().len(),
    {
        self.table.len()
    }

    /// One eviction pass: removes every counter whose window has gone
    /// untouched for longer than one period; all other counters are kept
    /// unchanged.
    pub fn sweep(&mut self, now: u64)
        requires
            old(self).wf(),
            old(self).valid_at(now as nat),
        ensures
            final(self).wf(),
            final(self).valid_at(now as nat),
            final(self).spec_capacity() == old(self).spec_capacity(),
            final(self).spec_period() == old(self).spec_period(),
            forall|k: u64| #[trigger] final(self).windows().contains_key(k) <==> (old(self).windows().contains_key(k)
                && now - old(self).windows()[k].window_start <= old(self).spec_period()),
            forall|k: u64| #[trigger] final(self).windows().contains_key(k)
                ==> final(self).windows()[k] == old(self).windows()[k],
    {
        proof {
            assert forall|k: u64| #[trigger] self.table@.contains_key(k) implies self.table@[k].window_start
                <= now by {
                assert(self.windows().contains_key(k));
            }
        }
        let retention = self.period;
        self.table.sweep(retention, now);
        proof {
            assert forall|k: u64| #[trigger] self.windows().contains_key(k) implies self.windows()[k].wf()
                && self.windows()[k].capacity == self.spec_capacity() && self.windows()[k].period
                == self.spec_period() && self.windows()[k].window_start <= now by {
                assert(old(self).windows().contains_key(k));
            }
        }
    }
}

} // verus!
