//! A single fixed-window rate counter.
//!
//! The window advances in whole jumps of `period`: on access at time `now`,
//! an expired window is first moved forward so that
//! `window_start <= now < window_start + period` and its count cleared.  All
//! operations take `now` explicitly; callers must supply a monotonic clock,
//! so `now` is never earlier than the stored window start.

use crate::ConfigError;
use vstd::arithmetic::div_mod::lemma_fundamental_div_mod;
use vstd::prelude::*;

verus! {

/// The mathematical state of one fixed-window counter.
pub ghost struct WindowModel {
    pub capacity: nat,
    pub period: nat,
    pub window_start: nat,
    pub count: nat,
}

impl WindowModel {
    pub open spec fn wf(self) -> bool {
        &&& self.capacity > 0
        &&& self.period > 0
        &&& self.count <= self.capacity
    }

    /// A counter as it is first created at time `now`.
    pub open spec fn fresh(capacity: nat, period: nat, now: nat) -> WindowModel {
        WindowModel { capacity, period, window_start: now, count: 0 }
    }

    /// Whether the current window has elapsed by time `now`.
    pub open spec fn expired(self, now: nat) -> bool
        recommends
            self.window_start <= now,
    {
        now - self.window_start >= self.period
    }

    /// The state after lazy window advancement at time `now`: an expired
    /// window jumps forward by whole multiples of `period` and starts over
    /// with a count of zero; a live window is unchanged.
    pub open spec fn norm(self, now: nat) -> WindowModel
        recommends
            self.wf(),
            self.window_start <= now,
    {
        if self.expired(now) {
            WindowModel {
                window_start: (self.window_start + self.period * ((now - self.window_start)
                    / self.period as int)) as nat,
                count: 0,
                ..self
            }
        } else {
            self
        }
    }

    /// Remaining quota in the current window.
    pub open spec fn spec_tokens(self, now: nat) -> nat
        recommends
            self.wf(),
            self.window_start <= now,
    {
        (self.norm(now).capacity - self.norm(now).count) as nat
    }

    /// Time until the current window next rolls over.
    pub open spec fn spec_next_reset(self, now: nat) -> nat
        recommends
            self.wf(),
            self.window_start <= now,
    {
        (self.period - (now - self.norm(now).window_start)) as nat
    }

    pub open spec fn spec_can_trigger(self, now: nat) -> bool
        recommends
            self.wf(),
            self.window_start <= now,
    {
        self.spec_tokens(now) > 0
    }

    /// The state after an admission attempt at `now`, and its outcome:
    /// `None` when the event was admitted, `Some(wait)` when it was denied.
    pub open spec fn spec_trigger(self, now: nat) -> (WindowModel, Option<nat>)
        recommends
            self.wf(),
            self.window_start <= now,
    {
        let w = self.norm(now);
        if w.count < w.capacity {
            (WindowModel { count: w.count + 1, ..w }, None)
        } else {
            (w, Some(self.spec_next_reset(now)))
        }
    }

    /// What normalization guarantees: the advanced window still satisfies the
    /// invariant, starts no later than `now`, and `now` lies strictly inside
    /// it.
    pub proof fn lemma_norm(self, now: nat)
        requires
            self.wf(),
            self.window_start <= now,
        ensures
            self.norm(now).wf(),
            self.norm(now).capacity == self.capacity,
            self.norm(now).period == self.period,
            self.norm(now).count <= self.count,
            self.window_start <= self.norm(now).window_start <= now,
            now - self.norm(now).window_start < self.period,
            self.expired(now) ==> self.norm(now).count == 0 && self.norm(now).window_start
                == now - ((now - self.window_start) % self.period as int),
            !self.expired(now) ==> self.norm(now) == self,
    {
        if self.expired(now) {
            let e = now - self.window_start;
            let p = self.period as int;
            lemma_fundamental_div_mod(e, p);
            assert(0 <= e % p < p) by {
                vstd::arithmetic::div_mod::lemma_mod_division_less_than_divisor(e, p);
            }
        }
    }
}

/// How many of the admission attempts at `times` succeed, each attempt
/// acting on the state the previous one left behind.
pub open spec fn count_admitted(w: WindowModel, times: Seq<nat>) -> nat
    decreases times.len(),
{
    if times.len() == 0 {
        0
    } else {
        (if w.spec_trigger(times[0]).1 is None {
            1nat
        } else {
            0nat
        }) + count_admitted(w.spec_trigger(times[0]).0, times.drop_first())
    }
}

/// All of `times` fall inside the window that is current for `w`.
pub open spec fn within_window(w: WindowModel, times: Seq<nat>) -> bool {
    forall|i: int|
        0 <= i < times.len() ==> w.window_start <= #[trigger] times[i] < w.window_start + w.period
}

/// However a sequence of admission attempts inside one window is interleaved,
/// at most `capacity` of them succeed: the window never overshoots its quota.
pub proof fn lemma_no_overshoot(w: WindowModel, times: Seq<nat>)
    requires
        w.wf(),
        within_window(w, times),
    ensures
        count_admitted(w, times) + w.count <= w.capacity,
    decreases times.len(),
{
    if times.len() > 0 {
        let w1 = w.spec_trigger(times[0]).0;
        assert(!w.expired(times[0]));
        assert(within_window(w1, times.drop_first())) by {
            assert forall|i: int| 0 <= i < times.drop_first().len() implies w1.window_start
                <= #[trigger] times.drop_first()[i] < w1.window_start + w1.period by {
                assert(times.drop_first()[i] == times[i + 1]);
            }
        }
        lemma_no_overshoot(w1, times.drop_first());
    }
}

/// Admission attempts inside one window succeed exactly until the quota is
/// spent: of `n` attempts on a counter with `c` tokens left, `min(c, n)`
/// are admitted and the rest denied.  Racing callers whose calls serialize
/// on the counter therefore see exactly `capacity` admissions in a window,
/// however the calls interleave.
pub proof fn lemma_admissions_exact(w: WindowModel, times: Seq<nat>)
    requires
        w.wf(),
        within_window(w, times),
    ensures
        count_admitted(w, times) == if w.capacity - w.count <= times.len() {
            w.capacity - w.count
        } else {
            times.len() as int
        },
    decreases times.len(),
{
    if times.len() > 0 {
        let w1 = w.spec_trigger(times[0]).0;
        assert(!w.expired(times[0]));
        assert(within_window(w1, times.drop_first())) by {
            assert forall|i: int| 0 <= i < times.drop_first().len() implies w1.window_start
                <= #[trigger] times.drop_first()[i] < w1.window_start + w1.period by {
                assert(times.drop_first()[i] == times[i + 1]);
            }
        }
        lemma_admissions_exact(w1, times.drop_first());
    }
}

/// `can_trigger` is consistent with `trigger`: when it answers true, an
/// immediate admission attempt at the same instant succeeds — both on the
/// counter as asked, and on the normalized counter that a `can_trigger`
/// call leaves stored.
pub proof fn lemma_can_trigger_consistent(w: WindowModel, now: nat)
    requires
        w.wf(),
        w.window_start <= now,
        w.spec_can_trigger(now),
    ensures
        w.spec_trigger(now).1 is None,
        w.norm(now).spec_trigger(now).1 is None,
{
    w.lemma_norm(now);
}

/// While the same window stays current, an admission attempt never increases
/// the remaining tokens.
pub proof fn lemma_tokens_non_increasing(w: WindowModel, now1: nat, now2: nat)
    requires
        w.wf(),
        w.window_start <= now1 <= now2,
        now2 - w.norm(now1).window_start < w.period,
    ensures
        w.spec_trigger(now1).0.spec_tokens(now2) <= w.spec_tokens(now1),
{
    w.lemma_norm(now1);
    let w1 = w.spec_trigger(now1).0;
    assert(!w1.expired(now2));
}

/// Once the time returned by `next_reset` has elapsed, the window has rolled
/// over and the full capacity is available again.
pub proof fn lemma_tokens_reset_after_window(w: WindowModel, now: nat)
    requires
        w.wf(),
        w.window_start <= now,
    ensures
        w.spec_tokens(now + w.spec_next_reset(now)) == w.capacity,
{
    w.lemma_norm(now);
    let t = now + w.spec_next_reset(now);
    assert(w.expired(t));
    w.lemma_norm(t);
}

/// A reset counter immediately reports its full capacity and admits.
pub proof fn lemma_reset_restores_capacity(capacity: nat, period: nat, now: nat)
    requires
        capacity > 0,
        period > 0,
    ensures
        WindowModel::fresh(capacity, period, now).spec_tokens(now) == capacity,
        WindowModel::fresh(capacity, period, now).spec_can_trigger(now),
{
    let w = WindowModel::fresh(capacity, period, now);
    assert(!w.expired(now));
}

/// A single-key fixed-window counter: the keyless limiter variant, and the
/// per-key state of the keyed ones.
#[derive(Clone, Copy)]
pub struct JumpingWindow {
    capacity: u64,
    period: u64,
    window_start: u64,
    count: u64,
}

impl View for JumpingWindow {
    type V = WindowModel;

    closed spec fn view(&self) -> WindowModel {
        WindowModel {
            capacity: self.capacity as nat,
            period: self.period as nat,
            window_start: self.window_start as nat,
            count: self.count as nat,
        }
    }
}

impl JumpingWindow {
    pub open spec fn wf(self) -> bool {
        self@.wf()
    }

    /// Builds a counter, rejecting a configuration that could never or always
    /// admit.
    pub fn new(capacity: u64, period: u64, now: u64) -> (r: Result<JumpingWindow, ConfigError>)
        ensures
            capacity > 0 && period > 0 ==> (r matches Ok(w) && w@ == WindowModel::fresh(
                capacity as nat,
                period as nat,
                now as nat,
            ) && w.wf()),
            capacity == 0 ==> r === Err(ConfigError::ZeroCapacity),
            capacity > 0 && period == 0 ==> r === Err(ConfigError::ZeroPeriod),
    {
        if capacity == 0 {
            Err(ConfigError::ZeroCapacity)
        } else if period == 0 {
            Err(ConfigError::ZeroPeriod)
        } else {
            Ok(JumpingWindow { capacity, period, window_start: now, count: 0 })
        }
    }

    /// Builds a counter from parameters already known to be valid.
    pub fn fresh(capacity: u64, period: u64, now: u64) -> (w: JumpingWindow)
        requires
            capacity > 0,
            period > 0,
        ensures
            w@ == WindowModel::fresh(capacity as nat, period as nat, now as nat),
            w.wf(),
    {
        JumpingWindow { capacity, period, window_start: now, count: 0 }
    }

    /// Lazily advances an expired window, clearing its count.
    fn normalize(&mut self, now: u64)
        requires
            old(self).wf(),
            old(self)@.window_start <= now,
        ensures
            final(self)@ == old(self)@.norm(now as nat),
            final(self).wf(),
            final(self)@.window_start <= now,
            now - final(self)@.window_start < final(self)@.period,
    {
        proof {
            old(self)@.lemma_norm(now as nat);
        }
        let elapsed = now - self.window_start;
        if elapsed >= self.period {
            let rem = elapsed % self.period;
            self.window_start = now - rem;
            self.count = 0;
        }
    }

    /// Remaining quota at time `now`; a stale window is reset as part of the
    /// read, but no token is consumed.
    pub fn tokens(&mut self, now: u64) -> (r: u64)
        requires
            old(self).wf(),
            old(self)@.window_start <= now,
        ensures
            final(self)@ == old(self)@.norm(now as nat),
            final(self).wf(),
            final(self)@.window_start <= now,
            r == old(self)@.spec_tokens(now as nat),
    {
        self.normalize(now);
        self.capacity - self.count
    }

    /// Time until the current window next rolls over, in `(0, period]`.
    pub fn next_reset(&mut self, now: u64) -> (r: u64)
        requires
            old(self).wf(),
            old(self)@.window_start <= now,
        ensures
            final(self)@ == old(self)@.norm(now as nat),
            final(self).wf(),
            final(self)@.window_start <= now,
            r == old(self)@.spec_next_reset(now as nat),
            0 < r <= old(self)@.period,
    {
        self.normalize(now);
        self.period - (now - self.window_start)
    }

    /// How long a denied caller must wait: `None` while quota remains.
    pub fn retry_after(&mut self, now: u64) -> (r: Option<u64>)
        requires
            old(self).wf(),
            old(self)@.window_start <= now,
        ensures
            final(self)@ == old(self)@.norm(now as nat),
            final(self).wf(),
            final(self)@.window_start <= now,
            r is None <==> old(self)@.spec_tokens(now as nat) > 0,
            r matches Some(d) ==> d == old(self)@.spec_next_reset(now as nat),
    {
        self.normalize(now);
        if self.count < self.capacity {
            None
        } else {
            Some(self.period - (now - self.window_start))
        }
    }

    /// Whether an admission attempt at `now` would succeed; consumes nothing.
    pub fn can_trigger(&mut self, now: u64) -> (r: bool)
        requires
            old(self).wf(),
            old(self)@.window_start <= now,
        ensures
            final(self)@ == old(self)@.norm(now as nat),
            final(self).wf(),
            final(self)@.window_start <= now,
            r == old(self)@.spec_can_trigger(now as nat),
    {
        self.normalize(now);
        self.count < self.capacity
    }

    /// Admits one event if quota remains in the current window: returns
    /// `None` and consumes a token on admission, or the time to wait on
    /// denial, in one step.
    pub fn trigger(&mut self, now: u64) -> (r: Option<u64>)
        requires
            old(self).wf(),
            old(self)@.window_start <= now,
        ensures
            final(self)@ == old(self)@.spec_trigger(now as nat).0,
            final(self).wf(),
            final(self)@.window_start <= now,
            r is None <==> old(self)@.spec_trigger(now as nat).1 is None,
            r is None <==> old(self)@.spec_can_trigger(now as nat),
            r matches Some(d) ==> d == old(self)@.spec_next_reset(now as nat),
    {
        self.normalize(now);
        if self.count < self.capacity {
            self.count = self.count + 1;
            None
        } else {
            Some(self.period - (now - self.window_start))
        }
    }

    /// Whether this counter's window has gone untouched for longer than
    /// `retention`, making it eligible for eviction.
    pub fn is_stale(&self, retention: u64, now: u64) -> (r: bool)
        requires
            self@.window_start <= now,
        ensures
            r == (now - self@.window_start > retention),
    {
        now - self.window_start > retention
    }

    /// Discards all pending usage: the counter starts a fresh, empty window
    /// at `now`.
    pub fn reset(&mut self, now: u64)
        requires
            old(self).wf(),
        ensures
            final(self)@ == WindowModel::fresh(old(self)@.capacity, old(self)@.period, now as nat),
            final(self).wf(),
            final(self)@.window_start <= now,
    {
        self.window_start = now;
        self.count = 0;
    }
}

} // verus!
