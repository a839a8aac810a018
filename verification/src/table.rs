//! A table of per-key window counters.
//!
//! Keys are fixed-width hashes supplied by the caller; the table owns one
//! [`JumpingWindow`] per key it has seen.  A sweep removes entries that have
//! gone untouched past a retention bound, so memory stays proportional to
//! the recently active keys.

use crate::jumping_window::{JumpingWindow, WindowModel};
use std::collections::HashMap;
use vstd::prelude::*;

verus! {

broadcast use vstd::std_specs::hash::group_hash_axioms, vstd::seq_lib::group_seq_properties;

/// A mapping from key hash to window counter.
pub struct WindowTable {
    keys: Vec<u64>,
    windows: HashMap<u64, JumpingWindow>,
}

impl View for WindowTable {
    type V = Map<u64, WindowModel>;

    closed spec fn view(&self) -> Map<u64, WindowModel> {
        self.windows@.map_values(|w: JumpingWindow| w@)
    }
}

impl WindowTable {
    /// The key list mirrors the map's domain exactly, and every stored
    /// counter satisfies its own invariant.
    pub closed spec fn wf(self) -> bool {
        &&& self.keys@.no_duplicates()
        &&& forall|k: u64| #[trigger] self.windows@.contains_key(k) <==> self.keys@.contains(k)
        &&& forall|k: u64| #[trigger] self.windows@.contains_key(k) ==> self.windows@[k].wf()
    }

    /// Every stored counter's window starts no later than `now`.
    pub open spec fn valid_at(self, now: nat) -> bool {
        forall|k: u64| #[trigger] self@.contains_key(k) ==> self@[k].window_start <= now
    }

    proof fn lemma_view(self)
        ensures
            self@.dom() == self.windows@.dom(),
            forall|k: u64| #[trigger] self@.contains_key(k) <==> self.windows@.contains_key(k),
            forall|k: u64| #[trigger] self.windows@.contains_key(k) ==> self@[k]
                == self.windows@[k]@,
            self.wf() ==> forall|k: u64| #[trigger] self@.contains_key(k) ==> self@[k].wf(),
    {
    }

    pub fn new() -> (t: WindowTable)
        ensures
            t.wf(),
            t@ == Map::<u64, WindowModel>::empty(),
    {
        let t = WindowTable { keys: Vec::new(), windows: HashMap::new() };
        proof {
            assert(t@ =~= Map::<u64, WindowModel>::empty());
        }
        t
    }

    /// How many keys currently hold a counter.
    pub fn len(&self) -> (n: usize)
        ensures
            n == self@.dom().len(),
    {
        proof {
            self.lemma_view();
        }
        self.windows.len()
    }

    /// The counter stored for `key`, if any.
    pub fn get_window(&self, key: u64) -> (r: Option<JumpingWindow>)
        ensures
            match r {
                Some(w) => self@.contains_key(key) && w@ == self@[key],
                None => !self@.contains_key(key),
            },
    {
        proof {
            self.lemma_view();
        }
        match self.windows.get(&key) {
            Some(w) => Some(*w),
            None => None,
        }
    }

    /// Stores (or replaces) the counter for `key`.
    pub fn put(&mut self, key: u64, w: JumpingWindow)
        requires
            old(self).wf(),
            w.wf(),
        ensures
            final(self).wf(),
            final(self)@ == old(self)@.insert(key, w@),
    {
        proof {
            self.lemma_view();
        }
        if !self.windows.contains_key(&key) {
            self.keys.push(key);
        }
        self.windows.insert(key, w);
        proof {
            assert(self@ =~= old(self)@.insert(key, w@));
            if !old(self).windows@.contains_key(key) {
                assert(!old(self).keys@.contains(key));
                assert(self.keys@ == old(self).keys@.push(key));
                assert forall|p: int, q: int|
                    0 <= p < q < self.keys@.len() implies self.keys@[p] != self.keys@[q] by {
                    if q == old(self).keys@.len() {
                        assert(self.keys@[p] == old(self).keys@[p]);
                        assert(old(self).keys@.contains(old(self).keys@[p]));
                    }
                }
            }
            assert forall|k: u64| #[trigger] self.windows@.contains_key(k) implies self.keys@.contains(
                k,
            ) by {
                if k != key {
                    assert(old(self).windows@.contains_key(k));
                }
            }
        }
    }

    /// Removes every counter whose window has gone untouched for longer than
    /// `retention`; all other counters are kept unchanged.
    pub fn sweep(&mut self, retention: u64, now: u64)
        requires
            old(self).wf(),
            old(self).valid_at(now as nat),
        ensures
            final(self).wf(),
            forall|k: u64| #[trigger] final(self)@.contains_key(k) <==> (old(self)@.contains_key(k)
                && now - old(self)@[k].window_start <= retention),
            forall|k: u64| #[trigger] final(self)@.contains_key(k) ==> final(self)@[k] == old(
                self,
            )@[k],
    {
        proof {
            self.lemma_view();
        }
        let ghost keys0 = self.keys@;
        let ghost m0 = self.windows@;
        let mut kept: Vec<u64> = Vec::new();
        let mut i: usize = 0;
        let n = self.keys.len();
        while i < n
            invariant
                n == keys0.len(),
                0 <= i <= n,
                self.keys@ == keys0,
                keys0.no_duplicates(),
                forall|k: u64| #[trigger] m0.contains_key(k) <==> keys0.contains(k),
                forall|k: u64| #[trigger] m0.contains_key(k) ==> m0[k].wf() && m0[k]@.window_start
                    <= now,
                // processed keys stay exactly when they are not stale
                forall|j: int| 0 <= j < i ==> (#[trigger] self.windows@.contains_key(keys0[j])
                    <==> now - m0[keys0[j]]@.window_start <= retention),
                // unprocessed keys are still present
                forall|j: int| i <= j < n ==> #[trigger] self.windows@.contains_key(keys0[j]),
                // no key appears from nowhere, and values are unchanged
                forall|k: u64| #[trigger] self.windows@.contains_key(k) ==> m0.contains_key(k)
                    && self.windows@[k] == m0[k],
                // kept lists exactly the surviving processed keys
                kept@.no_duplicates(),
                forall|k: u64| #[trigger] kept@.contains(k) <==> (keys0.take(i as int).contains(k)
                    && self.windows@.contains_key(k)),
            decreases n - i,
        {
            let k = self.keys[i];
            assert(keys0.contains(k));
            assert(self.windows@.contains_key(k));
            let w = self.windows.get(&k).unwrap();
            let stale = w.is_stale(retention, now);
            let ghost pre = self.windows@;
            let ghost kept0 = kept@;
            proof {
                // the current key was not seen among the first `i` keys
                assert(!keys0.take(i as int).contains(k));
                assert(!kept0.contains(k));
            }
            if stale {
                self.windows.remove(&k);
            } else {
                kept.push(k);
            }
            proof {
                assert forall|j: int| 0 <= j < i + 1 implies (
                #[trigger] self.windows@.contains_key(keys0[j]) <==> now
                    - m0[keys0[j]]@.window_start <= retention) by {
                    if j < i {
                        assert(keys0[j] != k);
                        assert(pre.contains_key(keys0[j]) <==> self.windows@.contains_key(
                            keys0[j],
                        ));
                    }
                }
                assert forall|j: int| i + 1 <= j < n implies #[trigger] self.windows@.contains_key(
                    keys0[j],
                ) by {
                    assert(keys0[j] != k);
                }
                assert forall|k2: u64| #[trigger] kept@.contains(k2) implies (keys0.take(
                    i + 1,
                ).contains(k2) && self.windows@.contains_key(k2)) by {
                    if k2 == k {
                        assert(keys0[i as int] == k2);
                        assert(keys0.take(i + 1)[i as int] == k2);
                    } else {
                        assert(kept0.contains(k2));
                        assert(keys0.take(i as int).contains(k2));
                        let j = choose|j: int|
                            0 <= j < i && #[trigger] keys0.take(i as int)[j] == k2;
                        assert(keys0.take(i + 1)[j] == k2);
                    }
                }
                assert forall|k2: u64|
                    keys0.take(i + 1).contains(k2) && self.windows@.contains_key(k2) implies
                #[trigger] kept@.contains(k2) by {
                    let j = choose|j: int| 0 <= j < i + 1 && #[trigger] keys0.take(i + 1)[j] == k2;
                    if j < i {
                        assert(keys0.take(i as int)[j] == k2);
                        assert(keys0.take(i as int).contains(k2));
                        assert(pre.contains_key(k2));
                        assert(kept0.contains(k2));
                    } else {
                        assert(k2 == k);
                    }
                }
            }
            i = i + 1;
        }
        self.keys = kept;
        proof {
            assert(keys0.take(n as int) =~= keys0);
            assert forall|k: u64| #[trigger] self@.contains_key(k) implies (old(
                self,
            )@.contains_key(k) && now - old(self)@[k].window_start <= retention) by {
                let j = choose|j: int| 0 <= j < n && #[trigger] keys0[j] == k;
                assert(self.windows@.contains_key(keys0[j]) <==> now - m0[keys0[j]]@.window_start
                    <= retention);
            }
            assert forall|k: u64|
                old(self)@.contains_key(k) && now - old(self)@[k].window_start
                    <= retention implies #[trigger] self@.contains_key(k) by {
                assert(m0.contains_key(k));
                let j = choose|j: int| 0 <= j < n && #[trigger] keys0[j] == k;
                assert(self.windows@.contains_key(keys0[j]) <==> now - m0[keys0[j]]@.window_start
                    <= retention);
            }
        }
    }
}

} // verus!
