//! The process-handle registry's bookkeeping: which task ids currently have
//! a live external process. The OS handles themselves live outside the
//! library, keyed by these ids; this component decides when an entry exists
//! and when it is removed, so that out-of-band cancellation is possible from
//! the moment a process is spawned until its entry is retired.

use vstd::prelude::*;

verus! {

pub struct HandleRegistry {
    live: Vec<u64>,
}

impl HandleRegistry {
    /// Whether the id has a live process entry.
    pub closed spec fn is_live(self, id: u64) -> bool {
        self.live@.contains(id)
    }

    /// No id has more than one entry.
    pub closed spec fn wf(self) -> bool {
        forall|k: int, l: int|
            0 <= k < l < self.live@.len() ==> self.live@[k] != self.live@[l]
    }

    pub fn new() -> (r: HandleRegistry)
        ensures
            r.wf(),
            forall|id: u64| !r.is_live(id),
    {
        HandleRegistry { live: Vec::new() }
    }

    /// Run-time check of `is_live`.
    pub fn contains(&self, id: u64) -> (r: bool)
        ensures
            r == self.is_live(id),
    {
        let n = self.live.len();
        let mut i: usize = 0;
        while i < n
            invariant
                n == self.live@.len(),
                i <= n,
                forall|j: int| 0 <= j < i ==> self.live@[j] != id,
            decreases n - i,
        {
            if self.live[i] == id {
                return true;
            }
            i = i + 1;
        }
        false
    }

    /// Record that a process for this id is now live. Registering an id
    /// twice is a programming error, ruled out here rather than detected.
    pub fn register(&mut self, id: u64)
        requires
            old(self).wf(),
            !old(self).is_live(id),
        ensures
            final(self).wf(),
            final(self).is_live(id),
            forall|x: u64| x != id ==> final(self).is_live(x) == old(self).is_live(x),
    {
        self.live.push(id);
        proof {
            assert(self.live@.last() == id);
            assert forall|x: u64| x != id implies self.is_live(x) == old(self).is_live(x) by {
                if old(self).is_live(x) {
                    let j = choose|j: int|
                        0 <= j < old(self).live@.len() && old(self).live@[j] == x;
                    assert(self.live@[j] == x);
                }
                if self.is_live(x) {
                    let j = choose|j: int| 0 <= j < self.live@.len() && self.live@[j] == x;
                    assert(j < old(self).live@.len());
                    assert(old(self).live@[j] == x);
                }
            }
        }
    }

    /// Retire the entry for this id, whether the process exited on its own
    /// or was killed. Safe to call when no entry exists — the registry is
    /// unchanged — so the supervisor's own cleanup and an external
    /// cancellation can race without double-retiring. Returns whether an
    /// entry was removed.
    pub fn remove(&mut self, id: u64) -> (was_live: bool)
        requires
            old(self).wf(),
        ensures
            final(self).wf(),
            !final(self).is_live(id),
            was_live == old(self).is_live(id),
            forall|x: u64| x != id ==> final(self).is_live(x) == old(self).is_live(x),
    {
        let n = self.live.len();
        let mut i: usize = 0;
        while i < n
            invariant
                *self == *old(self),
                old(self).wf(),
                n == self.live@.len(),
                i <= n,
                forall|j: int| 0 <= j < i ==> self.live@[j] != id,
            decreases n - i,
        {
            if self.live[i] == id {
                let ghost s0 = self.live@;
                self.live.remove(i);
                proof {
                    s0.remove_ensures(i as int);
                    let s1 = self.live@;
                    assert forall|x: u64| x != id && old(self).is_live(x) implies self.is_live(
                        x,
                    ) by {
                        let j = choose|j: int| 0 <= j < s0.len() && s0[j] == x;
                        if j < i {
                            assert(s1[j] == x);
                        } else {
                            assert(s1[j - 1] == x);
                        }
                    }
                    assert forall|x: u64| x != id && self.is_live(x) implies old(self).is_live(
                        x,
                    ) by {
                        let j = choose|j: int| 0 <= j < s1.len() && s1[j] == x;
                        if j < i {
                            assert(s0[j] == x);
                        } else {
                            assert(s0[j + 1] == x);
                        }
                    }
                    assert forall|k: int| 0 <= k < s1.len() implies s1[k] != id by {
                        if k < i {
                            assert(s1[k] == s0[k]);
                        } else {
                            assert(s1[k] == s0[k + 1]);
                        }
                    }
                    assert forall|k: int, l: int| 0 <= k < l < s1.len() implies s1[k] != s1[l] by {
                        if k < i {
                            assert(s1[k] == s0[k]);
                        } else {
                            assert(s1[k] == s0[k + 1]);
                        }
                        if l < i {
                            assert(s1[l] == s0[l]);
                        } else {
                            assert(s1[l] == s0[l + 1]);
                        }
                    }
                }
                return true;
            }
            i = i + 1;
        }
        false
    }
}

} // verus!
