//! Tracking released state: a registry of live handles.
//!
//! Release-exactly-once is the boundary's central discipline: a handle
//! released twice, or used after release, is undefined behavior on the
//! foreign side. [`crate::Ctx`] and [`crate::Value`] make the discipline
//! structural by consuming themselves on release; this registry is the
//! checked alternative — it records every handle when it is acquired and
//! strikes it when it is released, and its contracts make a double release,
//! or a release of a handle never acquired, a verification error.

use vstd::prelude::*;

verus! {

/// The set of handles currently live: acquired from the foreign boundary
/// and not yet released.
#[derive(Debug)]
pub struct Registry {
    live: Vec<usize>,
}

impl View for Registry {
    type V = Set<usize>;

    closed spec fn view(&self) -> Set<usize> {
        self.live@.to_set()
    }
}

impl Registry {
    /// The backing list never holds a handle twice, so striking a handle
    /// strikes its only record.
    pub closed spec fn wf(self) -> bool {
        self.live@.no_duplicates()
    }

    /// An empty registry: no handle is live.
    pub fn new() -> (r: Registry)
        ensures
            r@ =~= Set::<usize>::empty(),
            r.wf(),
    {
        Registry { live: Vec::new() }
    }

    /// Index of the handle's record in the backing list, if it is live.
    fn index_of(&self, h: usize) -> (r: Option<usize>)
        ensures
            r matches Some(i) ==> i < self.live@.len() && self.live@[i as int] == h,
            r is None ==> !self@.contains(h),
    {
        let n = self.live.len();
        let mut i: usize = 0;
        while i < n
            invariant
                n == self.live@.len(),
                i <= n,
                forall|j: int| 0 <= j < i ==> self.live@[j] != h,
            decreases n - i,
        {
            if self.live[i] == h {
                return Some(i);
            }
            i += 1;
        }
        None
    }

    /// True when the handle has been acquired and not yet released.
    pub fn is_live(&self, h: usize) -> (r: bool)
        ensures
            r == self@.contains(h),
    {
        match self.index_of(h) {
            Some(_) => true,
            None => false,
        }
    }

    /// How many handles are live.
    pub fn outstanding(&self) -> (n: usize)
        requires
            self.wf(),
        ensures
            n == self@.len(),
    {
        proof {
            self.live@.unique_seq_to_set();
        }
        self.live.len()
    }

    /// Records a newly acquired handle. A handle can only be acquired while
    /// it is not live: the foreign side never hands out a handle twice
    /// without a release in between.
    pub fn acquire(&mut self, h: usize)
        requires
            old(self).wf(),
            !old(self)@.contains(h),
        ensures
            final(self).wf(),
            final(self)@ =~= old(self)@.insert(h),
    {
        proof {
            let s = self.live@;
            assert forall|x: usize| s.push(h).contains(x) <==> (s.contains(x) || x == h) by {
                if s.push(h).contains(x) {
                    let k = choose|k: int| 0 <= k < s.push(h).len() && s.push(h)[k] == x;
                    if k < s.len() {
                        assert(s[k] == x);
                    }
                }
                if s.contains(x) {
                    let k = choose|k: int| 0 <= k < s.len() && s[k] == x;
                    assert(s.push(h)[k] == x);
                }
                if x == h {
                    assert(s.push(h)[s.len() as int] == x);
                }
            }
        }
        self.live.push(h);
    }

    /// Strikes a released handle. The precondition — the handle must be
    /// live — is what makes a double release, and a release of a handle
    /// never acquired, unreachable in verified code.
    pub fn release(&mut self, h: usize)
        requires
            old(self).wf(),
            old(self)@.contains(h),
        ensures
            final(self).wf(),
            final(self)@ =~= old(self)@.remove(h),
    {
        let ghost s0 = self.live@;
        match self.index_of(h) {
            Some(i) => {
                proof {
                    lemma_remove_keeps_no_duplicates(s0, i as int);
                    lemma_remove_strikes_value(s0, i as int);
                }
                self.live.remove(i);
            },
            None => {
                proof {
                    // The handle is live by the precondition, so the search
                    // cannot have missed it.
                    assert(false);
                }
            },
        }
    }
}

/// Removing one slot from a duplicate-free list leaves it duplicate-free.
proof fn lemma_remove_keeps_no_duplicates(s: Seq<usize>, i: int)
    requires
        0 <= i < s.len(),
        s.no_duplicates(),
    ensures
        s.remove(i).no_duplicates(),
{
    s.remove_ensures(i);
    let t = s.remove(i);
    assert forall|p: int, q: int| 0 <= p < q < t.len() implies t[p] != t[q] by {
        let sp: int = if p < i {
            p
        } else {
            p + 1
        };
        let sq: int = if q < i {
            q
        } else {
            q + 1
        };
        assert(t[p] == s[sp]);
        assert(t[q] == s[sq]);
    }
}

/// Removing the one slot that holds a value from a duplicate-free list
/// removes exactly that value from the list's set of elements.
proof fn lemma_remove_strikes_value(s: Seq<usize>, i: int)
    requires
        0 <= i < s.len(),
        s.no_duplicates(),
    ensures
        s.remove(i).to_set() =~= s.to_set().remove(s[i]),
{
    s.remove_ensures(i);
    let t = s.remove(i);
    let h = s[i];
    assert forall|x: usize| t.contains(x) <==> (s.contains(x) && x != h) by {
        if t.contains(x) {
            let k = choose|k: int| 0 <= k < t.len() && t[k] == x;
            let sk: int = if k < i {
                k
            } else {
                k + 1
            };
            assert(s[sk] == x);
            assert(sk != i);
            assert(x != h);
        }
        if s.contains(x) && x != h {
            let k = choose|k: int| 0 <= k < s.len() && s[k] == x;
            assert(k != i);
            if k < i {
                assert(t[k] == x);
            } else {
                assert(t[k - 1] == x);
            }
        }
    }
}

/// Release safety over the registry's model: acquiring a handle that is not
/// live and then releasing it returns the registry to its prior state and
/// leaves no record of the handle behind — so no allocation is outstanding,
/// and a second release of the same handle fails
/// [`Registry::release`]'s precondition.
pub proof fn lemma_release_exactly_once(live: Set<usize>, h: usize)
    requires
        !live.contains(h),
    ensures
        live.insert(h).remove(h) =~= live,
        !live.insert(h).remove(h).contains(h),
{
}

} // verus!
