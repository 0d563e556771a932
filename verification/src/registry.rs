//! The connection registry: the set of currently-connected clients, keyed by
//! connection identity, mutated only by the hub.

use vstd::prelude::*;

verus! {

/// The live connections, each an opaque identity the transport layer can
/// deliver broadcasts to. Unordered and duplicate-free.
pub struct Registry {
    pub conns: Vec<u64>,
}

impl Registry {
    /// The registry invariant: no identity is registered twice.
    pub open spec fn wf(self) -> bool {
        forall|i: int, j: int|
            0 <= i < j < self.conns@.len() ==> self.conns@[i] != self.conns@[j]
    }

    /// The set of registered identities.
    pub open spec fn as_set(self) -> Set<u64> {
        self.conns@.to_set()
    }

    /// An empty registry.
    pub fn new() -> (r: Registry)
        ensures
            r.wf(),
            r.as_set() == Set::<u64>::empty(),
            r.conns@ == Seq::<u64>::empty(),
    {
        let r = Registry { conns: Vec::new() };
        proof {
            assert(r.as_set() =~= Set::<u64>::empty());
        }
        r
    }

    /// The position of `id` among the connections, if it is registered.
    fn find(&self, id: u64) -> (r: Option<usize>)
        ensures
            (match r {
                Some(i) => i < self.conns@.len() && self.conns@[i as int] == id,
                None => !self.as_set().contains(id),
            }),
    {
        let mut i: usize = 0;
        while i < self.conns.len()
            invariant
                i <= self.conns@.len(),
                forall|k: int| 0 <= k < i ==> self.conns@[k] != id,
            decreases self.conns@.len() - i,
        {
            if self.conns[i] == id {
                return Some(i);
            }
            i = i + 1;
        }
        None
    }

    /// Whether `id` is registered.
    pub fn contains(&self, id: u64) -> (r: bool)
        ensures
            r == self.as_set().contains(id),
    {
        match self.find(id) {
            Some(_) => true,
            None => false,
        }
    }

    /// Register an identity; registering one already present changes nothing.
    pub fn insert(&mut self, id: u64)
        requires
            old(self).wf(),
        ensures
            final(self).wf(),
            final(self).as_set() == old(self).as_set().insert(id),
            old(self).as_set().contains(id) ==> final(self).conns@ == old(self).conns@,
            !old(self).as_set().contains(id) ==> final(self).conns@ == old(self).conns@.push(id),
    {
        if !self.contains(id) {
            self.conns.push(id);
            proof {
                let s_old = old(self).conns@;
                let s_new = self.conns@;
                assert forall|x: u64| s_old.to_set().insert(id).contains(x) implies s_new.to_set()
                    .contains(x) by {
                    if x == id {
                        assert(s_new[s_old.len() as int] == x);
                    } else {
                        let k = choose|k: int| 0 <= k < s_old.len() && s_old[k] == x;
                        assert(s_new[k] == x);
                    }
                }
                assert forall|x: u64| s_new.to_set().contains(x) implies s_old.to_set().insert(
                    id,
                ).contains(x) by {
                    let k = choose|k: int| 0 <= k < s_new.len() && s_new[k] == x;
                    if k < s_old.len() {
                        assert(s_old[k] == x);
                    }
                }
                assert(self.as_set() =~= old(self).as_set().insert(id));
            }
        } else {
            proof {
                assert(self.as_set() =~= old(self).as_set().insert(id));
            }
        }
    }

    /// Unregister an identity; unregistering one not present is a no-op, so
    /// disconnecting twice has the effect of disconnecting once.
    pub fn remove(&mut self, id: u64)
        requires
            old(self).wf(),
        ensures
            final(self).wf(),
            final(self).as_set() == old(self).as_set().remove(id),
            !final(self).as_set().contains(id),
    {
        match self.find(id) {
            None => {
                proof {
                    assert(self.as_set() =~= old(self).as_set().remove(id));
                }
            },
            Some(i) => {
                self.conns.remove(i);
                proof {
                    let s_old = old(self).conns@;
                    let s_new = self.conns@;
                    assert forall|x: u64| s_new.to_set().contains(x) implies s_old.to_set().remove(
                        id,
                    ).contains(x) by {
                        let k = choose|k: int| 0 <= k < s_new.len() && s_new[k] == x;
                        if k < i {
                            assert(s_old[k] == x);
                        } else {
                            assert(s_old[k + 1] == x);
                        }
                    }
                    assert forall|x: u64| s_old.to_set().remove(id).contains(x) implies s_new
                        .to_set().contains(x) by {
                        let k = choose|k: int| 0 <= k < s_old.len() && s_old[k] == x;
                        if k < i {
                            assert(s_new[k] == x);
                        } else if k > i {
                            assert(s_new[k - 1] == x);
                        }
                    }
                    assert(self.as_set() =~= old(self).as_set().remove(id));
                }
            },
        }
    }

    /// The identities a broadcast is delivered to: every currently-registered
    /// connection, each exactly once.
    pub fn members(&self) -> (r: Vec<u64>)
        ensures
            r@ == self.conns@,
            r@.to_set() == self.as_set(),
    {
        let mut out: Vec<u64> = Vec::new();
        let mut i: usize = 0;
        while i < self.conns.len()
            invariant
                i <= self.conns@.len(),
                out@ == self.conns@.subrange(0, i as int),
            decreases self.conns@.len() - i,
        {
            out.push(self.conns[i]);
            i = i + 1;
        }
        proof {
            assert(out@ =~= self.conns@);
        }
        out
    }
}

} // verus!
