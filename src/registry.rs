//! The local callback dispatch table: ids under which inbound messages are
//! routed to their channel.
use vstd::prelude::*;

verus! {

/// The ids in use, and the next id to hand out. Ids are never reused.
pub struct CallbackRegistry {
    next: usize,
    live: Vec<usize>,
}

pub struct RegistryModel {
    pub next: nat,
    pub live: Set<usize>,
}

impl View for CallbackRegistry {
    type V = RegistryModel;

    closed spec fn view(&self) -> RegistryModel {
        RegistryModel { next: self.next as nat, live: Set::new(|id: usize| self.live@.contains(id)) }
    }
}

impl CallbackRegistry {
    /// Every id in use was handed out before, and each is listed once.
    pub closed spec fn wf(&self) -> bool {
        &&& self.live@.no_duplicates()
        &&& forall|i: int| 0 <= i < self.live@.len() ==> #[trigger] self.live@[i] < self.next
    }

    /// An empty table.
    pub fn new() -> (r: CallbackRegistry)
        ensures
            r.wf(),
            r@.next == 0,
            r@.live.is_empty(),
    {
        let r = CallbackRegistry { next: 0, live: Vec::new() };
        proof {
            assert(r@.live =~= Set::empty());
        }
        r
    }

    /// Hands out a fresh id and records it as in use; `None` once every id
    /// has been handed out.
    pub fn register(&mut self) -> (r: Option<usize>)
        requires
            old(self).wf(),
        ensures
            final(self).wf(),
            old(self)@.next < usize::MAX ==> r == Some(old(self)@.next as usize) && final(self)@
                == (RegistryModel {
                next: old(self)@.next + 1,
                live: old(self)@.live.insert(old(self)@.next as usize),
            }),
            old(self)@.next >= usize::MAX ==> r is None && final(self)@ == old(self)@,
            r matches Some(id) ==> !old(self)@.live.contains(id),
            final(self)@.next <= usize::MAX,
    {
        if self.next == usize::MAX {
            return None;
        }
        let id = self.next;
        let ghost before = self.live@;
        proof {
            if before.contains(id) {
                let k = choose|k: int| 0 <= k < before.len() && before[k] == id;
                assert(before[k] < self.next);
            }
        }
        self.live.push(id);
        self.next = self.next + 1;
        proof {
            let after = self.live@;
            assert(after =~= before.push(id));
            assert forall|x: usize| #[trigger] after.contains(x) == (before.contains(x) || x == id) by {
                if after.contains(x) {
                    let k = choose|k: int| 0 <= k < after.len() && after[k] == x;
                    if k < before.len() {
                        assert(before[k] == x);
                    }
                }
                if before.contains(x) {
                    let k = choose|k: int| 0 <= k < before.len() && before[k] == x;
                    assert(after[k] == x);
                }
                if x == id {
                    assert(after[before.len() as int] == x);
                }
            }
            assert(self@.live =~= old(self)@.live.insert(id));
            assert forall|i: int, j: int| 0 <= i < after.len() && 0 <= j < after.len() && i != j
                implies after[i] != after[j] by {
                if i < before.len() && j < before.len() {
                } else if i < before.len() {
                    assert(before[i] < id);
                } else if j < before.len() {
                    assert(before[j] < id);
                }
            }
        }
        Some(id)
    }

    /// Whether `id` is in use.
    pub fn is_registered(&self, id: usize) -> (r: bool)
        ensures
            r == self@.live.contains(id),
    {
        let mut i: usize = 0;
        while i < self.live.len()
            invariant
                0 <= i <= self.live@.len(),
                forall|k: int| 0 <= k < i ==> self.live@[k] != id,
            decreases self.live.len() - i,
        {
            if self.live[i] == id {
                proof {
                    assert(self.live@.contains(id));
                }
                return true;
            }
            i = i + 1;
        }
        false
    }

    /// Marks `id` as no longer in use; says whether it was in use, so a
    /// second release of one id is told apart from the first.
    pub fn unregister(&mut self, id: usize) -> (r: bool)
        requires
            old(self).wf(),
        ensures
            final(self).wf(),
            r == old(self)@.live.contains(id),
            final(self)@ == (RegistryModel { next: old(self)@.next, live: old(self)@.live.remove(id) }),
    {
        let mut i: usize = 0;
        while i < self.live.len()
            invariant
                0 <= i <= self.live@.len(),
                forall|k: int| 0 <= k < i ==> self.live@[k] != id,
                self.live@ == old(self).live@,
                self.next == old(self).next,
                old(self).wf(),
            decreases self.live.len() - i,
        {
            if self.live[i] == id {
                let ghost before = self.live@;
                self.live.remove(i);
                proof {
                    let after = self.live@;
                    assert(after =~= before.remove(i as int));
                    assert(before.contains(id));
                    assert forall|x: usize| #[trigger] after.contains(x) == (before.contains(x) && x
                        != id) by {
                        if after.contains(x) {
                            let k = choose|k: int| 0 <= k < after.len() && after[k] == x;
                            if k < i {
                                assert(before[k] == x);
                            } else {
                                assert(before[k + 1] == x);
                            }
                        }
                        if before.contains(x) && x != id {
                            let k = choose|k: int| 0 <= k < before.len() && before[k] == x;
                            if k < i {
                                assert(after[k] == x);
                            } else {
                                assert(k != i);
                                assert(after[k - 1] == x);
                            }
                        }
                    }
                    assert(self@.live =~= old(self)@.live.remove(id));
                    assert forall|a: int, b: int| 0 <= a < after.len() && 0 <= b < after.len() && a
                        != b implies after[a] != after[b] by {
                        let a2 = if a < i { a } else { a + 1 };
                        let b2 = if b < i { b } else { b + 1 };
                        assert(after[a] == before[a2]);
                        assert(after[b] == before[b2]);
                    }
                    assert forall|k: int| 0 <= k < after.len() implies #[trigger] after[k]
                        < self.next by {
                        let k2 = if k < i { k } else { k + 1 };
                        assert(after[k] == before[k2]);
                    }
                }
                return true;
            }
            i = i + 1;
        }
        proof {
            assert(!self.live@.contains(id));
            assert(self@.live =~= old(self)@.live.remove(id));
        }
        false
    }
}

} // verus!
