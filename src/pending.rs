use vstd::prelude::*;

verus! {

/// The delivery identifiers of publishes that the broker has not yet acknowledged.
///
/// Each identifier is held at most once; the number held is the depth of
/// unacknowledged work.
pub struct PendingPublishes {
    ids: Vec<u16>,
}

impl View for PendingPublishes {
    type V = Set<u16>;

    closed spec fn view(&self) -> Set<u16> {
        self.ids@.to_set()
    }
}

impl PendingPublishes {
    /// No identifier is held twice.
    pub closed spec fn wf(&self) -> bool {
        self.ids@.no_duplicates()
    }

    /// An empty set of pending publishes.
    pub fn new() -> (r: Self)
        ensures
            r.wf(),
            r@ == Set::<u16>::empty(),
    {
        let r = PendingPublishes { ids: Vec::new() };
        proof {
            assert(r.ids@.to_set() =~= Set::<u16>::empty());
        }
        r
    }

    /// Whether `id` is awaiting its acknowledgement.
    pub fn contains(&self, id: u16) -> (r: bool)
        ensures
            r == self@.contains(id),
    {
        let mut i: usize = 0;
        while i < self.ids.len()
            invariant
                i <= self.ids@.len(),
                forall|j: int| 0 <= j < i ==> self.ids@[j] != id,
            decreases self.ids@.len() - i,
        {
            if self.ids[i] == id {
                proof {
                    assert(self.ids@.to_set().contains(self.ids@[i as int]));
                }
                return true;
            }
            i = i + 1;
        }
        proof {
            if self.ids@.to_set().contains(id) {
                let k = choose|k: int| 0 <= k < self.ids@.len() && self.ids@[k] == id;
                assert(self.ids@[k] != id);
            }
        }
        false
    }

    /// The number of publishes awaiting acknowledgement.
    pub fn len(&self) -> (r: usize)
        requires
            self.wf(),
        ensures
            r as nat == self@.len(),
    {
        proof {
            self.ids@.unique_seq_to_set();
        }
        self.ids.len()
    }

    /// Records that a publish with identifier `id` was emitted.
    pub fn record_publish(&mut self, id: u16)
        requires
            old(self).wf(),
        ensures
            final(self).wf(),
            final(self)@ == old(self)@.insert(id),
    {
        if !self.contains(id) {
            let ghost before = self.ids@;
            self.ids.push(id);
            proof {
                before.lemma_push_to_set_commute(id);
                assert forall|a: int, b: int|
                    0 <= a < self.ids@.len() && 0 <= b < self.ids@.len() && a != b implies
                    self.ids@[a] != self.ids@[b] by {
                    if a == before.len() as int {
                        assert(before.to_set().contains(before[b]));
                    } else if b == before.len() as int {
                        assert(before.to_set().contains(before[a]));
                    }
                }
            }
        } else {
            proof {
                assert(self@.insert(id) =~= self@);
            }
        }
    }

    /// Records an acknowledgement for `id`. Returns whether `id` was pending;
    /// an acknowledgement for an identifier that is not pending changes nothing.
    pub fn acknowledge(&mut self, id: u16) -> (r: bool)
        requires
            old(self).wf(),
        ensures
            final(self).wf(),
            r == old(self)@.contains(id),
            final(self)@ == old(self)@.remove(id),
    {
        let mut i: usize = 0;
        while i < self.ids.len()
            invariant
                i <= self.ids@.len(),
                self.ids@ == old(self).ids@,
                self.wf(),
                forall|j: int| 0 <= j < i ==> self.ids@[j] != id,
            decreases self.ids@.len() - i,
        {
            if self.ids[i] == id {
                let ghost before = self.ids@;
                self.ids.remove(i);
                proof {
                    assert(before.to_set().contains(before[i as int]));
                    assert forall|x: u16| self.ids@.to_set().contains(x) <==>
                        before.to_set().remove(id).contains(x) by {
                        if self.ids@.to_set().contains(x) {
                            let k = choose|k: int| 0 <= k < self.ids@.len() && self.ids@[k] == x;
                            if k < i {
                                assert(before[k] == x);
                                assert(before.to_set().contains(before[k]));
                            } else {
                                assert(before[k + 1] == x);
                                assert(before.to_set().contains(before[k + 1]));
                            }
                            assert(x != id);
                        }
                        if before.to_set().remove(id).contains(x) {
                            let k = choose|k: int| 0 <= k < before.len() && before[k] == x;
                            if k < i {
                                assert(self.ids@[k] == x);
                            } else {
                                assert(k != i);
                                assert(self.ids@[k - 1] == x);
                            }
                            assert(self.ids@.to_set().contains(self.ids@[if k < i { k } else { k - 1 }]));
                        }
                    }
                    assert(self.ids@.to_set() =~= before.to_set().remove(id));
                    assert forall|a: int, b: int|
                        0 <= a < self.ids@.len() && 0 <= b < self.ids@.len() && a != b implies
                        self.ids@[a] != self.ids@[b] by {
                        let a2 = if a < i { a } else { a + 1 };
                        let b2 = if b < i { b } else { b + 1 };
                        assert(before[a2] == self.ids@[a]);
                        assert(before[b2] == self.ids@[b]);
                    }
                }
                return true;
            }
            i = i + 1;
        }
        proof {
            if self.ids@.to_set().contains(id) {
                let k = choose|k: int| 0 <= k < self.ids@.len() && self.ids@[k] == id;
                assert(self.ids@[k] != id);
            }
            assert(self@.remove(id) =~= self@);
        }
        false
    }
}

} // verus!
