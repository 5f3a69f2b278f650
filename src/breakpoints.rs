use vstd::prelude::*;

verus! {

/// Strictly ascending: sorted, and no address twice.
pub open spec fn strictly_ascending(s: Seq<u32>) -> bool {
    forall|i: int, j: int| 0 <= i < j < s.len() ==> s[i] < s[j]
}

/// A set of program-counter addresses watched by the debugger, kept in
/// ascending order so that listing it is stable. A sorted vector is used
/// rather than a hash or tree set so that the order of the listing is
/// itself proved, not only its contents.
#[derive(Debug)]
pub struct BreakpointSet {
    addrs: Vec<u32>,
}

impl View for BreakpointSet {
    type V = Set<u32>;

    closed spec fn view(&self) -> Set<u32> {
        Set::new(|a: u32| self.addrs@.contains(a))
    }
}

impl Clone for BreakpointSet {
    fn clone(&self) -> (r: BreakpointSet)
        ensures
            r.listed() == self.listed(),
            r@ == self@,
            self.wf() ==> r.wf(),
    {
        let r = BreakpointSet { addrs: self.addrs.clone() };
        assert(r.addrs@ =~= self.addrs@);
        assert(r@ =~= self@);
        r
    }
}

impl BreakpointSet {
    /// The addresses in ascending order.
    pub closed spec fn listed(&self) -> Seq<u32> {
        self.addrs@
    }

    pub closed spec fn wf(&self) -> bool {
        strictly_ascending(self.addrs@)
    }

    /// The listing holds exactly the members, each once, in ascending order.
    pub proof fn lemma_listed(&self)
        requires
            self.wf(),
        ensures
            strictly_ascending(self.listed()),
            forall|a: u32| self@.contains(a) <==> self.listed().contains(a),
    {
    }

    pub fn new() -> (r: BreakpointSet)
        ensures
            r.wf(),
            r@ == Set::<u32>::empty(),
    {
        let r = BreakpointSet { addrs: Vec::new() };
        assert(r@ =~= Set::<u32>::empty());
        r
    }

    /// Position at which `address` stands or would be inserted.
    fn position(&self, address: u32) -> (r: usize)
        requires
            self.wf(),
        ensures
            r <= self.addrs@.len(),
            forall|i: int| 0 <= i < r ==> self.addrs@[i] < address,
            forall|i: int| r <= i < self.addrs@.len() ==> self.addrs@[i] >= address,
    {
        let mut i: usize = 0;
        while i < self.addrs.len() && self.addrs[i] < address
            invariant
                i <= self.addrs@.len(),
                forall|k: int| 0 <= k < i ==> self.addrs@[k] < address,
            decreases self.addrs@.len() - i,
        {
            i += 1;
        }
        i
    }

    pub fn contains(&self, address: u32) -> (r: bool)
        requires
            self.wf(),
        ensures
            r == self@.contains(address),
    {
        let i = self.position(address);
        i < self.addrs.len() && self.addrs[i] == address
    }

    /// Watch `address`; adding a member again changes nothing.
    pub fn add(&mut self, address: u32)
        requires
            old(self).wf(),
        ensures
            final(self).wf(),
            final(self)@ == old(self)@.insert(address),
    {
        let i = self.position(address);
        if i < self.addrs.len() && self.addrs[i] == address {
            assert(old(self)@.insert(address) =~= old(self)@);
            return;
        }
        self.addrs.insert(i, address);
        assert(self.addrs@ =~= old(self).addrs@.insert(i as int, address));
        assert forall|a: u32| self@.contains(a) <==> old(self)@.insert(address).contains(a) by {
            if a == address {
                assert(self.addrs@[i as int] == address);
            }
            if old(self).addrs@.contains(a) {
                let k = choose|k: int| 0 <= k < old(self).addrs@.len() && old(self).addrs@[k] == a;
                if k < i {
                    assert(self.addrs@[k] == a);
                } else {
                    assert(self.addrs@[k + 1] == a);
                }
            }
            if self.addrs@.contains(a) {
                let k = choose|k: int| 0 <= k < self.addrs@.len() && self.addrs@[k] == a;
                if k < i {
                    assert(old(self).addrs@[k] == a);
                } else if k > i {
                    assert(old(self).addrs@[k - 1] == a);
                }
            }
        }
        assert(self@ =~= old(self)@.insert(address));
    }

    /// Stop watching `address`; removing a non-member changes nothing.
    pub fn remove(&mut self, address: u32)
        requires
            old(self).wf(),
        ensures
            final(self).wf(),
            final(self)@ == old(self)@.remove(address),
    {
        let i = self.position(address);
        if !(i < self.addrs.len() && self.addrs[i] == address) {
            assert(old(self)@.remove(address) =~= old(self)@);
            return;
        }
        self.addrs.remove(i);
        assert(self.addrs@ =~= old(self).addrs@.remove(i as int));
        assert forall|a: u32| self@.contains(a) <==> old(self)@.remove(address).contains(a) by {
            if old(self).addrs@.contains(a) && a != address {
                let k = choose|k: int| 0 <= k < old(self).addrs@.len() && old(self).addrs@[k] == a;
                if k < i {
                    assert(self.addrs@[k] == a);
                } else {
                    assert(self.addrs@[k - 1] == a);
                }
            }
            if self.addrs@.contains(a) {
                let k = choose|k: int| 0 <= k < self.addrs@.len() && self.addrs@[k] == a;
                if k < i {
                    assert(old(self).addrs@[k] == a);
                } else {
                    assert(old(self).addrs@[k + 1] == a);
                }
            }
        }
        assert(self@ =~= old(self)@.remove(address));
    }

    /// The members in ascending order.
    pub fn all(&self) -> (r: Vec<u32>)
        requires
            self.wf(),
        ensures
            r@ == self.listed(),
    {
        let mut r: Vec<u32> = Vec::new();
        let mut i: usize = 0;
        while i < self.addrs.len()
            invariant
                i <= self.addrs@.len(),
                r@ == self.addrs@.subrange(0, i as int),
            decreases self.addrs@.len() - i,
        {
            r.push(self.addrs[i]);
            i += 1;
            assert(r@ =~= self.addrs@.subrange(0, i as int));
        }
        assert(r@ =~= self.addrs@);
        r
    }

    pub fn is_empty(&self) -> (r: bool)
        requires
            self.wf(),
        ensures
            r == (self@ == Set::<u32>::empty()),
    {
        proof {
            if self.addrs@.len() > 0 {
                assert(self@.contains(self.addrs@[0]));
            } else {
                assert(self@ =~= Set::<u32>::empty());
            }
        }
        self.addrs.len() == 0
    }
}

/// Adding an address twice leaves it listed exactly once, as adding it once
/// does; removing an address that is not a member changes nothing.
pub proof fn lemma_add_remove_idempotent(once: BreakpointSet, twice: BreakpointSet, a: u32)
    requires
        once.wf(),
        twice.wf(),
        twice@ == once@.insert(a),
        once@.contains(a),
    ensures
        twice@ == once@,
        twice@.remove(a).insert(a) == twice@,
        exists|i: int| 0 <= i < twice.listed().len() && twice.listed()[i] == a,
        forall|i: int, j: int|
            0 <= i < twice.listed().len() && 0 <= j < twice.listed().len() && twice.listed()[i] == a
                && twice.listed()[j] == a ==> i == j,
{
    assert(once@.insert(a) =~= once@);
    assert(twice@.remove(a).insert(a) =~= twice@);
    twice.lemma_listed();
    assert(twice.listed().contains(a));
}

/// Removing a non-member leaves the set as it was.
pub proof fn lemma_remove_absent(before: Set<u32>, a: u32)
    requires
        !before.contains(a),
    ensures
        before.remove(a) == before,
{
    assert(before.remove(a) =~= before);
}

} // verus!
