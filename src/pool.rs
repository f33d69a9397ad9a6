//! The proposal pool: the items this peer still wants ordered, as a set.
use vstd::prelude::*;
use crate::types::{ConsensusItem, ItemView};

verus! {

/// Items waiting to be included in an epoch. Each item is held once.
#[derive(Debug)]
pub struct ProposalPool {
    pub items: Vec<ConsensusItem>,
}

pub open spec fn items_view(items: Seq<ConsensusItem>) -> Seq<ItemView> {
    items.map_values(|i: ConsensusItem| i@)
}

impl View for ProposalPool {
    type V = Set<ItemView>;

    open spec fn view(&self) -> Set<ItemView> {
        items_view(self.items@).to_set()
    }
}

impl ProposalPool {
    /// No item is held twice.
    pub open spec fn wf(&self) -> bool {
        items_view(self.items@).no_duplicates()
    }

    pub fn new() -> (r: ProposalPool)
        ensures
            r.wf(),
            r@ == Set::<ItemView>::empty(),
    {
        let r = ProposalPool { items: Vec::new() };
        assert(r@ =~= Set::<ItemView>::empty());
        r
    }

    /// Position of an item equal to `x`, if any.
    fn position(&self, x: &ConsensusItem) -> (r: Option<usize>)
        ensures
            match r {
                Some(i) => i < self.items@.len() && self.items@[i as int]@ == x@,
                None => !self@.contains(x@),
            },
    {
        let mut i: usize = 0;
        while i < self.items.len()
            invariant
                i <= self.items@.len(),
                forall|j: int| 0 <= j < i ==> self.items@[j]@ != x@,
            decreases self.items@.len() - i,
        {
            if self.items[i].same_as(x) {
                return Some(i);
            }
            i += 1;
        }
        assert(!items_view(self.items@).contains(x@));
        None
    }

    /// Whether an item equal to `x` is held.
    pub fn contains(&self, x: &ConsensusItem) -> (r: bool)
        ensures
            r == self@.contains(x@),
    {
        match self.position(x) {
            Some(i) => {
                assert(items_view(self.items@)[i as int] == x@);
                true
            },
            None => false,
        }
    }

    /// Adds `x`; true iff it was not held before. Adding a held item changes nothing.
    pub fn insert(&mut self, x: ConsensusItem) -> (r: bool)
        requires
            old(self).wf(),
        ensures
            final(self).wf(),
            final(self)@ == old(self)@.insert(x@),
            r == !old(self)@.contains(x@),
            !r ==> *final(self) == *old(self),
    {
        if self.contains(&x) {
            return false;
        }
        let ghost xv = x@;
        let ghost before = items_view(self.items@);
        self.items.push(x);
        assert(items_view(self.items@) =~= before.push(xv));
        proof {
            before.lemma_push_to_set_commute(xv);
        }
        assert(self@ =~= old(self)@.insert(xv));
        true
    }

    /// Drops the item equal to `x`, if one is held.
    pub fn remove(&mut self, x: &ConsensusItem)
        requires
            old(self).wf(),
        ensures
            final(self).wf(),
            final(self)@ == old(self)@.remove(x@),
    {
        match self.position(x) {
            Some(i) => {
                let ghost before = items_view(self.items@);
                self.items.remove(i);
                let ghost after = items_view(self.items@);
                assert(after =~= before.remove(i as int));
                assert forall|a: int, b: int| 0 <= a < after.len() && 0 <= b < after.len() && a != b
                    implies after[a] != after[b] by {
                    let a0 = if a < i { a } else { a + 1 };
                    let b0 = if b < i { b } else { b + 1 };
                    assert(after[a] == before[a0]);
                    assert(after[b] == before[b0]);
                }
                assert(old(self)@ == before.to_set());
                assert forall|y: ItemView| #[trigger] self@.contains(y) == old(self)@.remove(x@).contains(y) by {
                    assert(self@.contains(y) == after.contains(y));
                    assert(old(self)@.contains(y) == before.contains(y));
                    if after.contains(y) {
                        let k = choose|k: int| 0 <= k < after.len() && after[k] == y;
                        let k0 = if k < i { k } else { k + 1 };
                        assert(before[k0] == y);
                        assert(k0 != i);
                        assert(before[i as int] == x@);
                        assert(y != x@);
                        assert(before.contains(y));
                    }
                    if before.contains(y) && y != x@ {
                        let k = choose|k: int| 0 <= k < before.len() && before[k] == y;
                        assert(k != i);
                        let k1 = if k < i { k } else { k - 1 };
                        assert(after[k1] == y);
                        assert(after.contains(y));
                    }
                }
                assert(self@ =~= old(self)@.remove(x@));
            },
            None => {
                assert(self@ =~= old(self)@.remove(x@));
            },
        }
    }

    /// The items to propose for the next epoch, each once, in no promised order.
    pub fn snapshot(&self) -> (r: Vec<ConsensusItem>)
        requires
            self.wf(),
        ensures
            items_view(r@) == items_view(self.items@),
            items_view(r@).to_set() == self@,
            items_view(r@).no_duplicates(),
    {
        let mut r: Vec<ConsensusItem> = Vec::new();
        let mut i: usize = 0;
        while i < self.items.len()
            invariant
                i <= self.items@.len(),
                r@.len() == i,
                forall|j: int| 0 <= j < i ==> #[trigger] r@[j]@ == self.items@[j]@,
            decreases self.items@.len() - i,
        {
            r.push(self.items[i].duplicate());
            i += 1;
        }
        assert(items_view(r@) =~= items_view(self.items@));
        r
    }

    /// Number of items held.
    pub fn len(&self) -> (r: usize)
        requires
            self.wf(),
        ensures
            r == self@.len(),
    {
        proof {
            items_view(self.items@).unique_seq_to_set();
        }
        self.items.len()
    }
}

} // verus!
