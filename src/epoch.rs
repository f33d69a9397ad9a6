//! Epochs delivered by the atomic-broadcast layer, and the fixed order in
//! which their items are applied.
use vstd::prelude::*;
use crate::types::{ConsensusItem, ItemView};

verus! {

/// One epoch's output: each contributing peer with the items it contributed.
#[derive(Debug)]
pub struct Batch {
    pub epoch: u64,
    pub contributions: Vec<(u16, Vec<ConsensusItem>)>,
}

pub open spec fn contributions_view(c: Seq<(u16, Vec<ConsensusItem>)>) -> Seq<(u16, Seq<ItemView>)> {
    c.map_values(|e: (u16, Vec<ConsensusItem>)| (e.0, e.1@.map_values(|i: ConsensusItem| i@)))
}

pub open spec fn deliveries_view(d: Seq<(u16, ConsensusItem)>) -> Seq<(u16, ItemView)> {
    d.map_values(|e: (u16, ConsensusItem)| (e.0, e.1@))
}

/// Every item paired with its contributor, peer after peer, each peer's items
/// in the order they were delivered.
pub open spec fn flatten(c: Seq<(u16, Seq<ItemView>)>) -> Seq<(u16, ItemView)>
    decreases c.len(),
{
    if c.len() == 0 {
        Seq::empty()
    } else {
        flatten(c.drop_last()) + c.last().1.map_values(|x: ItemView| (c.last().0, x))
    }
}

impl Batch {
    /// Contributors are listed by strictly ascending peer id.
    pub open spec fn wf(&self) -> bool {
        forall|i: int, j: int|
            0 <= i < j < self.contributions@.len() ==> (#[trigger] self.contributions@[i]).0
                < (#[trigger] self.contributions@[j]).0
    }

    /// Whether contributors are listed by strictly ascending peer id.
    pub fn is_ordered(&self) -> (r: bool)
        ensures
            r == self.wf(),
    {
        let n = self.contributions.len();
        if n == 0 {
            return true;
        }
        let mut i: usize = 1;
        while i < n
            invariant
                n == self.contributions@.len(),
                1 <= i <= n,
                forall|a: int, b: int|
                    0 <= a < b < i ==> (#[trigger] self.contributions@[a]).0
                        < (#[trigger] self.contributions@[b]).0,
            decreases n - i,
        {
            if self.contributions[i - 1].0 >= self.contributions[i].0 {
                return false;
            }
            assert forall|a: int, b: int| 0 <= a < b < i + 1 implies (
            #[trigger] self.contributions@[a]).0 < (#[trigger] self.contributions@[b]).0 by {
                if b == i && a < i - 1 {
                    assert(self.contributions@[a].0 < self.contributions@[i - 1].0);
                }
            }
            i += 1;
        }
        true
    }

    /// The items of the epoch in the order in which they are applied: by
    /// ascending contributor, and within a contributor in delivered order.
    pub fn delivery_order(&self) -> (r: Vec<(u16, ConsensusItem)>)
        requires
            self.wf(),
        ensures
            deliveries_view(r@) == flatten(contributions_view(self.contributions@)),
    {
        let ghost cv = contributions_view(self.contributions@);
        let mut r: Vec<(u16, ConsensusItem)> = Vec::new();
        let mut i: usize = 0;
        while i < self.contributions.len()
            invariant
                i <= self.contributions@.len(),
                cv == contributions_view(self.contributions@),
                deliveries_view(r@) == flatten(cv.take(i as int)),
            decreases self.contributions@.len() - i,
        {
            let peer = self.contributions[i].0;
            let items = &self.contributions[i].1;
            let ghost base = deliveries_view(r@);
            let ghost ivs = cv[i as int].1;
            assert(ivs == items@.map_values(|x: ConsensusItem| x@));
            let mut j: usize = 0;
            while j < items.len()
                invariant
                    j <= items@.len(),
                    ivs == items@.map_values(|x: ConsensusItem| x@),
                    deliveries_view(r@) == base + ivs.take(j as int).map_values(
                        |x: ItemView| (peer, x),
                    ),
                decreases items@.len() - j,
            {
                let ghost prev = r@;
                r.push((peer, items[j].duplicate()));
                assert(deliveries_view(r@) =~= deliveries_view(prev).push((peer, ivs[j as int])));
                assert(ivs.take(j + 1).map_values(|x: ItemView| (peer, x)) =~= ivs.take(
                    j as int,
                ).map_values(|x: ItemView| (peer, x)).push((peer, ivs[j as int])));
                j += 1;
                assert(deliveries_view(r@) =~= base + ivs.take(j as int).map_values(
                    |x: ItemView| (peer, x),
                ));
            }
            assert(ivs.take(j as int) =~= ivs);
            assert(cv.take(i + 1).drop_last() =~= cv.take(i as int));
            assert(cv.take(i + 1).last() == cv[i as int]);
            i += 1;
        }
        assert(cv.take(i as int) =~= cv);
        r
    }
}

} // verus!
