//! A binary max-heap of ranked impulses.
//!
//! The heap hands its entries out in firing order: each `pop` returns an
//! entry that no other entry of the heap outranks.

use vstd::multiset::Multiset;
use vstd::prelude::*;
use vstd::seq_lib::to_multiset_build;
use vstd::seq_lib::to_multiset_contains;
use vstd::seq_lib::to_multiset_len;
use vstd::seq_lib::to_multiset_update;

use crate::ranking::Ranked;

verus! {

/// The position above `i` in the tree laid out in a vector.
spec fn parent(i: int) -> int {
    (i - 1) / 2
}

/// No entry outranks the one above it.
spec fn heap_ordered(items: Seq<Ranked>) -> bool {
    forall|i: int| 1 <= i < items.len() ==> !(#[trigger] items[i]).outranks(items[parent(i)])
}

/// `items` is ordered but for the entry at `hole`, which may outrank the
/// one above it; what hangs below `hole` already respects the entry above
/// `hole`.
spec fn ordered_above(items: Seq<Ranked>, hole: int) -> bool {
    &&& forall|i: int|
        1 <= i < items.len() && i != hole ==> !(#[trigger] items[i]).outranks(items[parent(i)])
    &&& forall|i: int|
        1 <= i < items.len() && parent(i) == hole && hole >= 1 ==> !(#[trigger] items[i]).outranks(
            items[parent(hole)],
        )
}

/// `items` is ordered but for the entries just below `hole`, which may
/// outrank it; they already respect the entry above `hole`.
spec fn ordered_below(items: Seq<Ranked>, hole: int) -> bool {
    &&& forall|i: int|
        1 <= i < items.len() && parent(i) != hole ==> !(#[trigger] items[i]).outranks(
            items[parent(i)],
        )
    &&& forall|i: int|
        1 <= i < items.len() && parent(i) == hole && hole >= 1 ==> !(#[trigger] items[i]).outranks(
            items[parent(hole)],
        )
}

/// In an ordered heap nothing outranks the root.
proof fn lemma_root_is_top(items: Seq<Ranked>, i: int)
    requires
        heap_ordered(items),
        0 <= i < items.len(),
    ensures
        !items[i].outranks(items[0]),
    decreases i,
{
    if i > 0 {
        lemma_root_is_top(items, parent(i));
    }
}

/// Exchanging two entries keeps the contents.
proof fn lemma_exchange_keeps_contents(items: Seq<Ranked>, i: int, j: int)
    requires
        0 <= i < items.len(),
        0 <= j < items.len(),
    ensures
        items.update(i, items[j]).update(j, items[i]).to_multiset() == items.to_multiset(),
{
    let half = items.update(i, items[j]);
    to_multiset_update(items, i, items[j]);
    to_multiset_update(half, j, items[i]);
    to_multiset_contains(items, items[i]);
    to_multiset_contains(items, items[j]);
}

/// A priority queue of ranked impulses.
pub struct ImpulseHeap {
    items: Vec<Ranked>,
}

impl View for ImpulseHeap {
    type V = Multiset<Ranked>;

    /// The entries held, without their arrangement.
    closed spec fn view(&self) -> Multiset<Ranked> {
        self.items@.to_multiset()
    }
}

impl ImpulseHeap {
    /// The arrangement is that of a heap.
    pub closed spec fn wf(&self) -> bool {
        heap_ordered(self.items@)
    }

    /// An empty heap.
    pub fn new() -> (heap: ImpulseHeap)
        ensures
            heap.wf(),
            heap@ == Multiset::<Ranked>::empty(),
    {
        let heap = ImpulseHeap { items: Vec::new() };
        assert(heap.items@.to_multiset() =~= Multiset::<Ranked>::empty()) by {
            to_multiset_len(heap.items@);
        }
        heap
    }

    /// Adds `item`.
    pub fn push(&mut self, item: Ranked)
        requires
            old(self).wf(),
        ensures
            final(self).wf(),
            final(self)@ == old(self)@.insert(item),
    {
        proof {
            to_multiset_build(self.items@, item);
        }
        self.items.push(item);
        let mut hole: usize = self.items.len() - 1;
        while hole > 0 && self.items[hole].outranks(self.items[(hole - 1) / 2])
            invariant
                0 <= hole < self.items@.len(),
                ordered_above(self.items@, hole as int),
                self.items@.to_multiset() == old(self)@.insert(item),
            decreases hole,
        {
            let above: usize = (hole - 1) / 2;
            let ghost before = self.items@;
            let lower = self.items[hole];
            let upper = self.items[above];
            self.items[hole] = upper;
            self.items[above] = lower;
            proof {
                lemma_exchange_keeps_contents(before, hole as int, above as int);
            }
            hole = above;
        }
    }

    /// Takes out an entry that no other entry outranks; `None` when the
    /// heap is empty.
    pub fn pop(&mut self) -> (top: Option<Ranked>)
        requires
            old(self).wf(),
        ensures
            final(self).wf(),
            match top {
                Some(taken) => {
                    &&& old(self)@.count(taken) > 0
                    &&& final(self)@ == old(self)@.remove(taken)
                    &&& forall|other: Ranked|
                        old(self)@.count(other) > 0 ==> !other.outranks(taken)
                },
                None => old(self)@.len() == 0 && final(self)@ == old(self)@,
            },
    {
        let ghost before = self.items@;
        proof {
            to_multiset_len(before);
        }
        match self.items.pop() {
            None => None,
            Some(last) => {
                proof {
                    assert(before =~= self.items@.push(last));
                    to_multiset_build(self.items@, last);
                    assert forall|other: Ranked|
                        before.to_multiset().count(other) > 0 implies !other.outranks(
                        before[0],
                    ) by {
                        to_multiset_contains(before, other);
                        let i = choose|i: int| 0 <= i < before.len() && before[i] == other;
                        lemma_root_is_top(before, i);
                    }
                    to_multiset_contains(before, before[0]);
                }
                if self.items.len() == 0 {
                    Some(last)
                } else {
                    let top = self.items[0];
                    let ghost shorter = self.items@;
                    self.items[0] = last;
                    proof {
                        to_multiset_update(shorter, 0, last);
                    }
                    self.settle();
                    Some(top)
                }
            },
        }
    }

    /// Lets the root sink to where it belongs.
    fn settle(&mut self)
        requires
            old(self).items@.len() > 0,
            ordered_below(old(self).items@, 0),
        ensures
            final(self).wf(),
            final(self)@ == old(self)@,
    {
        let n: usize = self.items.len();
        let mut hole: usize = 0;
        while hole < n / 2
            invariant
                n == self.items@.len(),
                0 <= hole < n,
                ordered_below(self.items@, hole as int),
                self.items@.to_multiset() == old(self)@,
            ensures
                n == self.items@.len(),
                heap_ordered(self.items@),
                self.items@.to_multiset() == old(self)@,
            decreases n - hole,
        {
            let left: usize = 2 * hole + 1;
            let right: usize = left + 1;
            let below: usize = if right < n && self.items[right].outranks(self.items[left]) {
                right
            } else {
                left
            };
            if !self.items[below].outranks(self.items[hole]) {
                break ;
            }
            let ghost before = self.items@;
            let upper = self.items[hole];
            let lower = self.items[below];
            self.items[hole] = lower;
            self.items[below] = upper;
            proof {
                lemma_exchange_keeps_contents(before, hole as int, below as int);
            }
            hole = below;
        }
    }
}

} // verus!
