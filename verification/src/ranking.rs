//! The order in which the impulses of a pass are taken.
//!
//! Impulses are taken by descending measure.  Among impulses of equal
//! measure the one whose synapse was attached first is taken first, so
//! the order is a function of the impulses alone.

use std::cmp::Ordering;
use vstd::prelude::*;

use crate::impulse::Impulse;

verus! {

/// An impulse together with the position of its synapse in the neuron.
#[derive(Clone, Copy, Debug)]
pub struct Ranked {
    pub impulse: Impulse,
    pub slot: usize,
}

impl Ranked {
    /// Whether `self` is taken before `other`.
    pub open spec fn spec_outranks(self, other: Ranked) -> bool {
        ||| self.impulse.measure.raw > other.impulse.measure.raw
        ||| (self.impulse.measure.raw == other.impulse.measure.raw && self.slot < other.slot)
    }

    /// Whether `self` is taken before `other`: it has the greater measure,
    /// or the same measure and the earlier synapse.
    #[verifier::when_used_as_spec(spec_outranks)]
    pub fn outranks(self, other: Ranked) -> (first: bool)
        ensures
            first == self.spec_outranks(other),
    {
        match self.impulse.partial_cmp(&other.impulse) {
            Some(Ordering::Greater) => true,
            Some(Ordering::Less) => false,
            _ => self.slot < other.slot,
        }
    }
}

/// The impulses of one pass, each with the position of its synapse.
pub open spec fn ranked(impulses: Seq<Impulse>) -> Seq<Ranked> {
    Seq::new(impulses.len(), |i: int| Ranked { impulse: impulses[i], slot: i as usize })
}

/// No two entries come from the same synapse.
pub open spec fn distinct_slots(pending: Seq<Ranked>) -> bool {
    forall|i: int, j: int|
        0 <= i < j < pending.len() ==> (#[trigger] pending[i]).slot != (#[trigger] pending[j]).slot
}

/// Where in `pending` the entry stands that is taken next: the first one
/// that no other entry outranks.  Zero for an empty sequence.
pub open spec fn top_position(pending: Seq<Ranked>) -> int
    decreases pending.len(),
{
    if pending.len() <= 1 {
        0
    } else {
        let before: int = top_position(pending.drop_last());
        if pending.last().outranks(pending[before]) {
            pending.len() - 1
        } else {
            before
        }
    }
}

/// `top_position` names an entry, and nothing outranks that entry.
pub proof fn lemma_top_position(pending: Seq<Ranked>)
    requires
        pending.len() > 0,
    ensures
        0 <= top_position(pending) < pending.len(),
        forall|j: int|
            0 <= j < pending.len() ==> !(#[trigger] pending[j]).outranks(
                pending[top_position(pending)],
            ),
    decreases pending.len(),
{
    if pending.len() > 1 {
        let shorter = pending.drop_last();
        lemma_top_position(shorter);
        let before: int = top_position(shorter);
        assert forall|j: int| 0 <= j < pending.len() implies !(#[trigger] pending[j]).outranks(
            pending[top_position(pending)],
        ) by {
            if j < pending.len() - 1 {
                assert(!shorter[j].outranks(shorter[before]));
            }
        }
    }
}

/// Among entries of distinct slots only the one at `top_position` is
/// outranked by none.
pub proof fn lemma_top_is_unique(pending: Seq<Ranked>, k: int)
    requires
        distinct_slots(pending),
        0 <= k < pending.len(),
        forall|j: int| 0 <= j < pending.len() ==> !(#[trigger] pending[j]).outranks(pending[k]),
    ensures
        k == top_position(pending),
{
    lemma_top_position(pending);
}

/// Taking an entry away leaves the slots distinct.
pub proof fn lemma_remove_keeps_slots_distinct(pending: Seq<Ranked>, k: int)
    requires
        distinct_slots(pending),
        0 <= k < pending.len(),
    ensures
        distinct_slots(pending.remove(k)),
{
}

} // verus!
