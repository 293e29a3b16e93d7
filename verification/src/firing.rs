//! The measure that a neuron fires with.
//!
//! The impulses of a pass are taken in firing order while their signed
//! weights are added up.  The neuron fires with the measure of the impulse
//! that first brings the running total to the threshold, and with zero if
//! none does.

use vstd::prelude::*;
use vstd::seq_lib::to_multiset_build;
use vstd::seq_lib::to_multiset_contains;
use vstd::seq_lib::to_multiset_len;
use vstd::seq_lib::to_multiset_remove;

use crate::fixed::Fixed;
use crate::heap::ImpulseHeap;
use crate::impulse::Impulse;
use crate::ranking::distinct_slots;
use crate::ranking::lemma_remove_keeps_slots_distinct;
use crate::ranking::lemma_top_is_unique;
use crate::ranking::lemma_top_position;
use crate::ranking::ranked;
use crate::ranking::top_position;
use crate::ranking::Ranked;

verus! {

/// The measure fired when the entries of `pending` are taken in order,
/// starting from a running total of `total`: the measure of the entry with
/// which the total first reaches `threshold`, and zero if it never does.
pub open spec fn greedy_fire(pending: Seq<Ranked>, total: int, threshold: int) -> Fixed
    decreases pending.len(),
{
    if pending.len() == 0 {
        Fixed::zero()
    } else {
        let next = pending[top_position(pending)];
        let reached: int = total + next.impulse.weight.raw;
        if reached >= threshold {
            next.impulse.measure
        } else {
            proof {
                lemma_top_position(pending);
            }
            greedy_fire(pending.remove(top_position(pending)), reached, threshold)
        }
    }
}

/// The measure that a neuron with threshold `threshold` fires on
/// `impulses`, the i-th of which comes from its i-th synapse.
pub open spec fn fired_measure(impulses: Seq<Impulse>, threshold: Fixed) -> Fixed {
    greedy_fire(ranked(impulses), 0, threshold.raw as int)
}

/// What is fired from `pending` is zero or the measure of one of its
/// entries.
pub proof fn lemma_greedy_fire_is_zero_or_a_measure(
    pending: Seq<Ranked>,
    total: int,
    threshold: int,
)
    ensures
        greedy_fire(pending, total, threshold) == Fixed::zero() || exists|j: int|
            0 <= j < pending.len() && greedy_fire(pending, total, threshold) == (
            #[trigger] pending[j]).impulse.measure,
    decreases pending.len(),
{
    if pending.len() > 0 {
        lemma_top_position(pending);
        let k: int = top_position(pending);
        let reached: int = total + pending[k].impulse.weight.raw;
        if reached < threshold {
            let rest = pending.remove(k);
            lemma_greedy_fire_is_zero_or_a_measure(rest, reached, threshold);
        }
    }
}

/// The measure fired on any impulses is the measure of exactly one of
/// them, or zero: never a sum, a mean or a weight.
pub proof fn lemma_fired_measure_is_an_input(impulses: Seq<Impulse>, threshold: Fixed)
    ensures
        fired_measure(impulses, threshold) == Fixed::zero() || exists|i: int|
            0 <= i < impulses.len() && fired_measure(impulses, threshold) == (
            #[trigger] impulses[i]).measure,
{
    let pending = ranked(impulses);
    lemma_greedy_fire_is_zero_or_a_measure(pending, 0, threshold.raw as int);
}

/// Without impulses nothing is fired.
pub proof fn lemma_no_impulse_fires_zero(threshold: Fixed)
    ensures
        fired_measure(Seq::<Impulse>::empty(), threshold) == Fixed::zero(),
{
}

/// The measure that a neuron with threshold `threshold` fires on
/// `impulses`: the measure of one of them, or zero.
pub fn fire(impulses: &Vec<Impulse>, threshold: Fixed) -> (fired: Fixed)
    ensures
        fired == fired_measure(impulses@, threshold),
        fired == Fixed::zero() || exists|i: int|
            0 <= i < impulses@.len() && fired == (#[trigger] impulses@[i]).measure,
        impulses@.len() == 0 ==> fired == Fixed::zero(),
{
    let n: usize = impulses.len();
    let mut heap = ImpulseHeap::new();
    let mut i: usize = 0;
    proof {
        to_multiset_len(ranked(impulses@).take(0));
    }
    while i < n
        invariant
            n == impulses@.len(),
            i <= n,
            heap.wf(),
            heap@ == ranked(impulses@).take(i as int).to_multiset(),
        decreases n - i,
    {
        let entry = Ranked { impulse: impulses[i], slot: i };
        proof {
            let sofar = ranked(impulses@).take(i as int);
            assert(ranked(impulses@).take(i + 1) =~= sofar.push(entry));
            to_multiset_build(sofar, entry);
        }
        heap.push(entry);
        i = i + 1;
    }
    let ghost mut pending: Seq<Ranked> = ranked(impulses@);
    assert(ranked(impulses@).take(n as int) =~= pending);
    let mut total: i128 = 0;
    proof {
        lemma_fired_measure_is_an_input(impulses@, threshold);
        if n == 0 {
            lemma_no_impulse_fires_zero(threshold);
        }
    }
    loop
        invariant
            n == impulses@.len(),
            n == 0 ==> fired_measure(impulses@, threshold) == Fixed::zero(),
            fired_measure(impulses@, threshold) == Fixed::zero() || exists|i: int|
                0 <= i < impulses@.len() && fired_measure(impulses@, threshold) == (
                #[trigger] impulses@[i]).measure,
            pending.len() <= n,
            heap.wf(),
            heap@ == pending.to_multiset(),
            distinct_slots(pending),
            greedy_fire(pending, total as int, threshold.raw as int) == fired_measure(
                impulses@,
                threshold,
            ),
            -(n - pending.len()) * 0x8000_0000_0000_0000 <= total <= (n - pending.len())
                * 0x8000_0000_0000_0000,
        decreases pending.len(),
    {
        proof {
            to_multiset_len(pending);
        }
        match heap.pop() {
            None => {
                return Fixed::zero();
            },
            Some(next) => {
                proof {
                    to_multiset_contains(pending, next);
                    let k = choose|k: int| 0 <= k < pending.len() && pending[k] == next;
                    assert forall|j: int| 0 <= j < pending.len() implies !(
                    #[trigger] pending[j]).outranks(pending[k]) by {
                        to_multiset_contains(pending, pending[j]);
                    }
                    lemma_top_is_unique(pending, k);
                    lemma_remove_keeps_slots_distinct(pending, k);
                    to_multiset_remove(pending, k);
                    pending = pending.remove(k);
                }
                total = total + next.impulse.weight.raw as i128;
                if total >= threshold.raw as i128 {
                    return next.impulse.measure;
                }
            },
        }
    }
}

} // verus!
