//! The rule by which a synapse changes its weight.
//!
//! A synapse whose signal lay below the fired measure is drawn towards the
//! ceiling in proportion to its signal; one at or above it in proportion
//! to the fired measure mirrored about the signal.  A weight that leaves
//! the range from zero to the ceiling is put back.

use vstd::prelude::*;

use crate::fixed::Fixed;

verus! {

/// The factor by which the signal `measure` moves a weight when the neuron
/// fired with `fired`: `measure` below the fired measure, `2 * fired -
/// measure` otherwise.
pub open spec fn pull(measure: Fixed, fired: Fixed) -> Fixed {
    if measure.raw < fired.raw {
        measure
    } else {
        fired.plus(fired).minus(measure)
    }
}

/// The weight after the step and before it is put back into range:
/// `weight + rate * (ceiling - weight) * pull`.
pub open spec fn raised_weight(
    weight: Fixed,
    ceiling: Fixed,
    rate: Fixed,
    measure: Fixed,
    fired: Fixed,
) -> Fixed {
    weight.plus(rate.times(ceiling.minus(weight)).times(pull(measure, fired)))
}

/// The weight after one update: the raised weight, but one tenth under the
/// ceiling where that is above the ceiling, and zero where it is negative.
pub open spec fn spec_learned_weight(
    weight: Fixed,
    ceiling: Fixed,
    rate: Fixed,
    measure: Fixed,
    fired: Fixed,
) -> Fixed {
    let raised = raised_weight(weight, ceiling, rate, measure, fired);
    if raised.raw > ceiling.raw {
        ceiling.minus(Fixed::tenth())
    } else if raised.raw < 0 {
        Fixed::zero()
    } else {
        raised
    }
}

/// The weight that a synapse of weight `weight` has after one update, in a
/// neuron with the given ceiling and learning rate that fired with
/// `fired`, when the signal of the synapse was `measure`.
#[verifier::when_used_as_spec(spec_learned_weight)]
pub fn learned_weight(
    weight: Fixed,
    ceiling: Fixed,
    rate: Fixed,
    measure: Fixed,
    fired: Fixed,
) -> (updated: Fixed)
    ensures
        updated == spec_learned_weight(weight, ceiling, rate, measure, fired),
{
    let factor = if measure.raw < fired.raw {
        measure
    } else {
        fired.plus(fired).minus(measure)
    };
    let raised = weight.plus(rate.times(ceiling.minus(weight)).times(factor));
    if raised.raw > ceiling.raw {
        ceiling.minus(Fixed::tenth())
    } else if raised.raw < 0 {
        Fixed::zero()
    } else {
        raised
    }
}

/// Whether the rule keeps the weight in range on these values.  It does
/// not in three cases: the raised weight is the ceiling exactly and stays
/// there; it is above a ceiling of less than one tenth, so that one tenth
/// under the ceiling is negative; it is negative under a ceiling that is
/// not positive.
pub open spec fn rule_keeps_range(
    weight: Fixed,
    ceiling: Fixed,
    rate: Fixed,
    measure: Fixed,
    fired: Fixed,
) -> bool {
    let raised = raised_weight(weight, ceiling, rate, measure, fired);
    &&& raised != ceiling
    &&& raised.raw > ceiling.raw ==> ceiling.raw >= Fixed::tenth().raw
    &&& raised.raw < 0 ==> ceiling.raw > 0
}

/// An update leaves the weight at zero or above and under the ceiling,
/// whatever it was before.  The cases in which the rule itself takes the
/// weight out of that range are left out.
pub proof fn lemma_learned_weight_in_range(
    weight: Fixed,
    ceiling: Fixed,
    rate: Fixed,
    measure: Fixed,
    fired: Fixed,
)
    requires
        rule_keeps_range(weight, ceiling, rate, measure, fired),
    ensures
        0 <= learned_weight(weight, ceiling, rate, measure, fired).raw < ceiling.raw,
{
}

/// In each of the cases left out above the updated weight is out of
/// range: nothing more is left out than has to be.
pub proof fn lemma_learned_weight_out_of_range(
    weight: Fixed,
    ceiling: Fixed,
    rate: Fixed,
    measure: Fixed,
    fired: Fixed,
)
    requires
        !rule_keeps_range(weight, ceiling, rate, measure, fired),
    ensures
        !(0 <= learned_weight(weight, ceiling, rate, measure, fired).raw < ceiling.raw),
{
}

/// The weight after a run of updates.  Each step gives the signal of the
/// synapse and the measure that the neuron fired with.
pub open spec fn weight_after(
    weight: Fixed,
    ceiling: Fixed,
    rate: Fixed,
    steps: Seq<(Fixed, Fixed)>,
) -> Fixed
    decreases steps.len(),
{
    if steps.len() == 0 {
        weight
    } else {
        learned_weight(
            weight_after(weight, ceiling, rate, steps.drop_last()),
            ceiling,
            rate,
            steps.last().0,
            steps.last().1,
        )
    }
}

/// A weight that starts in range is in range after any number of
/// updates, as long as the rule keeps the range at each of them.
pub proof fn lemma_weight_in_range_after_updates(
    weight: Fixed,
    ceiling: Fixed,
    rate: Fixed,
    steps: Seq<(Fixed, Fixed)>,
)
    requires
        0 <= weight.raw < ceiling.raw,
        forall|k: int|
            0 <= k < steps.len() ==> rule_keeps_range(
                weight_after(weight, ceiling, rate, steps.take(k)),
                ceiling,
                rate,
                (#[trigger] steps[k]).0,
                steps[k].1,
            ),
    ensures
        0 <= weight_after(weight, ceiling, rate, steps).raw < ceiling.raw,
{
    if steps.len() > 0 {
        let last: int = steps.len() - 1;
        assert(steps.take(last) =~= steps.drop_last());
        lemma_learned_weight_in_range(
            weight_after(weight, ceiling, rate, steps.drop_last()),
            ceiling,
            rate,
            steps[last].0,
            steps[last].1,
        );
    }
}

} // verus!
