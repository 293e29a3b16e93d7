//! What one synapse contributes to one aggregation pass.

use std::cmp::Ordering;
use vstd::prelude::*;
use vstd::std_specs::cmp::PartialEqSpecImpl;
use vstd::std_specs::cmp::PartialOrdSpecImpl;

use crate::fixed::Fixed;

verus! {

/// The signal read from a source together with the signed weight of the
/// synapse that read it.
///
/// Impulses are compared by `measure` alone: two impulses of the same
/// measure are equal under `==` and `<`, whatever their weights.
#[derive(Clone, Copy, Debug)]
pub struct Impulse {
    /// The raw signal of the source.
    pub measure: Fixed,
    /// The weight of the synapse, negative where the synapse inhibits.
    pub weight: Fixed,
}

impl Impulse {
    pub open spec fn spec_new(measure: Fixed, weight: Fixed) -> Impulse {
        Impulse { measure, weight }
    }

    #[verifier::when_used_as_spec(spec_new)]
    pub fn new(measure: Fixed, weight: Fixed) -> (impulse: Impulse)
        ensures
            impulse == Impulse::spec_new(measure, weight),
    {
        Impulse { measure, weight }
    }
}

impl PartialEq for Impulse {
    fn eq(&self, other: &Self) -> (same: bool) {
        self.measure.raw == other.measure.raw
    }
}

impl PartialEqSpecImpl for Impulse {
    open spec fn obeys_eq_spec() -> bool {
        true
    }

    open spec fn eq_spec(&self, other: &Self) -> bool {
        self.measure.raw == other.measure.raw
    }
}

impl Eq for Impulse {

}

impl PartialOrd for Impulse {
    fn partial_cmp(&self, other: &Self) -> (order: Option<Ordering>) {
        if self.measure.raw > other.measure.raw {
            Some(Ordering::Greater)
        } else if self.measure.raw < other.measure.raw {
            Some(Ordering::Less)
        } else {
            Some(Ordering::Equal)
        }
    }
}

impl PartialOrdSpecImpl for Impulse {
    open spec fn obeys_partial_cmp_spec() -> bool {
        true
    }

    open spec fn partial_cmp_spec(&self, other: &Self) -> Option<Ordering> {
        if self.measure.raw > other.measure.raw {
            Some(Ordering::Greater)
        } else if self.measure.raw < other.measure.raw {
            Some(Ordering::Less)
        } else {
            Some(Ordering::Equal)
        }
    }
}

} // verus!
