//! The two-slot store of a neuron's output.

use vstd::prelude::*;

use crate::cycle::ChargeCycle;
use crate::fixed::Fixed;

verus! {

/// The output of a neuron for each of the two phases.
#[derive(Clone, Copy, Debug)]
pub struct InternalMeasure {
    pub even: Fixed,
    pub odd: Fixed,
}

impl InternalMeasure {
    /// The value stored for `cycle`.
    pub open spec fn slot(self, cycle: ChargeCycle) -> Fixed {
        match cycle {
            ChargeCycle::Even => self.even,
            ChargeCycle::Odd => self.odd,
        }
    }

    /// The store with `measure` in the slot of `cycle` and the other slot
    /// as it is.
    pub open spec fn with(self, cycle: ChargeCycle, measure: Fixed) -> InternalMeasure {
        match cycle {
            ChargeCycle::Even => InternalMeasure { even: measure, odd: self.odd },
            ChargeCycle::Odd => InternalMeasure { even: self.even, odd: measure },
        }
    }

    pub open spec fn spec_new() -> InternalMeasure {
        InternalMeasure { even: Fixed::zero(), odd: Fixed::zero() }
    }

    /// A store with zero in both slots.
    #[verifier::when_used_as_spec(spec_new)]
    pub fn new() -> (store: InternalMeasure)
        ensures
            store == InternalMeasure::spec_new(),
    {
        InternalMeasure { even: Fixed::zero(), odd: Fixed::zero() }
    }

    /// Writes `measure` into the slot of `cycle`; the other slot keeps its
    /// value.
    pub fn set_measure(&mut self, cycle: ChargeCycle, measure: Fixed)
        ensures
            *final(self) == old(self).with(cycle, measure),
            final(self).slot(cycle) == measure,
            final(self).slot(cycle.flipped()) == old(self).slot(cycle.flipped()),
    {
        match cycle {
            ChargeCycle::Even => self.even = measure,
            ChargeCycle::Odd => self.odd = measure,
        }
    }

    /// Reads the slot of `cycle`.
    pub fn get_measure(&self, cycle: ChargeCycle) -> (measure: Fixed)
        ensures
            measure == self.slot(cycle),
    {
        match cycle {
            ChargeCycle::Even => self.even,
            ChargeCycle::Odd => self.odd,
        }
    }

    /// Puts zero into both slots.
    pub fn clear(&mut self)
        ensures
            *final(self) == InternalMeasure::spec_new(),
            forall|cycle: ChargeCycle| final(self).slot(cycle) == Fixed::zero(),
    {
        self.even = Fixed::zero();
        self.odd = Fixed::zero();
    }
}

} // verus!
