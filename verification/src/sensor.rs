//! A source of signal that is set from outside.

use vstd::prelude::*;

use crate::cycle::ChargeCycle;
use crate::fixed::Fixed;
use crate::neuron::NeuronicInput;

verus! {

/// A sensor: one value, the same for both phases.
pub struct NeuronicSensor {
    measure: Fixed,
}

impl View for NeuronicSensor {
    type V = Fixed;

    /// The value that was set last.
    closed spec fn view(&self) -> Fixed {
        self.measure
    }
}

impl NeuronicSensor {
    /// A sensor that shows zero.
    pub fn new() -> (sensor: NeuronicSensor)
        ensures
            sensor@ == Fixed::zero(),
    {
        NeuronicSensor { measure: Fixed::zero() }
    }

    /// Sets the value that the sensor shows from now on.  Any value is
    /// taken.
    pub fn set_measure(&mut self, measure: Fixed)
        ensures
            final(self)@ == measure,
    {
        self.measure = measure;
    }
}

impl NeuronicInput for NeuronicSensor {
    open spec fn measure_for(&self, cycle: ChargeCycle) -> Fixed {
        self@
    }

    fn get_measure(&self, cycle: ChargeCycle) -> (measure: Fixed) {
        self.measure
    }
}

} // verus!
