//! A weighted connection from a source of signal to a neuron.

use vstd::prelude::*;

use crate::cycle::ChargeCycle;
use crate::fixed::Fixed;
use crate::impulse::Impulse;

verus! {

/// The sign with which a synapse counts towards the threshold.
#[derive(Clone, Copy, Debug, PartialEq, Eq, Structural)]
pub enum SynapticType {
    Excitatory,
    Inhibitory,
}

/// What a synapse listens to: a sensor or a neuron of the circuit, named
/// by its position there.
#[derive(Clone, Copy, Debug, PartialEq, Eq, Structural)]
pub enum Source {
    Sensor(usize),
    Neuron(usize),
}

/// A connection of a given strength and sign, with the impulse it
/// produced last.
#[derive(Clone, Copy, Debug)]
pub struct Synapse {
    pub weight: Fixed,
    pub synaptic_type: SynapticType,
    pub source: Source,
    /// The impulse of the latest aggregation pass, if there was one.
    pub last_impulse: Option<Impulse>,
    /// The phase of that pass.
    pub last_cycle: ChargeCycle,
}

impl Synapse {
    pub open spec fn spec_new(
        weight: Fixed,
        synaptic_type: SynapticType,
        source: Source,
    ) -> Synapse {
        Synapse {
            weight,
            synaptic_type,
            source,
            last_impulse: None,
            last_cycle: ChargeCycle::Even,
        }
    }

    /// A synapse that has not produced an impulse yet.
    #[verifier::when_used_as_spec(spec_new)]
    pub fn new(weight: Fixed, synaptic_type: SynapticType, source: Source) -> (synapse: Synapse)
        ensures
            synapse == Synapse::spec_new(weight, synaptic_type, source),
    {
        Synapse { weight, synaptic_type, source, last_impulse: None, last_cycle: ChargeCycle::Even }
    }

    /// The weight with its sign: negated where the synapse inhibits.
    pub open spec fn signed_weight(self) -> Fixed {
        match self.synaptic_type {
            SynapticType::Excitatory => self.weight,
            SynapticType::Inhibitory => self.weight.negated(),
        }
    }

    /// The impulse that this synapse makes of the signal `reading`.
    pub open spec fn impulse_of(self, reading: Fixed) -> Impulse {
        Impulse { measure: reading, weight: self.signed_weight() }
    }

    /// The synapse after it has produced an impulse for `cycle` from
    /// `reading`.
    pub open spec fn after_impulse(self, cycle: ChargeCycle, reading: Fixed) -> Synapse {
        Synapse { last_impulse: Some(self.impulse_of(reading)), last_cycle: cycle, ..self }
    }

    /// The impulse held for `cycle`, if the latest pass was for `cycle`.
    pub open spec fn impulse_for(self, cycle: ChargeCycle) -> Option<Impulse> {
        if self.last_cycle == cycle {
            self.last_impulse
        } else {
            None
        }
    }

    /// Produces the impulse for the pass of `cycle` and keeps it.
    ///
    /// `reading` is what the source showed for the phase before `cycle`:
    /// a synapse always looks one phase into the past.
    pub fn generate_impulse(&mut self, cycle: ChargeCycle, reading: Fixed) -> (impulse: Impulse)
        ensures
            impulse == old(self).impulse_of(reading),
            *final(self) == old(self).after_impulse(cycle, reading),
    {
        let impulse = match self.synaptic_type {
            SynapticType::Excitatory => Impulse::new(reading, self.weight),
            SynapticType::Inhibitory => Impulse::new(reading, self.weight.negated()),
        };
        self.last_impulse = Some(impulse);
        self.last_cycle = cycle;
        impulse
    }
}

} // verus!
