//! The neuron: synapses, a two-slot output and the two steps of a tick.

use vstd::prelude::*;

use crate::cycle::ChargeCycle;
use crate::error::NeuronError;
use crate::firing::fire;
use crate::firing::fired_measure;
use crate::fixed::Fixed;
use crate::impulse::Impulse;
use crate::learning::learned_weight;
use crate::measure::InternalMeasure;
use crate::synapse::Source;
use crate::synapse::Synapse;
use crate::synapse::SynapticType;

verus! {

/// Anything whose signal a synapse can read.
pub trait NeuronicInput {
    /// The signal that stands for `cycle`.
    spec fn measure_for(&self, cycle: ChargeCycle) -> Fixed;

    /// Reads the signal that stands for `cycle`.  Reading computes
    /// nothing anew.
    fn get_measure(&self, cycle: ChargeCycle) -> (measure: Fixed)
        ensures
            measure == self.measure_for(cycle),
    ;
}

/// What a neuron is made of, as plain values.
pub struct NeuronView {
    pub fire_threshold: Fixed,
    pub max_synapse_weight: Fixed,
    pub learning_constant: Fixed,
    pub synapses: Seq<Synapse>,
    pub internal_measure: InternalMeasure,
}

impl NeuronView {
    /// A neuron without synapses, with zero in both slots of its output.
    pub open spec fn fresh(
        fire_threshold: Fixed,
        max_synapse_weight: Fixed,
        learning_constant: Fixed,
    ) -> NeuronView {
        NeuronView {
            fire_threshold,
            max_synapse_weight,
            learning_constant,
            synapses: Seq::empty(),
            internal_measure: InternalMeasure::new(),
        }
    }

    /// As many readings as synapses.
    pub open spec fn fits(self, readings: Seq<Fixed>) -> bool {
        readings.len() == self.synapses.len()
    }

    /// The impulses of one pass: the i-th synapse makes its impulse of
    /// the i-th reading.
    pub open spec fn impulses(self, readings: Seq<Fixed>) -> Seq<Impulse> {
        Seq::new(self.synapses.len(), |i: int| self.synapses[i].impulse_of(readings[i]))
    }

    /// The measure that the neuron fires on `readings`.
    pub open spec fn fired(self, readings: Seq<Fixed>) -> Fixed {
        fired_measure(self.impulses(readings), self.fire_threshold)
    }

    /// The neuron after an aggregation pass for `cycle` on `readings`
    /// followed by the learning step for `cycle`.
    pub open spec fn after_cycle(self, cycle: ChargeCycle, readings: Seq<Fixed>) -> NeuronView {
        self.after_static_cycle(cycle, readings).after_update(cycle)
    }

    /// The neuron after an aggregation pass for `cycle` on `readings`:
    /// every synapse holds its impulse, the slot of `cycle` holds the
    /// fired measure, and nothing else has changed.
    pub open spec fn after_static_cycle(
        self,
        cycle: ChargeCycle,
        readings: Seq<Fixed>,
    ) -> NeuronView {
        NeuronView {
            synapses: Seq::new(
                self.synapses.len(),
                |i: int| self.synapses[i].after_impulse(cycle, readings[i]),
            ),
            internal_measure: self.internal_measure.with(cycle, self.fired(readings)),
            ..self
        }
    }

    /// Every synapse holds an impulse for `cycle`.
    pub open spec fn ready_to_learn(self, cycle: ChargeCycle) -> bool {
        forall|i: int|
            0 <= i < self.synapses.len() ==> (#[trigger] self.synapses[i]).impulse_for(cycle)
                is Some
    }

    /// The weight of the i-th synapse after a learning step for `cycle`.
    pub open spec fn updated_weight(self, cycle: ChargeCycle, i: int) -> Fixed {
        learned_weight(
            self.synapses[i].weight,
            self.max_synapse_weight,
            self.learning_constant,
            self.synapses[i].last_impulse->0.measure,
            self.internal_measure.slot(cycle),
        )
    }

    /// The neuron after a learning step for `cycle`: every weight has
    /// moved by the rule, and nothing else has changed.
    pub open spec fn after_update(self, cycle: ChargeCycle) -> NeuronView {
        NeuronView {
            synapses: Seq::new(
                self.synapses.len(),
                |i: int| Synapse { weight: self.updated_weight(cycle, i), ..self.synapses[i] },
            ),
            ..self
        }
    }

    /// The neuron with zero in both slots.
    pub open spec fn after_clear(self) -> NeuronView {
        NeuronView { internal_measure: InternalMeasure::new(), ..self }
    }

    /// The neuron with one more synapse, behind the others.
    pub open spec fn with_synapse(self, synapse: Synapse) -> NeuronView {
        NeuronView { synapses: self.synapses.push(synapse), ..self }
    }
}

/// What every neuron does.
///
/// A tick of a neuron is an aggregation pass, alone or followed by a
/// learning step for the same phase.  The readings handed to a pass are
/// what the sources of the synapses showed for the phase before, one
/// reading for each synapse in the order of attachment.
pub trait Neuronic {
    /// The neuron as plain values.
    spec fn state(&self) -> NeuronView;

    /// An aggregation pass for `cycle` followed by the learning step for
    /// `cycle`.  Refused where the readings are more or fewer than the
    /// synapses.
    fn run_cycle(&mut self, cycle: ChargeCycle, readings: &Vec<Fixed>) -> (outcome: Result<
        (),
        NeuronError,
    >)
        ensures
            match outcome {
                Ok(_) => {
                    &&& old(self).state().fits(readings@)
                    &&& final(self).state() == old(self).state().after_cycle(cycle, readings@)
                },
                Err(refusal) => {
                    &&& !old(self).state().fits(readings@)
                    &&& refusal == NeuronError::InvalidParameter
                    &&& final(self).state() == old(self).state()
                },
            },
    ;

    /// An aggregation pass for `cycle`: computes the output for `cycle`
    /// and leaves the weights and the output for the other phase alone.
    /// Refused where the readings are more or fewer than the synapses.
    fn run_static_cycle(&mut self, cycle: ChargeCycle, readings: &Vec<Fixed>) -> (outcome: Result<
        (),
        NeuronError,
    >)
        ensures
            match outcome {
                Ok(_) => {
                    &&& old(self).state().fits(readings@)
                    &&& final(self).state() == old(self).state().after_static_cycle(
                        cycle,
                        readings@,
                    )
                },
                Err(refusal) => {
                    &&& !old(self).state().fits(readings@)
                    &&& refusal == NeuronError::InvalidParameter
                    &&& final(self).state() == old(self).state()
                },
            },
    ;

    /// The learning step for `cycle`: moves every weight by what the
    /// synapse read in the pass for `cycle` and what the neuron fired.
    /// Refused where a synapse holds no impulse for `cycle`.
    fn update_synapses(&mut self, cycle: ChargeCycle) -> (outcome: Result<(), NeuronError>)
        ensures
            match outcome {
                Ok(_) => {
                    &&& old(self).state().ready_to_learn(cycle)
                    &&& final(self).state() == old(self).state().after_update(cycle)
                },
                Err(refusal) => {
                    &&& !old(self).state().ready_to_learn(cycle)
                    &&& refusal == NeuronError::PrecededByAggregation
                    &&& final(self).state() == old(self).state()
                },
            },
    ;

    /// Puts zero into both slots of the output.  Weights and held
    /// impulses stay.
    fn clear(&mut self)
        ensures
            final(self).state() == old(self).state().after_clear(),
    ;

    /// Attaches a synapse of the given weight and sign that listens to
    /// `input`.  Nothing is asked of the weight.
    fn create_synapse(&mut self, starting_weight: Fixed, synaptic_type: SynapticType, input: Source)
        ensures
            final(self).state() == old(self).state().with_synapse(
                Synapse::new(starting_weight, synaptic_type, input),
            ),
    ;
}

/// After an aggregation pass for `cycle` every synapse holds an impulse
/// for `cycle`.
pub proof fn lemma_ready_after_static_cycle(
    neuron: NeuronView,
    cycle: ChargeCycle,
    readings: Seq<Fixed>,
)
    ensures
        neuron.after_static_cycle(cycle, readings).ready_to_learn(cycle),
{
}

/// A neuron.
pub struct Neuron {
    fire_threshold: Fixed,
    max_synapse_weight: Fixed,
    learning_constant: Fixed,
    synapses: Vec<Synapse>,
    internal_measure: InternalMeasure,
}

impl View for Neuron {
    type V = NeuronView;

    closed spec fn view(&self) -> NeuronView {
        NeuronView {
            fire_threshold: self.fire_threshold,
            max_synapse_weight: self.max_synapse_weight,
            learning_constant: self.learning_constant,
            synapses: self.synapses@,
            internal_measure: self.internal_measure,
        }
    }
}

impl Neuron {
    /// A neuron without synapses, with zero in both slots of its output.
    pub fn new(
        fire_threshold: Fixed,
        max_synapse_weight: Fixed,
        learning_constant: Fixed,
    ) -> (neuron: Neuron)
        ensures
            neuron@ == NeuronView::fresh(fire_threshold, max_synapse_weight, learning_constant),
    {
        Neuron {
            fire_threshold,
            max_synapse_weight,
            learning_constant,
            synapses: Vec::new(),
            internal_measure: InternalMeasure::new(),
        }
    }

    /// The synapses in the order of their attachment.
    pub fn synapses(&self) -> (synapses: &Vec<Synapse>)
        ensures
            synapses@ == self@.synapses,
    {
        &self.synapses
    }
}

impl NeuronicInput for Neuron {
    open spec fn measure_for(&self, cycle: ChargeCycle) -> Fixed {
        self@.internal_measure.slot(cycle)
    }

    fn get_measure(&self, cycle: ChargeCycle) -> (measure: Fixed) {
        self.internal_measure.get_measure(cycle)
    }
}

impl Neuronic for Neuron {
    open spec fn state(&self) -> NeuronView {
        self@
    }

    fn run_static_cycle(
        &mut self,
        cycle: ChargeCycle,
        readings: &Vec<Fixed>,
    ) -> (outcome: Result<(), NeuronError>) {
        let n: usize = self.synapses.len();
        if readings.len() != n {
            return Err(NeuronError::InvalidParameter);
        }
        let mut impulses: Vec<Impulse> = Vec::new();
        let mut i: usize = 0;
        while i < n
            invariant
                i <= n,
                n == readings@.len(),
                n == old(self).synapses@.len(),
                n == self.synapses@.len(),
                self.fire_threshold == old(self).fire_threshold,
                self.max_synapse_weight == old(self).max_synapse_weight,
                self.learning_constant == old(self).learning_constant,
                self.internal_measure == old(self).internal_measure,
                impulses@.len() == i,
                forall|j: int|
                    0 <= j < i ==> #[trigger] impulses@[j] == old(self).synapses@[j].impulse_of(
                        readings@[j],
                    ),
                forall|j: int|
                    0 <= j < i ==> #[trigger] self.synapses@[j]
                        == old(self).synapses@[j].after_impulse(cycle, readings@[j]),
                forall|j: int|
                    i <= j < n ==> #[trigger] self.synapses@[j] == old(self).synapses@[j],
            decreases n - i,
        {
            let impulse = self.synapses[i].generate_impulse(cycle, readings[i]);
            impulses.push(impulse);
            i = i + 1;
        }
        assert(impulses@ =~= old(self)@.impulses(readings@));
        let fired = fire(&impulses, self.fire_threshold);
        self.internal_measure.set_measure(cycle, fired);
        assert(self@.synapses =~= old(self)@.after_static_cycle(cycle, readings@).synapses);
        Ok(())
    }

    fn update_synapses(&mut self, cycle: ChargeCycle) -> (outcome: Result<(), NeuronError>) {
        let n: usize = self.synapses.len();
        let mut i: usize = 0;
        while i < n
            invariant
                i <= n,
                n == self.synapses@.len(),
                *self == *old(self),
                forall|j: int|
                    0 <= j < i ==> (#[trigger] self.synapses@[j]).impulse_for(cycle) is Some,
            decreases n - i,
        {
            let held = match self.synapses[i].last_impulse {
                Some(_) => self.synapses[i].last_cycle == cycle,
                None => false,
            };
            if !held {
                return Err(NeuronError::PrecededByAggregation);
            }
            i = i + 1;
        }
        let fired = self.internal_measure.get_measure(cycle);
        i = 0;
        while i < n
            invariant
                i <= n,
                n == old(self).synapses@.len(),
                n == self.synapses@.len(),
                old(self)@.ready_to_learn(cycle),
                fired == old(self).internal_measure.slot(cycle),
                self.fire_threshold == old(self).fire_threshold,
                self.max_synapse_weight == old(self).max_synapse_weight,
                self.learning_constant == old(self).learning_constant,
                self.internal_measure == old(self).internal_measure,
                forall|j: int|
                    0 <= j < i ==> #[trigger] self.synapses@[j] == (Synapse {
                        weight: old(self)@.updated_weight(cycle, j),
                        ..old(self).synapses@[j]
                    }),
                forall|j: int|
                    i <= j < n ==> #[trigger] self.synapses@[j] == old(self).synapses@[j],
            decreases n - i,
        {
            let synapse = self.synapses[i];
            let impulse = synapse.last_impulse.unwrap();
            self.synapses[i].weight = learned_weight(
                synapse.weight,
                self.max_synapse_weight,
                self.learning_constant,
                impulse.measure,
                fired,
            );
            i = i + 1;
        }
        assert(self@.synapses =~= old(self)@.after_update(cycle).synapses);
        Ok(())
    }

    fn run_cycle(
        &mut self,
        cycle: ChargeCycle,
        readings: &Vec<Fixed>,
    ) -> (outcome: Result<(), NeuronError>) {
        match self.run_static_cycle(cycle, readings) {
            Ok(()) => {
                proof {
                    lemma_ready_after_static_cycle(old(self).state(), cycle, readings@);
                }
                self.update_synapses(cycle)
            },
            Err(refusal) => Err(refusal),
        }
    }

    fn clear(&mut self) {
        self.internal_measure.clear();
    }

    fn create_synapse(
        &mut self,
        starting_weight: Fixed,
        synaptic_type: SynapticType,
        input: Source,
    ) {
        self.synapses.push(Synapse::new(starting_weight, synaptic_type, input));
    }
}

} // verus!
