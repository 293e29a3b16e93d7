//! A circuit: sensors and neurons in one store, wired by position.
//!
//! Synapses name their sources by position in the circuit, so any sensor
//! or neuron may feed any neuron, itself included.  A neuron that is
//! ticked for a phase reads every source for the phase before: what a
//! tick writes is never read by another tick of the same phase, and the
//! order of the ticks of one phase makes no difference.

use vstd::prelude::*;

use crate::cycle::ChargeCycle;
use crate::error::NeuronError;
use crate::fixed::Fixed;
use crate::neuron::Neuron;
use crate::neuron::NeuronView;
use crate::neuron::Neuronic;
use crate::neuron::NeuronicInput;
use crate::sensor::NeuronicSensor;
use crate::synapse::Source;
use crate::synapse::Synapse;
use crate::synapse::SynapticType;

verus! {

/// What a circuit is made of, as plain values: the value of each sensor
/// and the state of each neuron.
pub struct CircuitView {
    pub sensors: Seq<Fixed>,
    pub neurons: Seq<NeuronView>,
}

impl CircuitView {
    /// The circuit that holds nothing.
    pub open spec fn empty() -> CircuitView {
        CircuitView { sensors: Seq::empty(), neurons: Seq::empty() }
    }

    /// The circuit with one more sensor, behind the others.
    pub open spec fn with_sensor(self, measure: Fixed) -> CircuitView {
        CircuitView { sensors: self.sensors.push(measure), ..self }
    }

    /// The circuit with one more neuron, behind the others.
    pub open spec fn with_neuron(self, neuron: NeuronView) -> CircuitView {
        CircuitView { neurons: self.neurons.push(neuron), ..self }
    }

    /// The circuit with `measure` at the sensor at `sensor`.
    pub open spec fn with_measure(self, sensor: int, measure: Fixed) -> CircuitView {
        CircuitView { sensors: self.sensors.update(sensor, measure), ..self }
    }

    /// `source` names a sensor or a neuron of the circuit.
    pub open spec fn knows(self, source: Source) -> bool {
        match source {
            Source::Sensor(index) => index < self.sensors.len(),
            Source::Neuron(index) => index < self.neurons.len(),
        }
    }

    /// Every synapse listens to something that the circuit holds.
    pub open spec fn wf(self) -> bool {
        forall|n: int, k: int|
            0 <= n < self.neurons.len() && 0 <= k < self.neurons[n].synapses.len()
                ==> self.knows(#[trigger] self.neurons[n].synapses[k].source)
    }

    /// What `source` shows for `cycle`: a sensor its value, a neuron the
    /// slot of `cycle`.
    pub open spec fn measure_of(self, source: Source, cycle: ChargeCycle) -> Fixed {
        match source {
            Source::Sensor(index) => self.sensors[index as int],
            Source::Neuron(index) => self.neurons[index as int].internal_measure.slot(cycle),
        }
    }

    /// What the synapses of the neuron at `neuron` read in a pass for
    /// `cycle`: each one its source, for the phase before `cycle`.
    pub open spec fn readings(self, neuron: int, cycle: ChargeCycle) -> Seq<Fixed> {
        Seq::new(
            self.neurons[neuron].synapses.len(),
            |k: int| self.measure_of(self.neurons[neuron].synapses[k].source, cycle.flipped()),
        )
    }

    /// The circuit after an aggregation pass of one neuron for `cycle`.
    pub open spec fn after_static_cycle(self, neuron: int, cycle: ChargeCycle) -> CircuitView {
        CircuitView {
            neurons: self.neurons.update(
                neuron,
                self.neurons[neuron].after_static_cycle(cycle, self.readings(neuron, cycle)),
            ),
            ..self
        }
    }

    /// The circuit after a learning step of one neuron for `cycle`.
    pub open spec fn after_update(self, neuron: int, cycle: ChargeCycle) -> CircuitView {
        CircuitView {
            neurons: self.neurons.update(neuron, self.neurons[neuron].after_update(cycle)),
            ..self
        }
    }

    /// The circuit after an aggregation pass of one neuron for `cycle`
    /// followed by its learning step.
    pub open spec fn after_cycle(self, neuron: int, cycle: ChargeCycle) -> CircuitView {
        self.after_static_cycle(neuron, cycle).after_update(neuron, cycle)
    }

    /// The circuit after one neuron has cleared its output.
    pub open spec fn after_clear(self, neuron: int) -> CircuitView {
        CircuitView {
            neurons: self.neurons.update(neuron, self.neurons[neuron].after_clear()),
            ..self
        }
    }

    /// The circuit with one more synapse at the neuron at `neuron`.
    pub open spec fn with_synapse(self, neuron: int, synapse: Synapse) -> CircuitView {
        CircuitView {
            neurons: self.neurons.update(neuron, self.neurons[neuron].with_synapse(synapse)),
            ..self
        }
    }
}

/// Sensors and neurons, each named by the position at which it was added.
pub struct Circuit {
    sensors: Vec<NeuronicSensor>,
    neurons: Vec<Neuron>,
}

impl View for Circuit {
    type V = CircuitView;

    closed spec fn view(&self) -> CircuitView {
        CircuitView {
            sensors: Seq::new(self.sensors@.len(), |i: int| self.sensors@[i]@),
            neurons: Seq::new(self.neurons@.len(), |i: int| self.neurons@[i]@),
        }
    }
}

impl Circuit {
    /// Every synapse listens to something that the circuit holds.
    pub open spec fn wf(&self) -> bool {
        self@.wf()
    }

    /// Whether a synapse of weight `starting_weight` from `input` can be
    /// attached to the neuron at `neuron`: the circuit holds both, and
    /// the weight is not negative.
    pub open spec fn accepts(&self, neuron: usize, starting_weight: Fixed, input: Source) -> bool {
        &&& neuron < self@.neurons.len()
        &&& self@.knows(input)
        &&& starting_weight.raw >= 0
    }

    /// An empty circuit.
    pub fn new() -> (circuit: Circuit)
        ensures
            circuit.wf(),
            circuit@ == CircuitView::empty(),
    {
        let circuit = Circuit { sensors: Vec::new(), neurons: Vec::new() };
        assert(circuit@.sensors =~= Seq::empty());
        assert(circuit@.neurons =~= Seq::empty());
        circuit
    }

    /// How many sensors the circuit holds.
    pub fn sensor_count(&self) -> (count: usize)
        ensures
            count == self@.sensors.len(),
    {
        self.sensors.len()
    }

    /// How many neurons the circuit holds.
    pub fn neuron_count(&self) -> (count: usize)
        ensures
            count == self@.neurons.len(),
    {
        self.neurons.len()
    }

    /// Adds a sensor that shows zero and returns its position.
    pub fn add_sensor(&mut self) -> (index: usize)
        requires
            old(self).wf(),
        ensures
            final(self).wf(),
            index == old(self)@.sensors.len(),
            final(self)@ == old(self)@.with_sensor(Fixed::zero()),
    {
        let index: usize = self.sensors.len();
        self.sensors.push(NeuronicSensor::new());
        assert(self@.sensors =~= old(self)@.sensors.push(Fixed::zero()));
        index
    }

    /// Adds a neuron without synapses and returns its position.  A
    /// ceiling for the weights that is not positive is refused.
    pub fn add_neuron(
        &mut self,
        fire_threshold: Fixed,
        max_synapse_weight: Fixed,
        learning_constant: Fixed,
    ) -> (outcome: Result<usize, NeuronError>)
        requires
            old(self).wf(),
        ensures
            final(self).wf(),
            match outcome {
                Ok(index) => {
                    &&& max_synapse_weight.raw > 0
                    &&& index == old(self)@.neurons.len()
                    &&& final(self)@ == old(self)@.with_neuron(
                        NeuronView::fresh(fire_threshold, max_synapse_weight, learning_constant),
                    )
                },
                Err(refusal) => {
                    &&& max_synapse_weight.raw <= 0
                    &&& refusal == NeuronError::InvalidParameter
                    &&& final(self)@ == old(self)@
                },
            },
    {
        if max_synapse_weight.raw <= 0 {
            return Err(NeuronError::InvalidParameter);
        }
        let index: usize = self.neurons.len();
        let neuron = Neuron::new(fire_threshold, max_synapse_weight, learning_constant);
        self.neurons.push(neuron);
        assert(self@.neurons =~= old(self)@.neurons.push(neuron@));
        Ok(index)
    }

    /// Attaches a synapse that listens to `input` to the neuron at
    /// `neuron`.  Refused where the circuit holds no such neuron or no
    /// such input, and where the weight is negative.
    pub fn create_synapse(
        &mut self,
        neuron: usize,
        starting_weight: Fixed,
        synaptic_type: SynapticType,
        input: Source,
    ) -> (outcome: Result<(), NeuronError>)
        requires
            old(self).wf(),
        ensures
            final(self).wf(),
            match outcome {
                Ok(_) => {
                    &&& old(self).accepts(neuron, starting_weight, input)
                    &&& final(self)@ == old(self)@.with_synapse(
                        neuron as int,
                        Synapse::new(starting_weight, synaptic_type, input),
                    )
                },
                Err(refusal) => {
                    &&& !old(self).accepts(neuron, starting_weight, input)
                    &&& refusal == NeuronError::InvalidParameter
                    &&& final(self)@ == old(self)@
                },
            },
    {
        let known = match input {
            Source::Sensor(index) => index < self.sensors.len(),
            Source::Neuron(index) => index < self.neurons.len(),
        };
        if neuron >= self.neurons.len() || !known || starting_weight.raw < 0 {
            return Err(NeuronError::InvalidParameter);
        }
        self.neurons[neuron].create_synapse(starting_weight, synaptic_type, input);
        proof {
            let synapse = Synapse::new(starting_weight, synaptic_type, input);
            assert(self@.neurons =~= old(self)@.with_synapse(neuron as int, synapse).neurons);
        }
        Ok(())
    }

    /// Sets the value of the sensor at `sensor`.  Any value is taken;
    /// refused where the circuit holds no such sensor.
    pub fn set_measure(&mut self, sensor: usize, measure: Fixed) -> (outcome: Result<
        (),
        NeuronError,
    >)
        requires
            old(self).wf(),
        ensures
            final(self).wf(),
            match outcome {
                Ok(_) => {
                    &&& sensor < old(self)@.sensors.len()
                    &&& final(self)@ == old(self)@.with_measure(sensor as int, measure)
                },
                Err(refusal) => {
                    &&& sensor >= old(self)@.sensors.len()
                    &&& refusal == NeuronError::InvalidParameter
                    &&& final(self)@ == old(self)@
                },
            },
    {
        if sensor >= self.sensors.len() {
            return Err(NeuronError::InvalidParameter);
        }
        self.sensors[sensor].set_measure(measure);
        assert(self@.sensors =~= old(self)@.sensors.update(sensor as int, measure));
        Ok(())
    }

    /// Reads what `source` shows for `cycle`; `None` where the circuit
    /// holds no such source.  Reading computes nothing anew.
    pub fn get_measure(&self, source: Source, cycle: ChargeCycle) -> (measure: Option<Fixed>)
        ensures
            match measure {
                Some(shown) => self@.knows(source) && shown == self@.measure_of(source, cycle),
                None => !self@.knows(source),
            },
    {
        match source {
            Source::Sensor(index) => {
                if index < self.sensors.len() {
                    Some(self.sensors[index].get_measure(cycle))
                } else {
                    None
                }
            },
            Source::Neuron(index) => {
                if index < self.neurons.len() {
                    Some(self.neurons[index].get_measure(cycle))
                } else {
                    None
                }
            },
        }
    }

    /// Collects what the synapses of the neuron at `neuron` read in a pass
    /// for `cycle`: each one its source, for the phase before `cycle`.
    fn readings(&self, neuron: usize, cycle: ChargeCycle) -> (readings: Vec<Fixed>)
        requires
            self.wf(),
            neuron < self@.neurons.len(),
        ensures
            readings@ == self@.readings(neuron as int, cycle),
    {
        let before = cycle.prev_cycle();
        let synapses = self.neurons[neuron].synapses();
        let n: usize = synapses.len();
        let mut readings: Vec<Fixed> = Vec::new();
        let mut k: usize = 0;
        while k < n
            invariant
                k <= n,
                self.wf(),
                neuron < self@.neurons.len(),
                synapses@ == self@.neurons[neuron as int].synapses,
                n == synapses@.len(),
                before == cycle.flipped(),
                readings@.len() == k,
                forall|j: int|
                    0 <= j < k ==> #[trigger] readings@[j] == self@.measure_of(
                        synapses@[j].source,
                        before,
                    ),
            decreases n - k,
        {
            let reading = match synapses[k].source {
                Source::Sensor(index) => self.sensors[index].get_measure(before),
                Source::Neuron(index) => self.neurons[index].get_measure(before),
            };
            readings.push(reading);
            k = k + 1;
        }
        readings
    }

    /// An aggregation pass of the neuron at `neuron` for `cycle`, on what
    /// its sources show for the phase before.  Refused where the circuit
    /// holds no such neuron.
    pub fn run_static_cycle(&mut self, neuron: usize, cycle: ChargeCycle) -> (outcome: Result<
        (),
        NeuronError,
    >)
        requires
            old(self).wf(),
        ensures
            final(self).wf(),
            match outcome {
                Ok(_) => {
                    &&& neuron < old(self)@.neurons.len()
                    &&& final(self)@ == old(self)@.after_static_cycle(neuron as int, cycle)
                },
                Err(refusal) => {
                    &&& neuron >= old(self)@.neurons.len()
                    &&& refusal == NeuronError::InvalidParameter
                    &&& final(self)@ == old(self)@
                },
            },
    {
        if neuron >= self.neurons.len() {
            return Err(NeuronError::InvalidParameter);
        }
        let readings = self.readings(neuron, cycle);
        let outcome = self.neurons[neuron].run_static_cycle(cycle, &readings);
        proof {
            assert(self@.neurons =~= old(self)@.after_static_cycle(neuron as int, cycle).neurons);
        }
        outcome
    }

    /// The learning step of the neuron at `neuron` for `cycle`.  Refused
    /// where the circuit holds no such neuron, and where one of its
    /// synapses holds no impulse for `cycle`.
    pub fn update_synapses(&mut self, neuron: usize, cycle: ChargeCycle) -> (outcome: Result<
        (),
        NeuronError,
    >)
        requires
            old(self).wf(),
        ensures
            final(self).wf(),
            match outcome {
                Ok(_) => {
                    &&& neuron < old(self)@.neurons.len()
                    &&& old(self)@.neurons[neuron as int].ready_to_learn(cycle)
                    &&& final(self)@ == old(self)@.after_update(neuron as int, cycle)
                },
                Err(NeuronError::InvalidParameter) => {
                    &&& neuron >= old(self)@.neurons.len()
                    &&& final(self)@ == old(self)@
                },
                Err(NeuronError::PrecededByAggregation) => {
                    &&& neuron < old(self)@.neurons.len()
                    &&& !old(self)@.neurons[neuron as int].ready_to_learn(cycle)
                    &&& final(self)@ == old(self)@
                },
            },
    {
        if neuron >= self.neurons.len() {
            return Err(NeuronError::InvalidParameter);
        }
        let outcome = self.neurons[neuron].update_synapses(cycle);
        proof {
            if outcome is Ok {
                assert(self@.neurons =~= old(self)@.after_update(neuron as int, cycle).neurons);
            } else {
                assert(self@.neurons =~= old(self)@.neurons);
            }
        }
        outcome
    }

    /// An aggregation pass of the neuron at `neuron` for `cycle`,
    /// followed by its learning step.  Refused where the circuit holds no
    /// such neuron.
    pub fn run_cycle(&mut self, neuron: usize, cycle: ChargeCycle) -> (outcome: Result<
        (),
        NeuronError,
    >)
        requires
            old(self).wf(),
        ensures
            final(self).wf(),
            match outcome {
                Ok(_) => {
                    &&& neuron < old(self)@.neurons.len()
                    &&& final(self)@ == old(self)@.after_cycle(neuron as int, cycle)
                },
                Err(refusal) => {
                    &&& neuron >= old(self)@.neurons.len()
                    &&& refusal == NeuronError::InvalidParameter
                    &&& final(self)@ == old(self)@
                },
            },
    {
        if neuron >= self.neurons.len() {
            return Err(NeuronError::InvalidParameter);
        }
        let readings = self.readings(neuron, cycle);
        let outcome = self.neurons[neuron].run_cycle(cycle, &readings);
        proof {
            assert(self@.neurons =~= old(self)@.after_cycle(neuron as int, cycle).neurons);
        }
        outcome
    }

    /// Puts zero into both slots of the neuron at `neuron`; weights and
    /// held impulses stay.  Refused where the circuit holds no such
    /// neuron.
    pub fn clear(&mut self, neuron: usize) -> (outcome: Result<(), NeuronError>)
        requires
            old(self).wf(),
        ensures
            final(self).wf(),
            match outcome {
                Ok(_) => {
                    &&& neuron < old(self)@.neurons.len()
                    &&& final(self)@ == old(self)@.after_clear(neuron as int)
                },
                Err(refusal) => {
                    &&& neuron >= old(self)@.neurons.len()
                    &&& refusal == NeuronError::InvalidParameter
                    &&& final(self)@ == old(self)@
                },
            },
    {
        if neuron >= self.neurons.len() {
            return Err(NeuronError::InvalidParameter);
        }
        self.neurons[neuron].clear();
        proof {
            assert(self@.neurons =~= old(self)@.after_clear(neuron as int).neurons);
        }
        Ok(())
    }

    /// The neuron at `neuron`, to look at; `None` where the circuit holds
    /// no such neuron.
    pub fn neuron(&self, neuron: usize) -> (found: Option<&Neuron>)
        ensures
            match found {
                Some(held) => neuron < self@.neurons.len() && held@ == self@.neurons[neuron as int],
                None => neuron >= self@.neurons.len(),
            },
    {
        if neuron < self.neurons.len() {
            Some(&self.neurons[neuron])
        } else {
            None
        }
    }
}

} // verus!
