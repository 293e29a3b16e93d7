//! What holds of every neuron and every circuit.

use vstd::prelude::*;

use crate::circuit::CircuitView;
use crate::cycle::ChargeCycle;
use crate::firing::lemma_fired_measure_is_an_input;
use crate::firing::lemma_no_impulse_fires_zero;
use crate::fixed::Fixed;
use crate::learning::lemma_learned_weight_in_range;
use crate::learning::rule_keeps_range;
use crate::neuron::NeuronView;
use crate::synapse::Source;

verus! {

/// The output that an aggregation pass writes is one of the readings
/// handed to it, or zero.
pub proof fn lemma_output_is_a_reading_or_zero(
    neuron: NeuronView,
    cycle: ChargeCycle,
    readings: Seq<Fixed>,
)
    requires
        neuron.fits(readings),
    ensures
        ({
            let output = neuron.after_static_cycle(cycle, readings).internal_measure.slot(cycle);
            output == Fixed::zero() || exists|i: int|
                0 <= i < readings.len() && output == #[trigger] readings[i]
        }),
{
    lemma_fired_measure_is_an_input(neuron.impulses(readings), neuron.fire_threshold);
}

/// A neuron without synapses writes zero in every aggregation pass, for
/// either phase.
pub proof fn lemma_no_synapse_fires_zero(
    neuron: NeuronView,
    cycle: ChargeCycle,
    readings: Seq<Fixed>,
)
    requires
        neuron.synapses.len() == 0,
    ensures
        neuron.after_static_cycle(cycle, readings).internal_measure.slot(cycle) == Fixed::zero(),
{
    lemma_no_impulse_fires_zero(neuron.fire_threshold);
}

/// An aggregation pass for one phase leaves the output for the other
/// phase as it was, and so does the learning step that may follow it.
pub proof fn lemma_other_phase_is_untouched(
    neuron: NeuronView,
    cycle: ChargeCycle,
    readings: Seq<Fixed>,
)
    ensures
        neuron.after_static_cycle(cycle, readings).internal_measure.slot(cycle.flipped())
            == neuron.internal_measure.slot(cycle.flipped()),
        neuron.after_cycle(cycle, readings).internal_measure.slot(cycle.flipped())
            == neuron.internal_measure.slot(cycle.flipped()),
{
}

/// After a clear a read of either phase gives zero, whatever the neuron
/// did before.
pub proof fn lemma_clear_reads_zero(neuron: NeuronView, cycle: ChargeCycle)
    ensures
        neuron.after_clear().internal_measure.slot(cycle) == Fixed::zero(),
{
}

/// A clear leaves the weights and the held impulses alone.
pub proof fn lemma_clear_keeps_synapses(neuron: NeuronView)
    ensures
        neuron.after_clear().synapses == neuron.synapses,
{
}

/// A second aggregation pass for the same phase on the same readings,
/// with no learning step in between, changes nothing: the output is a
/// function of the synapses and the readings.
pub proof fn lemma_static_cycle_is_repeatable(
    neuron: NeuronView,
    cycle: ChargeCycle,
    readings: Seq<Fixed>,
)
    requires
        neuron.fits(readings),
    ensures
        neuron.after_static_cycle(cycle, readings).after_static_cycle(cycle, readings)
            == neuron.after_static_cycle(cycle, readings),
{
    let once = neuron.after_static_cycle(cycle, readings);
    let twice = once.after_static_cycle(cycle, readings);
    assert(once.impulses(readings) =~= neuron.impulses(readings));
    assert(twice.synapses =~= once.synapses);
}

/// A learning step leaves every weight at zero or above and under the
/// ceiling, whatever the weights were before.  Left out are the synapses
/// for which the rule itself leaves the range.
pub proof fn lemma_update_keeps_weights_in_range(neuron: NeuronView, cycle: ChargeCycle)
    requires
        forall|i: int|
            0 <= i < neuron.synapses.len() ==> rule_keeps_range(
                (#[trigger] neuron.synapses[i]).weight,
                neuron.max_synapse_weight,
                neuron.learning_constant,
                neuron.synapses[i].last_impulse->0.measure,
                neuron.internal_measure.slot(cycle),
            ),
    ensures
        forall|i: int|
            0 <= i < neuron.synapses.len() ==> 0 <= (#[trigger] neuron.after_update(
                cycle,
            ).synapses[i]).weight.raw < neuron.max_synapse_weight.raw,
{
    assert forall|i: int| 0 <= i < neuron.synapses.len() implies 0 <= (
    #[trigger] neuron.after_update(cycle).synapses[i]).weight.raw
        < neuron.max_synapse_weight.raw by {
        let before = neuron.synapses[i];
        lemma_learned_weight_in_range(
            before.weight,
            neuron.max_synapse_weight,
            neuron.learning_constant,
            before.last_impulse->0.measure,
            neuron.internal_measure.slot(cycle),
        );
    }
}

/// A tick of one neuron for a phase leaves what every source shows for
/// the other phase as it was: the two slots of an output do not touch.
pub proof fn lemma_tick_keeps_earlier_phase(
    circuit: CircuitView,
    ticked: int,
    source: Source,
    cycle: ChargeCycle,
)
    requires
        0 <= ticked < circuit.neurons.len(),
        circuit.knows(source),
    ensures
        circuit.after_static_cycle(ticked, cycle).measure_of(source, cycle.flipped())
            == circuit.measure_of(source, cycle.flipped()),
        circuit.after_cycle(ticked, cycle).measure_of(source, cycle.flipped())
            == circuit.measure_of(source, cycle.flipped()),
{
}

/// A tick of one neuron for a phase changes nothing that any neuron reads
/// in a tick for that phase.
pub proof fn lemma_tick_keeps_readings(
    circuit: CircuitView,
    ticked: int,
    reader: int,
    cycle: ChargeCycle,
)
    requires
        circuit.wf(),
        0 <= ticked < circuit.neurons.len(),
        0 <= reader < circuit.neurons.len(),
    ensures
        circuit.after_static_cycle(ticked, cycle).readings(reader, cycle)
            == circuit.readings(reader, cycle),
        circuit.after_cycle(ticked, cycle).readings(reader, cycle)
            == circuit.readings(reader, cycle),
{
    let before = cycle.flipped();
    let synapses = circuit.neurons[reader].synapses;
    let ticked_once = circuit.after_static_cycle(ticked, cycle);
    let taught = circuit.after_cycle(ticked, cycle);
    assert forall|k: int| 0 <= k < synapses.len() implies {
        &&& ticked_once.measure_of(ticked_once.neurons[reader].synapses[k].source, before)
            == circuit.measure_of(#[trigger] synapses[k].source, before)
        &&& taught.measure_of(taught.neurons[reader].synapses[k].source, before)
            == circuit.measure_of(synapses[k].source, before)
    } by {
        lemma_tick_keeps_earlier_phase(circuit, ticked, synapses[k].source, cycle);
    }
    assert(ticked_once.readings(reader, cycle) =~= circuit.readings(reader, cycle));
    assert(taught.readings(reader, cycle) =~= circuit.readings(reader, cycle));
}

/// A second aggregation pass of a neuron for the same phase, with the
/// sensors as they were and no learning step in between, leaves the
/// circuit as the first pass left it, even where the neuron feeds itself.
pub proof fn lemma_circuit_static_cycle_is_repeatable(
    circuit: CircuitView,
    neuron: int,
    cycle: ChargeCycle,
)
    requires
        circuit.wf(),
        0 <= neuron < circuit.neurons.len(),
    ensures
        circuit.after_static_cycle(neuron, cycle).after_static_cycle(neuron, cycle)
            == circuit.after_static_cycle(neuron, cycle),
{
    lemma_tick_keeps_readings(circuit, neuron, neuron, cycle);
    lemma_static_cycle_is_repeatable(
        circuit.neurons[neuron],
        cycle,
        circuit.readings(neuron, cycle),
    );
    let once = circuit.after_static_cycle(neuron, cycle);
    assert(once.after_static_cycle(neuron, cycle).neurons =~= once.neurons);
}

/// The ticks of two neurons for one phase give the same circuit in either
/// order, with or without their learning steps, however the neurons are
/// wired: each reads what the other wrote a phase earlier.
pub proof fn lemma_ticks_of_one_phase_commute(
    circuit: CircuitView,
    first: int,
    second: int,
    cycle: ChargeCycle,
)
    requires
        circuit.wf(),
        0 <= first < circuit.neurons.len(),
        0 <= second < circuit.neurons.len(),
    ensures
        circuit.after_static_cycle(first, cycle).after_static_cycle(second, cycle)
            == circuit.after_static_cycle(second, cycle).after_static_cycle(first, cycle),
        circuit.after_cycle(first, cycle).after_cycle(second, cycle)
            == circuit.after_cycle(second, cycle).after_cycle(first, cycle),
{
    lemma_tick_keeps_readings(circuit, first, second, cycle);
    lemma_tick_keeps_readings(circuit, second, first, cycle);
    assert(circuit.after_static_cycle(first, cycle).after_static_cycle(second, cycle).neurons
        =~= circuit.after_static_cycle(second, cycle).after_static_cycle(first, cycle).neurons);
    assert(circuit.after_cycle(first, cycle).after_cycle(second, cycle).neurons
        =~= circuit.after_cycle(second, cycle).after_cycle(first, cycle).neurons);
}

} // verus!
