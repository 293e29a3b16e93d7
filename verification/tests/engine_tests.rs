use neuronic::firing::fire;
use neuronic::heap::ImpulseHeap;
use neuronic::ranking::Ranked;
use neuronic::{
    ChargeCycle, Circuit, Fixed, Impulse, Neuron, NeuronError, Neuronic, NeuronicInput,
    NeuronicSensor, Source, SynapticType,
};

fn raw(value: i64) -> Fixed {
    Fixed::from_raw(value)
}

fn impulse(measure: i64, weight: i64) -> Impulse {
    Impulse::new(raw(measure), raw(weight))
}

fn readings(values: &[i64]) -> Vec<Fixed> {
    values.iter().map(|value| raw(*value)).collect()
}

/// Takes the impulses by descending measure, earlier ones first among
/// equals, and returns the measure at which the running total reaches
/// the threshold.
fn fire_by_sorting(impulses: &[Impulse], threshold: Fixed) -> Fixed {
    let mut order: Vec<usize> = (0..impulses.len()).collect();
    order.sort_by(|a, b| {
        impulses[*b].measure.raw.cmp(&impulses[*a].measure.raw).then(a.cmp(b))
    });
    let mut total: i128 = 0;
    for position in order {
        total += impulses[position].weight.raw as i128;
        if total >= threshold.raw as i128 {
            return impulses[position].measure;
        }
    }
    raw(0)
}

/// Threshold 10, ceiling 8, and the synapses 6 and 7.5 exciting, 3 and 7
/// inhibiting, on the sensors 0 to 3.
fn sample_neuron(learning_constant: i64) -> Neuron {
    let mut neuron = Neuron::new(raw(10_000_000), raw(8_000_000), raw(learning_constant));
    neuron.create_synapse(raw(6_000_000), SynapticType::Excitatory, Source::Sensor(0));
    neuron.create_synapse(raw(7_500_000), SynapticType::Excitatory, Source::Sensor(1));
    neuron.create_synapse(raw(3_000_000), SynapticType::Inhibitory, Source::Sensor(2));
    neuron.create_synapse(raw(7_000_000), SynapticType::Inhibitory, Source::Sensor(3));
    neuron
}

fn weights(neuron: &Neuron) -> Vec<i64> {
    neuron.synapses().iter().map(|synapse| synapse.weight.raw).collect()
}

#[test]
fn nothing_fires_without_impulses() {
    assert_eq!(fire(&Vec::new(), raw(10_000_000)), raw(0));
    assert_eq!(fire(&Vec::new(), raw(0)), raw(0));
    assert_eq!(fire(&Vec::new(), raw(-1)), raw(0));
}

#[test]
fn fires_with_the_measure_that_crosses_the_threshold() {
    let impulses = vec![
        impulse(900_000, 6_000_000),
        impulse(800_000, 7_500_000),
        impulse(300_000, -3_000_000),
        impulse(400_000, -7_000_000),
    ];
    assert_eq!(fire(&impulses, raw(10_000_000)), raw(800_000));
}

#[test]
fn fires_with_the_first_impulse_when_it_suffices() {
    let impulses = vec![impulse(100_000, 1_000_000), impulse(700_000, 5_000_000)];
    assert_eq!(fire(&impulses, raw(5_000_000)), raw(700_000));
}

#[test]
fn fires_when_the_total_equals_the_threshold() {
    let impulses = vec![impulse(500_000, 4_000_000), impulse(600_000, 6_000_000)];
    assert_eq!(fire(&impulses, raw(10_000_000)), raw(500_000));
    assert_eq!(fire(&impulses, raw(10_000_001)), raw(0));
}

#[test]
fn stays_silent_when_the_threshold_is_not_reached() {
    let impulses = vec![
        impulse(700_000, 6_000_000),
        impulse(900_000, 7_500_000),
        impulse(400_000, -3_000_000),
        impulse(950_000, -7_000_000),
    ];
    // -7, 0.5, 6.5, 3.5
    assert_eq!(fire(&impulses, raw(10_000_000)), raw(0));
}

#[test]
fn output_is_a_measure_and_never_a_total() {
    let impulses = vec![
        impulse(123_456, 5_000_000),
        impulse(654_321, 4_000_000),
        impulse(-250_000, 3_000_000),
    ];
    // 4, 9, 12: the last and least impulse crosses
    assert_eq!(fire(&impulses, raw(10_000_000)), raw(-250_000));
    // 4, 9
    assert_eq!(fire(&impulses, raw(9_000_000)), raw(123_456));
    assert_eq!(fire(&impulses, raw(4_000_000)), raw(654_321));
    assert_eq!(fire(&impulses, raw(12_000_001)), raw(0));
}

#[test]
fn a_threshold_of_zero_or_less_can_be_reached_at_once() {
    let impulses = vec![impulse(200_000, 0), impulse(300_000, 0)];
    assert_eq!(fire(&impulses, raw(0)), raw(300_000));
    assert_eq!(fire(&impulses, raw(1)), raw(0));

    let inhibited = vec![impulse(200_000, 1), impulse(300_000, -2)];
    // -2, -1
    assert_eq!(fire(&inhibited, raw(0)), raw(0));
    assert_eq!(fire(&inhibited, raw(-1)), raw(200_000));
    assert_eq!(fire(&inhibited, raw(-2)), raw(300_000));
    assert_eq!(fire(&inhibited, raw(-3)), raw(300_000));
}

#[test]
fn equal_measures_are_taken_in_order_of_attachment() {
    let exciting_first = vec![impulse(500_000, 6_000_000), impulse(500_000, -6_000_000)];
    assert_eq!(fire(&exciting_first, raw(6_000_000)), raw(500_000));

    let inhibiting_first = vec![impulse(500_000, -6_000_000), impulse(500_000, 6_000_000)];
    assert_eq!(fire(&inhibiting_first, raw(6_000_000)), raw(0));

    let mixed = vec![
        impulse(500_000, -1_000_000),
        impulse(900_000, 2_000_000),
        impulse(500_000, 4_000_000),
        impulse(500_000, -4_000_000),
        impulse(100_000, 9_000_000),
    ];
    // 2, 1, 5, 1, 10
    assert_eq!(fire(&mixed, raw(5_000_000)), raw(500_000));
    assert_eq!(fire(&mixed, raw(5_000_001)), raw(100_000));
}

#[test]
fn totals_beyond_the_range_of_one_weight_are_kept() {
    let impulses = vec![
        impulse(5, i64::MIN),
        impulse(4, i64::MIN),
        impulse(3, i64::MAX),
        impulse(2, i64::MAX),
        impulse(1, 5),
    ];
    // the total sinks to twice the least weight and comes back to -2,
    // then to 3
    assert_eq!(fire(&impulses, raw(3)), raw(1));
    assert_eq!(fire(&impulses, raw(4)), raw(0));
    assert_eq!(fire(&impulses, raw(-2)), raw(2));
    assert_eq!(fire(&impulses, raw(i64::MIN)), raw(5));

    let rising = vec![
        impulse(5, i64::MAX),
        impulse(4, i64::MAX),
        impulse(3, i64::MAX),
        impulse(2, i64::MIN),
        impulse(1, i64::MIN),
        impulse(0, i64::MIN),
        impulse(-1, 2),
    ];
    // three times the greatest weight, then down to -3, then -1
    assert_eq!(fire(&rising, raw(i64::MAX)), raw(5));
    let mut falling = rising.clone();
    falling.reverse();
    // the same impulses come in the same order, whatever their places
    assert_eq!(fire(&falling, raw(i64::MAX)), raw(5));
    let without_top: Vec<Impulse> = rising[3..].to_vec();
    assert_eq!(fire(&without_top, raw(i64::MIN)), raw(2));
    assert_eq!(fire(&without_top, raw(i64::MIN + 1)), raw(0));
}

#[test]
fn many_impulses_fire_as_sorting_them_would() {
    let mut state: u64 = 0x9e37_79b9_7f4a_7c15;
    let mut next = move || {
        state = state.wrapping_mul(6364136223846793005).wrapping_add(1442695040888963407);
        (state >> 33) as i64
    };
    for round in 0..60 {
        let count = 1 + (next() % 150) as usize;
        let mut impulses = Vec::new();
        for _ in 0..count {
            // few distinct measures, so that many impulses tie
            let measure = (next() % 40) * 25_000;
            let weight = (next() % 16_000_001) - 8_000_000;
            impulses.push(impulse(measure, weight));
        }
        let threshold = raw((round % 7) * 5_000_000 + (next() % 3_000_000));
        let fired = fire(&impulses, threshold);
        assert_eq!(fired, fire_by_sorting(&impulses, threshold));
        assert!(fired == raw(0) || impulses.iter().any(|one| one.measure == fired));
    }
}

#[test]
fn scenario_second_highest_measure_fires() {
    let mut circuit = Circuit::new();
    let neuron = circuit.add_neuron(raw(10_000_000), raw(8_000_000), raw(3_000_000)).unwrap();
    let wiring = [
        (6_000_000, SynapticType::Excitatory, 900_000),
        (7_500_000, SynapticType::Excitatory, 800_000),
        (3_000_000, SynapticType::Inhibitory, 300_000),
        (7_000_000, SynapticType::Inhibitory, 400_000),
    ];
    for (weight, synaptic_type, measure) in wiring {
        let sensor = circuit.add_sensor();
        circuit.create_synapse(neuron, raw(weight), synaptic_type, Source::Sensor(sensor)).unwrap();
        circuit.set_measure(sensor, raw(measure)).unwrap();
    }

    assert_eq!(circuit.run_static_cycle(neuron, ChargeCycle::Even), Ok(()));

    assert_eq!(circuit.get_measure(Source::Neuron(neuron), ChargeCycle::Even), Some(raw(800_000)));
    assert_eq!(circuit.get_measure(Source::Neuron(neuron), ChargeCycle::Odd), Some(raw(0)));
}

#[test]
fn new_neuron_reads_zero_and_has_no_synapses() {
    let neuron = Neuron::new(raw(10_000_000), raw(8_000_000), raw(100_000));
    assert_eq!(neuron.get_measure(ChargeCycle::Even), raw(0));
    assert_eq!(neuron.get_measure(ChargeCycle::Odd), raw(0));
    assert!(neuron.synapses().is_empty());
}

#[test]
fn synapses_are_kept_in_order_of_attachment() {
    let neuron = sample_neuron(100_000);
    let synapses = neuron.synapses();
    assert_eq!(synapses.len(), 4);
    assert_eq!(weights(&neuron), vec![6_000_000, 7_500_000, 3_000_000, 7_000_000]);
    assert_eq!(synapses[0].synaptic_type, SynapticType::Excitatory);
    assert_eq!(synapses[3].synaptic_type, SynapticType::Inhibitory);
    for (position, synapse) in synapses.iter().enumerate() {
        assert_eq!(synapse.source, Source::Sensor(position));
        assert!(synapse.last_impulse.is_none());
    }
}

#[test]
fn neuron_without_synapses_writes_zero() {
    for threshold in [10_000_000, 0, -5_000_000] {
        let mut neuron = Neuron::new(raw(threshold), raw(8_000_000), raw(100_000));
        for cycle in [ChargeCycle::Even, ChargeCycle::Odd, ChargeCycle::Even] {
            assert_eq!(neuron.run_static_cycle(cycle, &Vec::new()), Ok(()));
            assert_eq!(neuron.get_measure(ChargeCycle::Even), raw(0));
            assert_eq!(neuron.get_measure(ChargeCycle::Odd), raw(0));
            assert_eq!(neuron.run_cycle(cycle, &Vec::new()), Ok(()));
            assert_eq!(neuron.get_measure(ChargeCycle::Even), raw(0));
            assert_eq!(neuron.get_measure(ChargeCycle::Odd), raw(0));
        }
    }
}

#[test]
fn static_cycle_writes_one_slot_and_holds_the_impulses() {
    let mut neuron = sample_neuron(100_000);

    assert_eq!(
        neuron.run_static_cycle(ChargeCycle::Odd, &readings(&[900_000, 800_000, 300_000, 400_000])),
        Ok(())
    );

    assert_eq!(neuron.get_measure(ChargeCycle::Odd), raw(800_000));
    assert_eq!(neuron.get_measure(ChargeCycle::Even), raw(0));
    assert_eq!(weights(&neuron), vec![6_000_000, 7_500_000, 3_000_000, 7_000_000]);

    let held: Vec<(i64, i64)> = neuron
        .synapses()
        .iter()
        .map(|synapse| {
            let impulse = synapse.last_impulse.unwrap();
            assert_eq!(synapse.last_cycle, ChargeCycle::Odd);
            (impulse.measure.raw, impulse.weight.raw)
        })
        .collect();
    assert_eq!(
        held,
        vec![
            (900_000, 6_000_000),
            (800_000, 7_500_000),
            (300_000, -3_000_000),
            (400_000, -7_000_000)
        ]
    );
}

#[test]
fn writing_one_phase_keeps_the_other() {
    let mut neuron = sample_neuron(100_000);

    neuron
        .run_static_cycle(ChargeCycle::Even, &readings(&[900_000, 800_000, 300_000, 400_000]))
        .unwrap();
    assert_eq!(neuron.get_measure(ChargeCycle::Even), raw(800_000));
    assert_eq!(neuron.get_measure(ChargeCycle::Odd), raw(0));

    neuron
        .run_static_cycle(ChargeCycle::Odd, &readings(&[800_000, 700_000, 900_000, 400_000]))
        .unwrap();
    assert_eq!(neuron.get_measure(ChargeCycle::Even), raw(800_000));
    assert_eq!(neuron.get_measure(ChargeCycle::Odd), raw(700_000));

    neuron.run_cycle(ChargeCycle::Even, &readings(&[700_000, 900_000, 400_000, 950_000])).unwrap();
    assert_eq!(neuron.get_measure(ChargeCycle::Even), raw(0));
    assert_eq!(neuron.get_measure(ChargeCycle::Odd), raw(700_000));
}

#[test]
fn wrong_number_of_readings_is_refused() {
    let mut neuron = sample_neuron(100_000);
    neuron
        .run_static_cycle(ChargeCycle::Even, &readings(&[900_000, 800_000, 300_000, 400_000]))
        .unwrap();

    for wrong in [vec![], vec![900_000; 3], vec![900_000; 5]] {
        assert_eq!(
            neuron.run_static_cycle(ChargeCycle::Even, &readings(&wrong)),
            Err(NeuronError::InvalidParameter)
        );
        assert_eq!(
            neuron.run_cycle(ChargeCycle::Odd, &readings(&wrong)),
            Err(NeuronError::InvalidParameter)
        );
        assert_eq!(neuron.get_measure(ChargeCycle::Even), raw(800_000));
        assert_eq!(neuron.get_measure(ChargeCycle::Odd), raw(0));
        assert_eq!(weights(&neuron), vec![6_000_000, 7_500_000, 3_000_000, 7_000_000]);
        assert_eq!(neuron.synapses()[0].last_impulse.unwrap().measure, raw(900_000));
        assert_eq!(neuron.synapses()[0].last_cycle, ChargeCycle::Even);
    }
}

#[test]
fn learning_before_any_aggregation_is_refused() {
    let mut neuron = sample_neuron(100_000);
    assert_eq!(neuron.update_synapses(ChargeCycle::Even), Err(NeuronError::PrecededByAggregation));
    assert_eq!(neuron.update_synapses(ChargeCycle::Odd), Err(NeuronError::PrecededByAggregation));
    assert_eq!(weights(&neuron), vec![6_000_000, 7_500_000, 3_000_000, 7_000_000]);
}

#[test]
fn learning_for_the_other_phase_is_refused() {
    let mut neuron = sample_neuron(100_000);
    neuron
        .run_static_cycle(ChargeCycle::Even, &readings(&[800_000, 900_000, 900_000, 400_000]))
        .unwrap();

    assert_eq!(neuron.update_synapses(ChargeCycle::Odd), Err(NeuronError::PrecededByAggregation));
    assert_eq!(weights(&neuron), vec![6_000_000, 7_500_000, 3_000_000, 7_000_000]);

    assert_eq!(neuron.update_synapses(ChargeCycle::Even), Ok(()));
    assert_eq!(weights(&neuron), vec![6_160_000, 7_535_000, 3_350_000, 7_040_000]);
}

#[test]
fn learning_with_a_synapse_attached_after_the_pass_is_refused() {
    let mut neuron = sample_neuron(100_000);
    neuron
        .run_static_cycle(ChargeCycle::Even, &readings(&[800_000, 900_000, 900_000, 400_000]))
        .unwrap();
    neuron.create_synapse(raw(1_000_000), SynapticType::Excitatory, Source::Sensor(4));

    assert_eq!(neuron.update_synapses(ChargeCycle::Even), Err(NeuronError::PrecededByAggregation));
    assert_eq!(weights(&neuron), vec![6_000_000, 7_500_000, 3_000_000, 7_000_000, 1_000_000]);
}

#[test]
fn neuron_without_synapses_has_nothing_to_learn() {
    let mut neuron = Neuron::new(raw(10_000_000), raw(8_000_000), raw(100_000));
    assert_eq!(neuron.update_synapses(ChargeCycle::Even), Ok(()));
    assert_eq!(neuron.update_synapses(ChargeCycle::Odd), Ok(()));
}

#[test]
fn learning_moves_each_weight_by_the_rule() {
    let mut neuron = sample_neuron(100_000);

    // fires with 0.8
    neuron
        .run_static_cycle(ChargeCycle::Even, &readings(&[800_000, 900_000, 900_000, 400_000]))
        .unwrap();
    assert_eq!(neuron.get_measure(ChargeCycle::Even), raw(800_000));
    neuron.update_synapses(ChargeCycle::Even).unwrap();
    assert_eq!(weights(&neuron), vec![6_160_000, 7_535_000, 3_350_000, 7_040_000]);
    assert_eq!(neuron.get_measure(ChargeCycle::Even), raw(800_000));
    assert_eq!(neuron.get_measure(ChargeCycle::Odd), raw(0));

    // stays silent
    neuron.run_cycle(ChargeCycle::Odd, &readings(&[800_000, 900_000, 900_000, 900_000])).unwrap();
    assert_eq!(neuron.get_measure(ChargeCycle::Odd), raw(0));
    assert_eq!(weights(&neuron), vec![6_012_800, 7_493_150, 2_931_500, 6_953_600]);

    // fires with 0.9
    neuron.run_cycle(ChargeCycle::Even, &readings(&[900_000, 900_000, 400_000, 400_000])).unwrap();
    assert_eq!(neuron.get_measure(ChargeCycle::Even), raw(900_000));
    assert_eq!(weights(&neuron), vec![6_191_648, 7_538_767, 3_134_240, 6_995_456]);
}

#[test]
fn run_cycle_is_a_pass_followed_by_learning() {
    let mut together = sample_neuron(100_000);
    let mut apart = sample_neuron(100_000);
    let signals = readings(&[800_000, 900_000, 900_000, 400_000]);

    together.run_cycle(ChargeCycle::Odd, &signals).unwrap();
    apart.run_static_cycle(ChargeCycle::Odd, &signals).unwrap();
    apart.update_synapses(ChargeCycle::Odd).unwrap();

    assert_eq!(weights(&together), weights(&apart));
    assert_eq!(weights(&together), vec![6_160_000, 7_535_000, 3_350_000, 7_040_000]);
    for cycle in [ChargeCycle::Even, ChargeCycle::Odd] {
        assert_eq!(together.get_measure(cycle), apart.get_measure(cycle));
    }
}

#[test]
fn weights_stay_in_range_over_many_updates() {
    let mut neuron = sample_neuron(3_000_000);
    let mut state: u64 = 7;
    let mut cycle = ChargeCycle::Even;
    for _ in 0..500 {
        let mut signals = Vec::new();
        for _ in 0..4 {
            state = state.wrapping_mul(6364136223846793005).wrapping_add(1442695040888963407);
            // signals between 0 and 1
            signals.push(raw(((state >> 33) % 500_000) as i64 * 2 + 1));
        }
        neuron.run_cycle(cycle, &signals).unwrap();
        for weight in weights(&neuron) {
            assert!(0 <= weight && weight < 8_000_000, "weight {} left the range", weight);
        }
        cycle = cycle.next_cycle();
    }
}

#[test]
fn clear_zeroes_the_output_and_keeps_what_was_learned() {
    let mut neuron = sample_neuron(100_000);
    neuron.run_cycle(ChargeCycle::Even, &readings(&[800_000, 900_000, 900_000, 400_000])).unwrap();
    neuron
        .run_static_cycle(ChargeCycle::Odd, &readings(&[900_000, 900_000, 400_000, 400_000]))
        .unwrap();
    assert_eq!(neuron.get_measure(ChargeCycle::Even), raw(800_000));
    assert_eq!(neuron.get_measure(ChargeCycle::Odd), raw(900_000));

    neuron.clear();

    assert_eq!(neuron.get_measure(ChargeCycle::Even), raw(0));
    assert_eq!(neuron.get_measure(ChargeCycle::Odd), raw(0));
    assert_eq!(weights(&neuron), vec![6_160_000, 7_535_000, 3_350_000, 7_040_000]);
    assert_eq!(neuron.synapses()[2].last_impulse.unwrap().measure, raw(400_000));
    assert_eq!(neuron.synapses()[2].last_cycle, ChargeCycle::Odd);

    // the held impulses still serve the learning step of their phase
    assert_eq!(neuron.update_synapses(ChargeCycle::Odd), Ok(()));

    neuron.clear();
    assert_eq!(neuron.get_measure(ChargeCycle::Even), raw(0));
    assert_eq!(neuron.get_measure(ChargeCycle::Odd), raw(0));
}

#[test]
fn aggregation_twice_gives_the_same_output() {
    let mut neuron = sample_neuron(100_000);
    let signals = readings(&[700_000, 900_000, 800_000, 400_000]);

    neuron.run_static_cycle(ChargeCycle::Even, &signals).unwrap();
    let first = neuron.get_measure(ChargeCycle::Even);
    let held_first = neuron.synapses()[1].last_impulse.unwrap();

    neuron.run_static_cycle(ChargeCycle::Even, &signals).unwrap();
    let second = neuron.get_measure(ChargeCycle::Even);
    let held_second = neuron.synapses()[1].last_impulse.unwrap();

    assert_eq!(first, raw(700_000));
    assert_eq!(second, first);
    assert_eq!(held_second.measure, held_first.measure);
    assert_eq!(held_second.weight, held_first.weight);
    assert_eq!(neuron.get_measure(ChargeCycle::Odd), raw(0));
    assert_eq!(weights(&neuron), vec![6_000_000, 7_500_000, 3_000_000, 7_000_000]);
}

#[test]
fn sensor_shows_the_same_for_both_phases() {
    let mut sensor = NeuronicSensor::new();
    assert_eq!(sensor.get_measure(ChargeCycle::Even), raw(0));
    for value in [600_000, -1, i64::MAX, i64::MIN, 0] {
        sensor.set_measure(raw(value));
        assert_eq!(sensor.get_measure(ChargeCycle::Even), raw(value));
        assert_eq!(sensor.get_measure(ChargeCycle::Odd), raw(value));
    }
}

#[test]
fn empty_circuit_knows_nothing() {
    let mut circuit = Circuit::new();
    assert_eq!(circuit.sensor_count(), 0);
    assert_eq!(circuit.neuron_count(), 0);
    assert_eq!(circuit.get_measure(Source::Sensor(0), ChargeCycle::Even), None);
    assert_eq!(circuit.get_measure(Source::Neuron(0), ChargeCycle::Odd), None);
    assert!(circuit.neuron(0).is_none());
    assert_eq!(circuit.set_measure(0, raw(1)), Err(NeuronError::InvalidParameter));
    assert_eq!(circuit.run_static_cycle(0, ChargeCycle::Even), Err(NeuronError::InvalidParameter));
    assert_eq!(circuit.run_cycle(0, ChargeCycle::Even), Err(NeuronError::InvalidParameter));
    assert_eq!(circuit.update_synapses(0, ChargeCycle::Even), Err(NeuronError::InvalidParameter));
    assert_eq!(circuit.clear(0), Err(NeuronError::InvalidParameter));
}

#[test]
fn circuit_numbers_what_is_added() {
    let mut circuit = Circuit::new();
    assert_eq!(circuit.add_sensor(), 0);
    assert_eq!(circuit.add_neuron(raw(10_000_000), raw(8_000_000), raw(100_000)), Ok(0));
    assert_eq!(circuit.add_sensor(), 1);
    assert_eq!(circuit.add_neuron(raw(1_000_000), raw(2_000_000), raw(3_000_000)), Ok(1));
    assert_eq!(circuit.sensor_count(), 2);
    assert_eq!(circuit.neuron_count(), 2);
    assert_eq!(circuit.get_measure(Source::Sensor(1), ChargeCycle::Even), Some(raw(0)));
    assert_eq!(circuit.get_measure(Source::Neuron(1), ChargeCycle::Odd), Some(raw(0)));
    assert_eq!(circuit.get_measure(Source::Sensor(2), ChargeCycle::Even), None);
    assert_eq!(circuit.get_measure(Source::Neuron(2), ChargeCycle::Even), None);
    assert!(circuit.neuron(1).unwrap().synapses().is_empty());
    assert!(circuit.neuron(2).is_none());
}

#[test]
fn circuit_refuses_a_ceiling_that_is_not_positive() {
    let mut circuit = Circuit::new();
    assert_eq!(
        circuit.add_neuron(raw(10_000_000), raw(0), raw(100_000)),
        Err(NeuronError::InvalidParameter)
    );
    assert_eq!(
        circuit.add_neuron(raw(10_000_000), raw(-8_000_000), raw(100_000)),
        Err(NeuronError::InvalidParameter)
    );
    assert_eq!(circuit.neuron_count(), 0);
    assert_eq!(circuit.add_neuron(raw(-10_000_000), raw(1), raw(-100_000)), Ok(0));
    assert_eq!(circuit.neuron_count(), 1);
}

#[test]
fn circuit_refuses_a_synapse_that_does_not_fit() {
    let mut circuit = Circuit::new();
    let sensor = circuit.add_sensor();
    let neuron = circuit.add_neuron(raw(10_000_000), raw(8_000_000), raw(100_000)).unwrap();
    let excitatory = SynapticType::Excitatory;

    let refused = Err(NeuronError::InvalidParameter);
    assert_eq!(
        circuit.create_synapse(neuron + 1, raw(1), excitatory, Source::Sensor(sensor)),
        refused
    );
    assert_eq!(
        circuit.create_synapse(neuron, raw(1), excitatory, Source::Sensor(sensor + 1)),
        refused
    );
    assert_eq!(
        circuit.create_synapse(neuron, raw(1), excitatory, Source::Neuron(neuron + 1)),
        refused
    );
    assert_eq!(
        circuit.create_synapse(neuron, raw(-1), excitatory, Source::Sensor(sensor)),
        refused
    );
    assert_eq!(
        circuit.create_synapse(neuron, raw(-1), SynapticType::Inhibitory, Source::Neuron(neuron)),
        refused
    );
    assert!(circuit.neuron(neuron).unwrap().synapses().is_empty());

    assert_eq!(circuit.create_synapse(neuron, raw(0), excitatory, Source::Sensor(sensor)), Ok(()));
    assert_eq!(
        circuit.create_synapse(
            neuron,
            raw(9_000_000),
            SynapticType::Inhibitory,
            Source::Neuron(neuron)
        ),
        Ok(())
    );
    let synapses = circuit.neuron(neuron).unwrap().synapses();
    assert_eq!(synapses.len(), 2);
    assert_eq!(synapses[0].weight, raw(0));
    assert_eq!(synapses[1].weight, raw(9_000_000));
    assert_eq!(synapses[1].source, Source::Neuron(neuron));
}

#[test]
fn circuit_refuses_learning_without_a_pass() {
    let mut circuit = Circuit::new();
    let sensor = circuit.add_sensor();
    let neuron = circuit.add_neuron(raw(10_000_000), raw(8_000_000), raw(100_000)).unwrap();
    circuit
        .create_synapse(neuron, raw(6_000_000), SynapticType::Excitatory, Source::Sensor(sensor))
        .unwrap();

    assert_eq!(
        circuit.update_synapses(neuron, ChargeCycle::Even),
        Err(NeuronError::PrecededByAggregation)
    );
    circuit.run_static_cycle(neuron, ChargeCycle::Even).unwrap();
    assert_eq!(
        circuit.update_synapses(neuron, ChargeCycle::Odd),
        Err(NeuronError::PrecededByAggregation)
    );
    assert_eq!(circuit.update_synapses(neuron, ChargeCycle::Even), Ok(()));
}

#[test]
fn neuron_reads_its_sources_one_phase_back() {
    let mut circuit = Circuit::new();
    let sensor = circuit.add_sensor();
    let relay = circuit.add_neuron(raw(1_000_000), raw(8_000_000), raw(0)).unwrap();
    let listener = circuit.add_neuron(raw(1_000_000), raw(8_000_000), raw(0)).unwrap();
    circuit
        .create_synapse(relay, raw(1_000_000), SynapticType::Excitatory, Source::Sensor(sensor))
        .unwrap();
    circuit
        .create_synapse(listener, raw(1_000_000), SynapticType::Excitatory, Source::Neuron(relay))
        .unwrap();

    circuit.set_measure(sensor, raw(700_000)).unwrap();
    circuit.run_static_cycle(relay, ChargeCycle::Even).unwrap();
    circuit.run_static_cycle(listener, ChargeCycle::Even).unwrap();
    // the listener read the odd slot of the relay, which is still zero
    assert_eq!(circuit.get_measure(Source::Neuron(relay), ChargeCycle::Even), Some(raw(700_000)));
    assert_eq!(circuit.get_measure(Source::Neuron(listener), ChargeCycle::Even), Some(raw(0)));

    circuit.set_measure(sensor, raw(300_000)).unwrap();
    circuit.run_static_cycle(relay, ChargeCycle::Odd).unwrap();
    circuit.run_static_cycle(listener, ChargeCycle::Odd).unwrap();
    // now it read the even slot
    assert_eq!(circuit.get_measure(Source::Neuron(relay), ChargeCycle::Odd), Some(raw(300_000)));
    assert_eq!(circuit.get_measure(Source::Neuron(listener), ChargeCycle::Odd), Some(raw(700_000)));
    assert_eq!(circuit.get_measure(Source::Neuron(listener), ChargeCycle::Even), Some(raw(0)));

    circuit.run_static_cycle(listener, ChargeCycle::Even).unwrap();
    assert_eq!(
        circuit.get_measure(Source::Neuron(listener), ChargeCycle::Even),
        Some(raw(300_000))
    );
}

#[test]
fn neuron_that_feeds_itself_reads_its_other_slot() {
    let mut circuit = Circuit::new();
    let sensor = circuit.add_sensor();
    let neuron = circuit.add_neuron(raw(1_000_000), raw(8_000_000), raw(0)).unwrap();
    circuit
        .create_synapse(neuron, raw(1_000_000), SynapticType::Excitatory, Source::Neuron(neuron))
        .unwrap();
    circuit
        .create_synapse(neuron, raw(1_000_000), SynapticType::Excitatory, Source::Sensor(sensor))
        .unwrap();

    circuit.set_measure(sensor, raw(500_000)).unwrap();
    circuit.run_static_cycle(neuron, ChargeCycle::Even).unwrap();
    assert_eq!(circuit.get_measure(Source::Neuron(neuron), ChargeCycle::Even), Some(raw(500_000)));

    // the own even slot, 0.5, now ranks above the sensor at 0.2
    circuit.set_measure(sensor, raw(200_000)).unwrap();
    circuit.run_static_cycle(neuron, ChargeCycle::Odd).unwrap();
    assert_eq!(circuit.get_measure(Source::Neuron(neuron), ChargeCycle::Odd), Some(raw(500_000)));
    assert_eq!(circuit.get_measure(Source::Neuron(neuron), ChargeCycle::Even), Some(raw(500_000)));
}

/// Two neurons on four sensors and a third neuron on those two.
fn three_neurons() -> (Circuit, [usize; 3]) {
    let mut circuit = Circuit::new();
    let a = circuit.add_neuron(raw(10_000_000), raw(8_000_000), raw(3_000_000)).unwrap();
    let b = circuit.add_neuron(raw(10_000_000), raw(8_000_000), raw(3_000_000)).unwrap();
    let c = circuit.add_neuron(raw(10_000_000), raw(8_000_000), raw(3_000_000)).unwrap();
    let kinds = [
        SynapticType::Excitatory,
        SynapticType::Excitatory,
        SynapticType::Excitatory,
        SynapticType::Inhibitory,
    ];
    let weights_a = [6_000_000, 7_000_000, 4_000_000, 8_000_000];
    let weights_b = [2_000_000, 4_000_000, 8_000_000, 8_000_000];
    for i in 0..4 {
        let sensor = circuit.add_sensor();
        circuit.create_synapse(a, raw(weights_a[i]), kinds[i], Source::Sensor(sensor)).unwrap();
        circuit.create_synapse(b, raw(weights_b[i]), kinds[i], Source::Sensor(sensor)).unwrap();
    }
    circuit.create_synapse(c, raw(8_000_000), SynapticType::Excitatory, Source::Neuron(a)).unwrap();
    circuit.create_synapse(c, raw(8_000_000), SynapticType::Excitatory, Source::Neuron(b)).unwrap();
    (circuit, [a, b, c])
}

fn snapshot(circuit: &Circuit) -> Vec<(i64, i64, Vec<i64>)> {
    (0..circuit.neuron_count())
        .map(|neuron| {
            (
                circuit.get_measure(Source::Neuron(neuron), ChargeCycle::Even).unwrap().raw,
                circuit.get_measure(Source::Neuron(neuron), ChargeCycle::Odd).unwrap().raw,
                weights(circuit.neuron(neuron).unwrap()),
            )
        })
        .collect()
}

#[test]
fn order_of_ticks_within_a_phase_makes_no_difference() {
    let orders: [[usize; 3]; 6] =
        [[0, 1, 2], [0, 2, 1], [1, 0, 2], [1, 2, 0], [2, 0, 1], [2, 1, 0]];
    let first_signals = [900_000, 800_000, 700_000, 200_000];
    let second_signals = [600_000, 800_000, 700_000, 900_000];

    let mut results = Vec::new();
    for order in orders {
        let (mut circuit, neurons) = three_neurons();
        for sensor in 0..4 {
            circuit.set_measure(sensor, raw(first_signals[sensor])).unwrap();
        }
        for position in order {
            circuit.run_static_cycle(neurons[position], ChargeCycle::Even).unwrap();
        }
        let [a, b, c] = neurons;
        // the third neuron read the odd slots of the other two, all zero
        assert_eq!(circuit.get_measure(Source::Neuron(a), ChargeCycle::Even), Some(raw(800_000)));
        assert_eq!(circuit.get_measure(Source::Neuron(b), ChargeCycle::Even), Some(raw(700_000)));
        assert_eq!(circuit.get_measure(Source::Neuron(c), ChargeCycle::Even), Some(raw(0)));

        for sensor in 0..4 {
            circuit.set_measure(sensor, raw(second_signals[sensor])).unwrap();
        }
        for position in order {
            circuit.run_cycle(neurons[position], ChargeCycle::Odd).unwrap();
        }
        // now it read their even slots, 0.8 and 0.7, and fired with the
        // second: 8 + 8 reaches 10
        assert_eq!(circuit.get_measure(Source::Neuron(a), ChargeCycle::Odd), Some(raw(0)));
        assert_eq!(circuit.get_measure(Source::Neuron(b), ChargeCycle::Odd), Some(raw(0)));
        assert_eq!(circuit.get_measure(Source::Neuron(c), ChargeCycle::Odd), Some(raw(700_000)));
        assert_eq!(circuit.get_measure(Source::Neuron(a), ChargeCycle::Even), Some(raw(800_000)));
        assert_eq!(circuit.get_measure(Source::Neuron(b), ChargeCycle::Even), Some(raw(700_000)));
        assert_eq!(circuit.get_measure(Source::Neuron(c), ChargeCycle::Even), Some(raw(0)));
        results.push(snapshot(&circuit));
    }
    for result in &results {
        assert_eq!(result, &results[0]);
    }
}

#[test]
fn circuit_clear_reaches_one_neuron_only() {
    let (mut circuit, [a, b, _]) = three_neurons();
    let signals = [900_000, 800_000, 700_000, 200_000];
    for sensor in 0..4 {
        circuit.set_measure(sensor, raw(signals[sensor])).unwrap();
    }
    circuit.run_static_cycle(a, ChargeCycle::Even).unwrap();
    circuit.run_static_cycle(b, ChargeCycle::Even).unwrap();

    assert_eq!(circuit.clear(a), Ok(()));

    assert_eq!(circuit.get_measure(Source::Neuron(a), ChargeCycle::Even), Some(raw(0)));
    assert_eq!(circuit.get_measure(Source::Neuron(a), ChargeCycle::Odd), Some(raw(0)));
    assert_eq!(circuit.get_measure(Source::Neuron(b), ChargeCycle::Even), Some(raw(700_000)));
    assert_eq!(circuit.get_measure(Source::Sensor(0), ChargeCycle::Even), Some(raw(900_000)));
}

#[test]
fn circuit_sensor_is_read_for_either_phase() {
    let mut circuit = Circuit::new();
    let sensor = circuit.add_sensor();
    assert_eq!(circuit.set_measure(sensor, raw(600_000)), Ok(()));
    assert_eq!(circuit.get_measure(Source::Sensor(sensor), ChargeCycle::Even), Some(raw(600_000)));
    assert_eq!(circuit.get_measure(Source::Sensor(sensor), ChargeCycle::Odd), Some(raw(600_000)));
    assert_eq!(circuit.set_measure(sensor, raw(400_000)), Ok(()));
    assert_eq!(circuit.get_measure(Source::Sensor(sensor), ChargeCycle::Even), Some(raw(400_000)));
    assert_eq!(circuit.get_measure(Source::Sensor(sensor), ChargeCycle::Odd), Some(raw(400_000)));
}

#[test]
fn heap_hands_out_by_measure_and_then_by_slot() {
    let mut heap = ImpulseHeap::new();
    assert!(heap.pop().is_none());

    let measures = [400_000, 900_000, 400_000, -100_000, 900_000, 0, 400_000];
    for (slot, measure) in measures.iter().enumerate() {
        heap.push(Ranked { impulse: impulse(*measure, slot as i64), slot });
    }

    let mut order = Vec::new();
    while let Some(entry) = heap.pop() {
        assert_eq!(entry.impulse.weight.raw, entry.slot as i64);
        order.push((entry.impulse.measure.raw, entry.slot));
    }
    assert_eq!(
        order,
        vec![
            (900_000, 1),
            (900_000, 4),
            (400_000, 0),
            (400_000, 2),
            (400_000, 6),
            (0, 5),
            (-100_000, 3)
        ]
    );
    assert!(heap.pop().is_none());

    // pushes and pops may alternate
    heap.push(Ranked { impulse: impulse(1, 0), slot: 0 });
    heap.push(Ranked { impulse: impulse(3, 0), slot: 1 });
    assert_eq!(heap.pop().unwrap().slot, 1);
    heap.push(Ranked { impulse: impulse(2, 0), slot: 2 });
    assert_eq!(heap.pop().unwrap().slot, 2);
    assert_eq!(heap.pop().unwrap().slot, 0);
    assert!(heap.pop().is_none());
}

#[test]
fn entries_rank_by_measure_and_then_by_slot() {
    let early_low = Ranked { impulse: impulse(400_000, 9), slot: 0 };
    let late_low = Ranked { impulse: impulse(400_000, -9), slot: 5 };
    let late_high = Ranked { impulse: impulse(900_000, 0), slot: 7 };

    assert!(late_high.outranks(early_low));
    assert!(!early_low.outranks(late_high));
    assert!(early_low.outranks(late_low));
    assert!(!late_low.outranks(early_low));
    assert!(!early_low.outranks(early_low));
}
