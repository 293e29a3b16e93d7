//! Discrete-time simulation core for small networks of threshold neurons.
//!
//! A [`Circuit`] holds sensors, set from outside, and neurons.  A neuron
//! listens to sensors and neurons through weighted synapses, exciting or
//! inhibiting.  Time runs in ticks that alternate between two phases, and
//! every neuron keeps one output for each phase.
//!
//! In a tick for a phase a neuron reads each of its sources for the phase
//! before, takes the signals by descending value while it adds up the
//! signed weights of their synapses, and writes as its output for the phase
//! the signal with which the sum first reaches its threshold, or zero.  A
//! learning step may follow, which moves each weight by what the synapse
//! read and what the neuron wrote.  As every read goes one phase back, the
//! neurons of a circuit may be ticked in any order, however they are wired.
//!
//! All numbers are [`Fixed`]: millionths in 64 bits, with saturating
//! arithmetic.
//!
//! Every function states what it returns and what it changes, over the
//! plain values that the types stand for, and is proved to do so.  The
//! module [`laws`] holds what is proved of all neurons and circuits.

pub mod circuit;
pub mod cycle;
pub mod error;
pub mod firing;
pub mod fixed;
pub mod heap;
pub mod impulse;
pub mod laws;
pub mod learning;
pub mod measure;
pub mod neuron;
pub mod ranking;
pub mod sensor;
pub mod synapse;

pub use circuit::Circuit;
pub use circuit::CircuitView;
pub use cycle::ChargeCycle;
pub use error::NeuronError;
pub use fixed::Fixed;
pub use impulse::Impulse;
pub use measure::InternalMeasure;
pub use neuron::Neuron;
pub use neuron::NeuronView;
pub use neuron::Neuronic;
pub use neuron::NeuronicInput;
pub use sensor::NeuronicSensor;
pub use synapse::Source;
pub use synapse::Synapse;
pub use synapse::SynapticType;
