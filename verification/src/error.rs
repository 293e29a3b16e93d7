//! What the core reports instead of computing.

use vstd::prelude::*;

verus! {

/// The two ways in which a call can be refused.
#[derive(Clone, Copy, Debug, PartialEq, Eq, Structural)]
pub enum NeuronError {
    /// An argument does not fit what it is applied to.
    InvalidParameter,
    /// Learning was asked for on a phase for which some synapse holds no
    /// impulse: no aggregation pass came before it.
    PrecededByAggregation,
}

} // verus!
