//! The two alternating phases of a tick.

use vstd::prelude::*;

verus! {

/// One of the two phases that a circuit alternates between.
#[derive(Clone, Copy, Debug, PartialEq, Eq, Structural)]
pub enum ChargeCycle {
    Even,
    Odd,
}

impl ChargeCycle {
    /// The other phase.
    pub open spec fn flipped(self) -> ChargeCycle {
        match self {
            ChargeCycle::Even => ChargeCycle::Odd,
            ChargeCycle::Odd => ChargeCycle::Even,
        }
    }

    /// The phase that follows this one.
    pub fn next_cycle(&self) -> (next: ChargeCycle)
        ensures
            next == self.flipped(),
    {
        self.prev_cycle()
    }

    /// The phase that precedes this one.
    pub fn prev_cycle(&self) -> (prev: ChargeCycle)
        ensures
            prev == self.flipped(),
    {
        match self {
            ChargeCycle::Even => ChargeCycle::Odd,
            ChargeCycle::Odd => ChargeCycle::Even,
        }
    }
}

} // verus!
