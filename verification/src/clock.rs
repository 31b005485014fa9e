//! The read-only view of the simulation clock that the blend consumes once
//! per frame.

use vstd::prelude::*;

verus! {

/// How the simulation clock advances. Durations are integer nanoseconds.
///
/// Under a fixed step, `delta` is the tick period and `overstep` the time
/// elapsed since the last completed tick; a fixed-step clock always keeps
/// `overstep` strictly below `delta`. The blend supports only fixed-step
/// clocks and skips the frame under any other mode.
#[derive(Clone, Copy, Debug, PartialEq, Eq, Structural)]
pub enum TimestepMode {
    Fixed { delta: u64, overstep: u64 },
    Variable { max_delta: u64 },
}

impl TimestepMode {
    /// What a fixed-step clock guarantees of its view: a positive tick
    /// period, with the overstep strictly inside it.
    pub open spec fn wf(self) -> bool {
        match self {
            TimestepMode::Fixed { delta, overstep } => 0 < delta && overstep < delta,
            TimestepMode::Variable { .. } => true,
        }
    }

    /// Whether the clock advances by a fixed step.
    pub open spec fn is_fixed(self) -> bool {
        match self {
            TimestepMode::Fixed { .. } => true,
            TimestepMode::Variable { .. } => false,
        }
    }

    /// The tick period of a fixed-step clock.
    pub open spec fn delta_spec(self) -> u64 {
        match self {
            TimestepMode::Fixed { delta, .. } => delta,
            TimestepMode::Variable { max_delta } => max_delta,
        }
    }

    /// The elapsed part of the pending tick of a fixed-step clock.
    pub open spec fn overstep_spec(self) -> u64 {
        match self {
            TimestepMode::Fixed { overstep, .. } => overstep,
            TimestepMode::Variable { .. } => 0,
        }
    }
}

} // verus!
