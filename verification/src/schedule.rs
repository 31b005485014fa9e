//! The named extension points the host loop runs every frame, in a fixed
//! relative order.

use vstd::prelude::*;

verus! {

/// The two stages the host schedules after simulation-to-transform
/// synchronization and before transforms are propagated to the renderer.
#[derive(Clone, Copy, Debug, PartialEq, Eq, Structural, Hash)]
pub enum InterpolationSet {
    /// Where the interpolation takes place.
    Interpolate,
    /// Runs after interpolation but before transforms are propagated, for
    /// work that must read the blended pose, such as a camera following a
    /// simulated body. Empty by default.
    PostInterpolation,
}

} // verus!
