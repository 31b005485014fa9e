//! Per-entity interpolation state, the simulated body it belongs to, and the
//! global mode that decides which halves of that state an entity holds.

use crate::math::Quat;
use crate::math::Vec3;
use vstd::prelude::*;

verus! {

/// The position half of an entity's interpolation state.
///
/// Both snapshots are `None` until the entity has survived at least one full
/// tick boundary; the blend skips the entity while either is missing.
#[derive(Clone, Copy, Debug, PartialEq, Eq, Structural)]
pub struct PositionInterpolation {
    pub disabled: bool,
    pub last_position: Option<Vec3>,
    pub current_position: Option<Vec3>,
}

/// The rotation half of an entity's interpolation state.
#[derive(Clone, Copy, Debug, PartialEq, Eq, Structural)]
pub struct RotationInterpolation {
    pub disabled: bool,
    pub last_rotation: Option<Quat>,
    pub current_rotation: Option<Quat>,
}

/// Both halves of a fresh interpolation state, for attaching to an entity in
/// one step.
#[derive(Clone, Copy, Debug, PartialEq, Eq, Structural)]
pub struct InterpolationBundle {
    pub position: PositionInterpolation,
    pub rotation: RotationInterpolation,
}

/// The process-wide interpolation mode. Changing it takes effect on the next
/// reconciliation pass, not instantaneously.
#[derive(Clone, Copy, Debug, PartialEq, Eq, Structural)]
pub enum GlobalInterpolation {
    NoInterpolation,
    PositionOnly,
    RotationOnly,
    PositionAndRotation,
}

/// The pose the renderer reads, distinct from the authoritative simulated
/// pose.
#[derive(Clone, Copy, Debug, PartialEq, Eq, Structural)]
pub struct Transform {
    pub translation: Vec3,
    pub rotation: Quat,
}

/// One simulated entity: its movable-body classification, its authoritative
/// pose, its presentation transform, and whichever halves of interpolation
/// state the reconciliation pass has attached to it.
#[derive(Clone, Copy, Debug, PartialEq, Eq, Structural)]
pub struct Body {
    pub rigid_body: bool,
    pub position: Vec3,
    pub rotation: Quat,
    pub transform: Transform,
    pub position_interpolation: Option<PositionInterpolation>,
    pub rotation_interpolation: Option<RotationInterpolation>,
}

impl PositionInterpolation {
    /// Every snapshot the half holds is within the fixed-point range.
    pub open spec fn wf(self) -> bool {
        &&& match self.last_position {
            Some(v) => v.in_range(),
            None => true,
        }
        &&& match self.current_position {
            Some(v) => v.in_range(),
            None => true,
        }
    }

    /// A freshly attached half: enabled, with no snapshots yet.
    pub open spec fn default_spec() -> PositionInterpolation {
        PositionInterpolation { disabled: false, last_position: None, current_position: None }
    }
}

impl Default for PositionInterpolation {
    /// A freshly attached half: enabled, with no snapshots yet.
    fn default() -> (d: Self)
        ensures
            d == PositionInterpolation::default_spec(),
    {
        PositionInterpolation { disabled: false, last_position: None, current_position: None }
    }
}

impl RotationInterpolation {
    /// Every snapshot the half holds is within the fixed-point range.
    pub open spec fn wf(self) -> bool {
        &&& match self.last_rotation {
            Some(q) => q.in_range(),
            None => true,
        }
        &&& match self.current_rotation {
            Some(q) => q.in_range(),
            None => true,
        }
    }

    /// A freshly attached half: enabled, with no snapshots yet.
    pub open spec fn default_spec() -> RotationInterpolation {
        RotationInterpolation { disabled: false, last_rotation: None, current_rotation: None }
    }
}

impl Default for RotationInterpolation {
    /// A freshly attached half: enabled, with no snapshots yet.
    fn default() -> (d: Self)
        ensures
            d == RotationInterpolation::default_spec(),
    {
        RotationInterpolation { disabled: false, last_rotation: None, current_rotation: None }
    }
}

impl Default for InterpolationBundle {
    /// Two freshly attached halves.
    fn default() -> (d: Self)
        ensures
            d.position == PositionInterpolation::default_spec(),
            d.rotation == RotationInterpolation::default_spec(),
    {
        InterpolationBundle {
            position: PositionInterpolation {
                disabled: false,
                last_position: None,
                current_position: None,
            },
            rotation: RotationInterpolation {
                disabled: false,
                last_rotation: None,
                current_rotation: None,
            },
        }
    }
}

impl Default for GlobalInterpolation {
    /// Interpolation of both position and rotation is the default mode.
    fn default() -> (d: Self)
        ensures
            d == GlobalInterpolation::PositionAndRotation,
    {
        GlobalInterpolation::PositionAndRotation
    }
}

impl Body {
    /// Every pose and snapshot the entity holds is within the fixed-point
    /// range.
    pub open spec fn wf(self) -> bool {
        &&& self.position.in_range()
        &&& self.rotation.in_range()
        &&& self.transform.translation.in_range()
        &&& self.transform.rotation.in_range()
        &&& match self.position_interpolation {
            Some(p) => p.wf(),
            None => true,
        }
        &&& match self.rotation_interpolation {
            Some(r) => r.wf(),
            None => true,
        }
    }
}

} // verus!
