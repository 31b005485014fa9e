//! Pose smoothing for bodies that are simulated on a fixed-rate tick while
//! being rendered on a variable-rate frame loop.
//!
//! The simulation advances the authoritative pose of each body only at tick
//! boundaries, so a renderer that reads that pose directly shows stutter
//! whenever the tick rate is lower than the display rate. This crate records
//! the pose immediately before and after each tick and, on every render
//! frame, writes into the presentation transform a pose blended fractionally
//! between the two snapshots, according to how far the frame sits inside the
//! next pending tick interval.
//!
//! Coordinates and quaternion components are fixed-point values carried in
//! `i64`; durations are integer nanoseconds. The host converts its own pose
//! representation to and from these plain values.

pub mod clock;
pub mod interpolation;
pub mod math;
pub mod policy;
pub mod schedule;
pub mod state;

pub use clock::TimestepMode;
pub use interpolation::interpolate_position;
pub use interpolation::interpolate_rotation;
pub use interpolation::pre_phys_position_reset;
pub use interpolation::pre_phys_rotation_reset;
pub use interpolation::save_current_position;
pub use interpolation::save_current_rotation;
pub use interpolation::save_last_position;
pub use interpolation::save_last_rotation;
pub use math::Quat;
pub use math::COORD_LIMIT;
pub use math::Vec3;
pub use policy::set_object_interpolation;
pub use schedule::InterpolationSet;
pub use state::Body;
pub use state::GlobalInterpolation;
pub use state::InterpolationBundle;
pub use state::PositionInterpolation;
pub use state::RotationInterpolation;
pub use state::Transform;
