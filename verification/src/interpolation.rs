//! The per-frame phases around the tick boundary: snapshot capture at the
//! start and end of each simulation tick, the pre-tick reset that rolls the
//! pose back to the last settled snapshot, and the frame-time blend that
//! writes the interpolated pose into the presentation transform.

use crate::clock::TimestepMode;
use crate::math::Quat;
use crate::math::Vec3;
use crate::math::lemma_align_shortest_arc;
use crate::math::lemma_lerp_bounds;
use crate::math::quat_align_spec;
use crate::math::quat_dot;
use crate::math::quat_lerp;
use crate::math::quat_lerp_spec;
use crate::math::vec3_lerp;
use crate::math::vec3_lerp_spec;
use crate::state::Body;
use crate::state::PositionInterpolation;
use crate::state::RotationInterpolation;
use crate::state::Transform;
use vstd::prelude::*;

verus! {

/// The pre-tick reset of one entity's position: where a current snapshot
/// exists, both the authoritative position and the presentation translation
/// are forced back to it; otherwise the entity is untouched.
pub open spec fn position_reset_spec(b: Body) -> Body {
    match b.position_interpolation {
        Some(pi) => match pi.current_position {
            Some(c) => Body {
                position: c,
                transform: Transform { translation: c, ..b.transform },
                ..b
            },
            None => b,
        },
        None => b,
    }
}

/// The pre-tick reset of one entity's rotation.
pub open spec fn rotation_reset_spec(b: Body) -> Body {
    match b.rotation_interpolation {
        Some(ri) => match ri.current_rotation {
            Some(c) => Body {
                rotation: c,
                transform: Transform { rotation: c, ..b.transform },
                ..b
            },
            None => b,
        },
        None => b,
    }
}

/// The tick-start capture of one entity's position into the `last` snapshot.
/// Entities without the position half are skipped.
pub open spec fn save_last_position_spec(b: Body) -> Body {
    match b.position_interpolation {
        Some(pi) => Body {
            position_interpolation: Some(
                PositionInterpolation { last_position: Some(b.position), ..pi },
            ),
            ..b
        },
        None => b,
    }
}

/// The tick-end capture of one entity's position into the `current`
/// snapshot.
pub open spec fn save_current_position_spec(b: Body) -> Body {
    match b.position_interpolation {
        Some(pi) => Body {
            position_interpolation: Some(
                PositionInterpolation { current_position: Some(b.position), ..pi },
            ),
            ..b
        },
        None => b,
    }
}

/// The tick-start capture of one entity's rotation into the `last` snapshot.
pub open spec fn save_last_rotation_spec(b: Body) -> Body {
    match b.rotation_interpolation {
        Some(ri) => Body {
            rotation_interpolation: Some(
                RotationInterpolation { last_rotation: Some(b.rotation), ..ri },
            ),
            ..b
        },
        None => b,
    }
}

/// The tick-end capture of one entity's rotation into the `current`
/// snapshot.
pub open spec fn save_current_rotation_spec(b: Body) -> Body {
    match b.rotation_interpolation {
        Some(ri) => Body {
            rotation_interpolation: Some(
                RotationInterpolation { current_rotation: Some(b.rotation), ..ri },
            ),
            ..b
        },
        None => b,
    }
}

/// The frame-time blend of one entity's position: where the half is present,
/// enabled, and holds both snapshots, the presentation translation becomes
/// the point a fraction `overstep / delta` of the way from the last snapshot
/// to the current one; otherwise the entity keeps its previous presentation
/// value.
pub open spec fn blend_position_spec(b: Body, overstep: int, delta: int) -> Body {
    match b.position_interpolation {
        Some(pi) => if pi.disabled {
            b
        } else {
            match (pi.last_position, pi.current_position) {
                (Some(last), Some(current)) => Body {
                    transform: Transform {
                        translation: vec3_lerp_spec(last, current, overstep, delta),
                        ..b.transform
                    },
                    ..b
                },
                _ => b,
            }
        },
        None => b,
    }
}

/// The frame-time blend of one entity's rotation, along the shorter arc.
pub open spec fn blend_rotation_spec(b: Body, overstep: int, delta: int) -> Body {
    match b.rotation_interpolation {
        Some(ri) => if ri.disabled {
            b
        } else {
            match (ri.last_rotation, ri.current_rotation) {
                (Some(last), Some(current)) => Body {
                    transform: Transform {
                        rotation: quat_lerp_spec(last, current, overstep, delta),
                        ..b.transform
                    },
                    ..b
                },
                _ => b,
            }
        },
        None => b,
    }
}

/// Reset one entity's position to its current snapshot, if it has one.
pub fn position_reset_one(b: &Body) -> (nb: Body)
    ensures
        nb == position_reset_spec(*b),
        b.wf() ==> nb.wf(),
{
    match b.position_interpolation {
        Some(pi) => match pi.current_position {
            Some(c) => {
                let mut nb = *b;
                nb.position = c;
                nb.transform.translation = c;
                nb
            },
            None => *b,
        },
        None => *b,
    }
}

/// Reset one entity's rotation to its current snapshot, if it has one.
pub fn rotation_reset_one(b: &Body) -> (nb: Body)
    ensures
        nb == rotation_reset_spec(*b),
        b.wf() ==> nb.wf(),
{
    match b.rotation_interpolation {
        Some(ri) => match ri.current_rotation {
            Some(c) => {
                let mut nb = *b;
                nb.rotation = c;
                nb.transform.rotation = c;
                nb
            },
            None => *b,
        },
        None => *b,
    }
}

/// Capture one entity's authoritative position into its `last` snapshot.
pub fn save_last_position_one(b: &Body) -> (nb: Body)
    ensures
        nb == save_last_position_spec(*b),
        b.wf() ==> nb.wf(),
{
    match b.position_interpolation {
        Some(pi) => {
            let mut nb = *b;
            nb.position_interpolation = Some(
                PositionInterpolation { last_position: Some(b.position), ..pi },
            );
            nb
        },
        None => *b,
    }
}

/// Capture one entity's authoritative position into its `current` snapshot.
pub fn save_current_position_one(b: &Body) -> (nb: Body)
    ensures
        nb == save_current_position_spec(*b),
        b.wf() ==> nb.wf(),
{
    match b.position_interpolation {
        Some(pi) => {
            let mut nb = *b;
            nb.position_interpolation = Some(
                PositionInterpolation { current_position: Some(b.position), ..pi },
            );
            nb
        },
        None => *b,
    }
}

/// Capture one entity's authoritative rotation into its `last` snapshot.
pub fn save_last_rotation_one(b: &Body) -> (nb: Body)
    ensures
        nb == save_last_rotation_spec(*b),
        b.wf() ==> nb.wf(),
{
    match b.rotation_interpolation {
        Some(ri) => {
            let mut nb = *b;
            nb.rotation_interpolation = Some(
                RotationInterpolation { last_rotation: Some(b.rotation), ..ri },
            );
            nb
        },
        None => *b,
    }
}

/// Capture one entity's authoritative rotation into its `current` snapshot.
pub fn save_current_rotation_one(b: &Body) -> (nb: Body)
    ensures
        nb == save_current_rotation_spec(*b),
        b.wf() ==> nb.wf(),
{
    match b.rotation_interpolation {
        Some(ri) => {
            let mut nb = *b;
            nb.rotation_interpolation = Some(
                RotationInterpolation { current_rotation: Some(b.rotation), ..ri },
            );
            nb
        },
        None => *b,
    }
}

/// Blend one entity's presentation translation between its two position
/// snapshots.
pub fn blend_position_one(b: &Body, overstep: u64, delta: u64) -> (nb: Body)
    requires
        0 < delta,
        overstep < delta,
        b.wf(),
    ensures
        nb == blend_position_spec(*b, overstep as int, delta as int),
        nb.wf(),
{
    match b.position_interpolation {
        Some(pi) => {
            if pi.disabled {
                return *b;
            }
            match (pi.last_position, pi.current_position) {
                (Some(last), Some(current)) => {
                    let t = vec3_lerp(last, current, overstep, delta);
                    let mut nb = *b;
                    nb.transform.translation = t;
                    nb
                },
                _ => *b,
            }
        },
        None => *b,
    }
}

/// Blend one entity's presentation rotation between its two rotation
/// snapshots, along the shorter arc.
pub fn blend_rotation_one(b: &Body, overstep: u64, delta: u64) -> (nb: Body)
    requires
        0 < delta,
        overstep < delta,
        b.wf(),
    ensures
        nb == blend_rotation_spec(*b, overstep as int, delta as int),
        nb.wf(),
{
    match b.rotation_interpolation {
        Some(ri) => {
            if ri.disabled {
                return *b;
            }
            match (ri.last_rotation, ri.current_rotation) {
                (Some(last), Some(current)) => {
                    let q = quat_lerp(last, current, overstep, delta);
                    let mut nb = *b;
                    nb.transform.rotation = q;
                    nb
                },
                _ => *b,
            }
        },
        None => *b,
    }
}

/// Reset every entity's authoritative position and presentation translation
/// to its current snapshot, undoing any blend applied during the previous
/// frame, so the simulation advances from a true, non-blended state. Runs
/// once per frame, before the frame's first simulation tick.
pub fn pre_phys_position_reset(objects: &mut Vec<Body>)
    ensures
        final(objects)@.len() == old(objects)@.len(),
        forall|i: int|
            0 <= i < old(objects)@.len() ==> final(objects)@[i] == position_reset_spec(
                old(objects)@[i],
            ),
{
    let ghost orig: Seq<Body> = objects@;
    let n: usize = objects.len();
    let mut i: usize = 0;
    while i < n
        invariant
            objects@.len() == n,
            orig.len() == n,
            i <= n,
            forall|j: int| 0 <= j < i ==> objects@[j] == position_reset_spec(orig[j]),
            forall|j: int| i <= j < n ==> objects@[j] == orig[j],
        decreases n - i,
    {
        let b = objects[i];
        objects[i] = position_reset_one(&b);
        i = i + 1;
    }
}

/// Reset every entity's authoritative rotation and presentation rotation to
/// its current snapshot. Runs once per frame, before the frame's first
/// simulation tick.
pub fn pre_phys_rotation_reset(objects: &mut Vec<Body>)
    ensures
        final(objects)@.len() == old(objects)@.len(),
        forall|i: int|
            0 <= i < old(objects)@.len() ==> final(objects)@[i] == rotation_reset_spec(
                old(objects)@[i],
            ),
{
    let ghost orig: Seq<Body> = objects@;
    let n: usize = objects.len();
    let mut i: usize = 0;
    while i < n
        invariant
            objects@.len() == n,
            orig.len() == n,
            i <= n,
            forall|j: int| 0 <= j < i ==> objects@[j] == rotation_reset_spec(orig[j]),
            forall|j: int| i <= j < n ==> objects@[j] == orig[j],
        decreases n - i,
    {
        let b = objects[i];
        objects[i] = rotation_reset_one(&b);
        i = i + 1;
    }
}

/// Capture every entity's authoritative position into its `last` snapshot.
/// Runs as the first sub-phase of a simulation tick, before integration.
pub fn save_last_position(objects: &mut Vec<Body>)
    ensures
        final(objects)@.len() == old(objects)@.len(),
        forall|i: int|
            0 <= i < old(objects)@.len() ==> final(objects)@[i] == save_last_position_spec(
                old(objects)@[i],
            ),
{
    let ghost orig: Seq<Body> = objects@;
    let n: usize = objects.len();
    let mut i: usize = 0;
    while i < n
        invariant
            objects@.len() == n,
            orig.len() == n,
            i <= n,
            forall|j: int| 0 <= j < i ==> objects@[j] == save_last_position_spec(orig[j]),
            forall|j: int| i <= j < n ==> objects@[j] == orig[j],
        decreases n - i,
    {
        let b = objects[i];
        objects[i] = save_last_position_one(&b);
        i = i + 1;
    }
}

/// Capture every entity's authoritative position into its `current`
/// snapshot. Runs as the last sub-phase of a simulation tick, after all
/// integration work.
pub fn save_current_position(objects: &mut Vec<Body>)
    ensures
        final(objects)@.len() == old(objects)@.len(),
        forall|i: int|
            0 <= i < old(objects)@.len() ==> final(objects)@[i] == save_current_position_spec(
                old(objects)@[i],
            ),
{
    let ghost orig: Seq<Body> = objects@;
    let n: usize = objects.len();
    let mut i: usize = 0;
    while i < n
        invariant
            objects@.len() == n,
            orig.len() == n,
            i <= n,
            forall|j: int| 0 <= j < i ==> objects@[j] == save_current_position_spec(orig[j]),
            forall|j: int| i <= j < n ==> objects@[j] == orig[j],
        decreases n - i,
    {
        let b = objects[i];
        objects[i] = save_current_position_one(&b);
        i = i + 1;
    }
}

/// Capture every entity's authoritative rotation into its `last` snapshot.
/// Runs as the first sub-phase of a simulation tick, before integration.
pub fn save_last_rotation(objects: &mut Vec<Body>)
    ensures
        final(objects)@.len() == old(objects)@.len(),
        forall|i: int|
            0 <= i < old(objects)@.len() ==> final(objects)@[i] == save_last_rotation_spec(
                old(objects)@[i],
            ),
{
    let ghost orig: Seq<Body> = objects@;
    let n: usize = objects.len();
    let mut i: usize = 0;
    while i < n
        invariant
            objects@.len() == n,
            orig.len() == n,
            i <= n,
            forall|j: int| 0 <= j < i ==> objects@[j] == save_last_rotation_spec(orig[j]),
            forall|j: int| i <= j < n ==> objects@[j] == orig[j],
        decreases n - i,
    {
        let b = objects[i];
        objects[i] = save_last_rotation_one(&b);
        i = i + 1;
    }
}

/// Capture every entity's authoritative rotation into its `current`
/// snapshot. Runs as the last sub-phase of a simulation tick, after all
/// integration work.
pub fn save_current_rotation(objects: &mut Vec<Body>)
    ensures
        final(objects)@.len() == old(objects)@.len(),
        forall|i: int|
            0 <= i < old(objects)@.len() ==> final(objects)@[i] == save_current_rotation_spec(
                old(objects)@[i],
            ),
{
    let ghost orig: Seq<Body> = objects@;
    let n: usize = objects.len();
    let mut i: usize = 0;
    while i < n
        invariant
            objects@.len() == n,
            orig.len() == n,
            i <= n,
            forall|j: int| 0 <= j < i ==> objects@[j] == save_current_rotation_spec(orig[j]),
            forall|j: int| i <= j < n ==> objects@[j] == orig[j],
        decreases n - i,
    {
        let b = objects[i];
        objects[i] = save_current_rotation_one(&b);
        i = i + 1;
    }
}

/// Blend every entity's presentation translation between its position
/// snapshots, a fraction `overstep / delta` into the pending tick. Under a
/// clock that is not fixed-step, no entity is written and the result is
/// `false`, telling the caller to emit its once-per-frame diagnostic.
pub fn interpolate_position(objects: &mut Vec<Body>, phys_time: &TimestepMode) -> (blended: bool)
    requires
        phys_time.wf(),
        forall|i: int| 0 <= i < old(objects)@.len() ==> old(objects)@[i].wf(),
    ensures
        blended == phys_time.is_fixed(),
        final(objects)@.len() == old(objects)@.len(),
        !blended ==> final(objects)@ == old(objects)@,
        blended ==> forall|i: int|
            0 <= i < old(objects)@.len() ==> final(objects)@[i] == blend_position_spec(
                old(objects)@[i],
                phys_time.overstep_spec() as int,
                phys_time.delta_spec() as int,
            ),
        forall|i: int| 0 <= i < final(objects)@.len() ==> final(objects)@[i].wf(),
{
    let (delta, overstep) = match *phys_time {
        TimestepMode::Fixed { delta, overstep } => (delta, overstep),
        TimestepMode::Variable { .. } => {
            return false;
        },
    };
    let ghost orig: Seq<Body> = objects@;
    let n: usize = objects.len();
    let mut i: usize = 0;
    while i < n
        invariant
            objects@.len() == n,
            orig.len() == n,
            i <= n,
            0 < delta,
            overstep < delta,
            forall|j: int| 0 <= j < n ==> orig[j].wf(),
            forall|j: int|
                0 <= j < i ==> objects@[j] == blend_position_spec(
                    orig[j],
                    overstep as int,
                    delta as int,
                ),
            forall|j: int| 0 <= j < i ==> objects@[j].wf(),
            forall|j: int| i <= j < n ==> objects@[j] == orig[j],
        decreases n - i,
    {
        let b = objects[i];
        objects[i] = blend_position_one(&b, overstep, delta);
        i = i + 1;
    }
    true
}

/// Blend every entity's presentation rotation between its rotation
/// snapshots, along the shorter arc, a fraction `overstep / delta` into the
/// pending tick. Under a clock that is not fixed-step, no entity is written
/// and the result is `false`, telling the caller to emit its once-per-frame
/// diagnostic.
pub fn interpolate_rotation(objects: &mut Vec<Body>, phys_time: &TimestepMode) -> (blended: bool)
    requires
        phys_time.wf(),
        forall|i: int| 0 <= i < old(objects)@.len() ==> old(objects)@[i].wf(),
    ensures
        blended == phys_time.is_fixed(),
        final(objects)@.len() == old(objects)@.len(),
        !blended ==> final(objects)@ == old(objects)@,
        blended ==> forall|i: int|
            0 <= i < old(objects)@.len() ==> final(objects)@[i] == blend_rotation_spec(
                old(objects)@[i],
                phys_time.overstep_spec() as int,
                phys_time.delta_spec() as int,
            ),
        forall|i: int| 0 <= i < final(objects)@.len() ==> final(objects)@[i].wf(),
{
    let (delta, overstep) = match *phys_time {
        TimestepMode::Fixed { delta, overstep } => (delta, overstep),
        TimestepMode::Variable { .. } => {
            return false;
        },
    };
    let ghost orig: Seq<Body> = objects@;
    let n: usize = objects.len();
    let mut i: usize = 0;
    while i < n
        invariant
            objects@.len() == n,
            orig.len() == n,
            i <= n,
            0 < delta,
            overstep < delta,
            forall|j: int| 0 <= j < n ==> orig[j].wf(),
            forall|j: int|
                0 <= j < i ==> objects@[j] == blend_rotation_spec(
                    orig[j],
                    overstep as int,
                    delta as int,
                ),
            forall|j: int| 0 <= j < i ==> objects@[j].wf(),
            forall|j: int| i <= j < n ==> objects@[j] == orig[j],
        decreases n - i,
    {
        let b = objects[i];
        objects[i] = blend_rotation_one(&b, overstep, delta);
        i = i + 1;
    }
    true
}

/// The blended translation lies componentwise on the segment between the
/// two position snapshots, and equals the last snapshot exactly when no time
/// of the pending tick has elapsed.
pub proof fn lemma_vec3_lerp_on_segment(last: Vec3, current: Vec3, overstep: int, delta: int)
    requires
        0 <= overstep < delta,
        last.in_range(),
        current.in_range(),
    ensures
        last.x <= current.x ==> last.x <= vec3_lerp_spec(last, current, overstep, delta).x
            <= current.x,
        current.x <= last.x ==> current.x <= vec3_lerp_spec(last, current, overstep, delta).x
            <= last.x,
        last.y <= current.y ==> last.y <= vec3_lerp_spec(last, current, overstep, delta).y
            <= current.y,
        current.y <= last.y ==> current.y <= vec3_lerp_spec(last, current, overstep, delta).y
            <= last.y,
        last.z <= current.z ==> last.z <= vec3_lerp_spec(last, current, overstep, delta).z
            <= current.z,
        current.z <= last.z ==> current.z <= vec3_lerp_spec(last, current, overstep, delta).z
            <= last.z,
        overstep == 0 ==> vec3_lerp_spec(last, current, overstep, delta) == last,
{
    lemma_lerp_bounds(last.x as int, current.x as int, overstep, delta);
    lemma_lerp_bounds(last.y as int, current.y as int, overstep, delta);
    lemma_lerp_bounds(last.z as int, current.z as int, overstep, delta);
}

/// The blended rotation equals the last snapshot exactly when no time of the
/// pending tick has elapsed; the blend target is the current snapshot
/// sign-corrected so that its dot product with the last snapshot is
/// non-negative, and each blended component lies between the last snapshot's
/// and the target's.
pub proof fn lemma_quat_lerp_shortest_arc(last: Quat, current: Quat, overstep: int, delta: int)
    requires
        0 <= overstep < delta,
        last.in_range(),
        current.in_range(),
    ensures
        overstep == 0 ==> quat_lerp_spec(last, current, overstep, delta) == last,
        quat_dot(last, quat_align_spec(last, current)) >= 0,
        last.x <= quat_align_spec(last, current).x ==> last.x <= quat_lerp_spec(
            last,
            current,
            overstep,
            delta,
        ).x <= quat_align_spec(last, current).x,
        quat_align_spec(last, current).x <= last.x ==> quat_align_spec(last, current).x
            <= quat_lerp_spec(last, current, overstep, delta).x <= last.x,
        last.y <= quat_align_spec(last, current).y ==> last.y <= quat_lerp_spec(
            last,
            current,
            overstep,
            delta,
        ).y <= quat_align_spec(last, current).y,
        quat_align_spec(last, current).y <= last.y ==> quat_align_spec(last, current).y
            <= quat_lerp_spec(last, current, overstep, delta).y <= last.y,
        last.z <= quat_align_spec(last, current).z ==> last.z <= quat_lerp_spec(
            last,
            current,
            overstep,
            delta,
        ).z <= quat_align_spec(last, current).z,
        quat_align_spec(last, current).z <= last.z ==> quat_align_spec(last, current).z
            <= quat_lerp_spec(last, current, overstep, delta).z <= last.z,
        last.w <= quat_align_spec(last, current).w ==> last.w <= quat_lerp_spec(
            last,
            current,
            overstep,
            delta,
        ).w <= quat_align_spec(last, current).w,
        quat_align_spec(last, current).w <= last.w ==> quat_align_spec(last, current).w
            <= quat_lerp_spec(last, current, overstep, delta).w <= last.w,
{
    let c = quat_align_spec(last, current);
    lemma_align_shortest_arc(last, current);
    lemma_lerp_bounds(last.x as int, c.x as int, overstep, delta);
    lemma_lerp_bounds(last.y as int, c.y as int, overstep, delta);
    lemma_lerp_bounds(last.z as int, c.z as int, overstep, delta);
    lemma_lerp_bounds(last.w as int, c.w as int, overstep, delta);
}

/// The blend writes only the presentation transform: the authoritative
/// pose, the interpolation state and the movable-body classification are
/// unchanged, and blending one axis leaves the other axis's presentation
/// value alone.
pub proof fn lemma_blend_writes_only_presentation(b: Body, overstep: int, delta: int)
    ensures
        blend_position_spec(b, overstep, delta).rigid_body == b.rigid_body,
        blend_position_spec(b, overstep, delta).position == b.position,
        blend_position_spec(b, overstep, delta).rotation == b.rotation,
        blend_position_spec(b, overstep, delta).position_interpolation == b.position_interpolation,
        blend_position_spec(b, overstep, delta).rotation_interpolation == b.rotation_interpolation,
        blend_position_spec(b, overstep, delta).transform.rotation == b.transform.rotation,
        blend_rotation_spec(b, overstep, delta).rigid_body == b.rigid_body,
        blend_rotation_spec(b, overstep, delta).position == b.position,
        blend_rotation_spec(b, overstep, delta).rotation == b.rotation,
        blend_rotation_spec(b, overstep, delta).position_interpolation == b.position_interpolation,
        blend_rotation_spec(b, overstep, delta).rotation_interpolation == b.rotation_interpolation,
        blend_rotation_spec(b, overstep, delta).transform.translation == b.transform.translation,
{
}

/// A disabled half, or one still missing a snapshot, leaves the entity
/// entirely unchanged: the presentation keeps its previous value, with no
/// flicker back to the authoritative pose.
pub proof fn lemma_blend_skips_disabled_or_unready(b: Body, overstep: int, delta: int)
    ensures
        (match b.position_interpolation {
            Some(pi) => pi.disabled || pi.last_position is None || pi.current_position is None,
            None => true,
        }) ==> blend_position_spec(b, overstep, delta) == b,
        (match b.rotation_interpolation {
            Some(ri) => ri.disabled || ri.last_rotation is None || ri.current_rotation is None,
            None => true,
        }) ==> blend_rotation_spec(b, overstep, delta) == b,
{
}

/// The pre-tick reset restores the authoritative position exactly: reading
/// it immediately afterwards returns the current snapshot of the prior
/// frame, with no drift, and the presentation translation agrees.
pub proof fn lemma_position_reset_round_trip(b: Body, c: Vec3)
    requires
        b.position_interpolation matches Some(pi) && pi.current_position == Some(c),
    ensures
        position_reset_spec(b).position == c,
        position_reset_spec(b).transform.translation == c,
{
}

/// The pre-tick reset restores the authoritative rotation exactly: reading
/// it immediately afterwards returns the current snapshot of the prior
/// frame, with no drift, and the presentation rotation agrees.
pub proof fn lemma_rotation_reset_round_trip(b: Body, c: Quat)
    requires
        b.rotation_interpolation matches Some(ri) && ri.current_rotation == Some(c),
    ensures
        rotation_reset_spec(b).rotation == c,
        rotation_reset_spec(b).transform.rotation == c,
{
}

} // verus!
