//! The interpolation policy: a reconciliation pass that adds or removes the
//! halves of per-entity interpolation state until every movable body matches
//! the process-wide mode.

use crate::state::Body;
use crate::state::GlobalInterpolation;
use crate::state::PositionInterpolation;
use crate::state::RotationInterpolation;
use vstd::prelude::*;

verus! {

/// Whether the mode asks for the position half on every movable body.
pub open spec fn wants_position(mode: GlobalInterpolation) -> bool {
    match mode {
        GlobalInterpolation::PositionOnly => true,
        GlobalInterpolation::PositionAndRotation => true,
        _ => false,
    }
}

/// Whether the mode asks for the rotation half on every movable body.
pub open spec fn wants_rotation(mode: GlobalInterpolation) -> bool {
    match mode {
        GlobalInterpolation::RotationOnly => true,
        GlobalInterpolation::PositionAndRotation => true,
        _ => false,
    }
}

/// Reconciliation of one entity. Entities without the movable-body
/// classification are untouched. On a movable body, a half the mode asks for
/// is kept as it is when present — its accumulated snapshots survive — and
/// attached fresh when absent; a half the mode does not ask for is removed,
/// discarding its snapshots.
pub open spec fn reconcile_spec(mode: GlobalInterpolation, b: Body) -> Body {
    if !b.rigid_body {
        b
    } else {
        Body {
            position_interpolation: if wants_position(mode) {
                match b.position_interpolation {
                    Some(pi) => Some(pi),
                    None => Some(PositionInterpolation::default_spec()),
                }
            } else {
                None
            },
            rotation_interpolation: if wants_rotation(mode) {
                match b.rotation_interpolation {
                    Some(ri) => Some(ri),
                    None => Some(RotationInterpolation::default_spec()),
                }
            } else {
                None
            },
            ..b
        }
    }
}

/// Reconcile one entity's interpolation state with the mode.
pub fn reconcile_one(global_interp: &GlobalInterpolation, b: &Body) -> (nb: Body)
    ensures
        nb == reconcile_spec(*global_interp, *b),
        b.wf() ==> nb.wf(),
{
    if !b.rigid_body {
        return *b;
    }
    let want_pos = match *global_interp {
        GlobalInterpolation::PositionOnly => true,
        GlobalInterpolation::PositionAndRotation => true,
        _ => false,
    };
    let want_rot = match *global_interp {
        GlobalInterpolation::RotationOnly => true,
        GlobalInterpolation::PositionAndRotation => true,
        _ => false,
    };
    let mut nb = *b;
    nb.position_interpolation = if want_pos {
        match b.position_interpolation {
            Some(pi) => Some(pi),
            None => Some(PositionInterpolation::default()),
        }
    } else {
        None
    };
    nb.rotation_interpolation = if want_rot {
        match b.rotation_interpolation {
            Some(ri) => Some(ri),
            None => Some(RotationInterpolation::default()),
        }
    } else {
        None
    };
    nb
}

/// Reconcile every entity's interpolation state with the process-wide mode.
/// Runs once per frame; self-heals any policy/state mismatch without
/// reporting an error.
pub fn set_object_interpolation(global_interp: &GlobalInterpolation, objects: &mut Vec<Body>)
    ensures
        final(objects)@.len() == old(objects)@.len(),
        forall|i: int|
            0 <= i < old(objects)@.len() ==> final(objects)@[i] == reconcile_spec(
                *global_interp,
                old(objects)@[i],
            ),
{
    let ghost orig: Seq<Body> = objects@;
    let n: usize = objects.len();
    let mut i: usize = 0;
    while i < n
        invariant
            objects@.len() == n,
            orig.len() == n,
            i <= n,
            forall|j: int| 0 <= j < i ==> objects@[j] == reconcile_spec(*global_interp, orig[j]),
            forall|j: int| i <= j < n ==> objects@[j] == orig[j],
        decreases n - i,
    {
        let b = objects[i];
        objects[i] = reconcile_one(global_interp, &b);
        i = i + 1;
    }
}

/// Reconciliation is idempotent: running it twice in a row with no mode
/// change and no classification change leaves exactly the state of running
/// it once.
pub proof fn lemma_reconcile_idempotent(mode: GlobalInterpolation, b: Body)
    ensures
        reconcile_spec(mode, reconcile_spec(mode, b)) == reconcile_spec(mode, b),
{
}

/// After reconciliation an entity's state matches the mode: a movable body
/// holds exactly the halves the mode asks for, and an entity without the
/// classification is untouched.
pub proof fn lemma_reconcile_matches_mode(mode: GlobalInterpolation, b: Body)
    ensures
        b.rigid_body ==> (reconcile_spec(mode, b).position_interpolation is Some
            <==> wants_position(mode)),
        b.rigid_body ==> (reconcile_spec(mode, b).rotation_interpolation is Some
            <==> wants_rotation(mode)),
        !b.rigid_body ==> reconcile_spec(mode, b) == b,
{
}

} // verus!
