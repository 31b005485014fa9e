//! Fixed-point vectors, quaternions, and the linear blend between two
//! snapshots of either.
//!
//! Coordinates and quaternion components are plain `i64` values; the host
//! chooses the fixed-point scale. Every value the blend touches must stay
//! within [`COORD_LIMIT`] in magnitude, which keeps all intermediate
//! arithmetic exact.

use vstd::arithmetic::div_mod::lemma_div_is_ordered;
use vstd::arithmetic::div_mod::lemma_div_multiples_vanish;
use vstd::arithmetic::div_mod::lemma_div_of0;
use vstd::arithmetic::div_mod::lemma_div_pos_is_pos;
use vstd::arithmetic::mul::lemma_mul_by_zero_is_zero;
use vstd::arithmetic::mul::lemma_mul_inequality;
use vstd::arithmetic::mul::lemma_mul_nonnegative;
use vstd::arithmetic::mul::lemma_mul_unary_negation;
use vstd::arithmetic::mul::lemma_mul_upper_bound;
use vstd::prelude::*;

verus! {

/// Largest magnitude a fixed-point coordinate or quaternion component may
/// take. Keeping every component within this bound lets the blend multiply a
/// component difference by a nanosecond duration without overflowing 128-bit
/// intermediates.
pub const COORD_LIMIT: i64 = 0x100_0000_0000;

/// A position in space, componentwise fixed-point.
#[derive(Clone, Copy, Debug, PartialEq, Eq, Structural)]
pub struct Vec3 {
    pub x: i64,
    pub y: i64,
    pub z: i64,
}

/// A rotation, as the four components of a quaternion, componentwise
/// fixed-point.
#[derive(Clone, Copy, Debug, PartialEq, Eq, Structural)]
pub struct Quat {
    pub x: i64,
    pub y: i64,
    pub z: i64,
    pub w: i64,
}

/// Whether a single fixed-point component is within the supported range.
pub open spec fn coord_in_range(c: i64) -> bool {
    -COORD_LIMIT <= c <= COORD_LIMIT
}

impl Vec3 {
    /// All three components within the supported fixed-point range.
    pub open spec fn in_range(self) -> bool {
        coord_in_range(self.x) && coord_in_range(self.y) && coord_in_range(self.z)
    }
}

impl Quat {
    /// All four components within the supported fixed-point range.
    pub open spec fn in_range(self) -> bool {
        coord_in_range(self.x) && coord_in_range(self.y) && coord_in_range(self.z)
            && coord_in_range(self.w)
    }
}

/// The blended value of one component: `last` plus the fraction
/// `overstep / delta` of the way towards `current`, rounded towards `last`.
pub open spec fn lerp_int(last: int, current: int, overstep: int, delta: int) -> int {
    if current >= last {
        last + overstep * (current - last) / delta
    } else {
        last - overstep * (last - current) / delta
    }
}

/// A fraction `o / d` in `[0, 1)` of a non-negative quantity `diff` is at
/// least zero and at most `diff`.
pub proof fn lemma_scaled_fraction_bounds(o: int, d: int, diff: int)
    requires
        0 <= o < d,
        0 <= diff,
    ensures
        0 <= o * diff / d,
        o * diff / d <= diff,
{
    lemma_mul_nonnegative(o, diff);
    lemma_div_pos_is_pos(o * diff, d);
    lemma_mul_inequality(o, d, diff);
    lemma_div_is_ordered(o * diff, d * diff, d);
    lemma_div_multiples_vanish(diff, d);
}

/// The blended component lies on the segment between `last` and `current`,
/// and equals `last` when no time of the pending tick has elapsed.
pub proof fn lemma_lerp_bounds(last: int, current: int, overstep: int, delta: int)
    requires
        0 <= overstep < delta,
    ensures
        last <= current ==> last <= lerp_int(last, current, overstep, delta) <= current,
        current <= last ==> current <= lerp_int(last, current, overstep, delta) <= last,
        overstep == 0 ==> lerp_int(last, current, overstep, delta) == last,
{
    if current >= last {
        lemma_scaled_fraction_bounds(overstep, delta, current - last);
        if overstep == 0 {
            lemma_mul_by_zero_is_zero(current - last);
            lemma_div_of0(delta);
        }
    } else {
        lemma_scaled_fraction_bounds(overstep, delta, last - current);
        if overstep == 0 {
            lemma_mul_by_zero_is_zero(last - current);
            lemma_div_of0(delta);
        }
    }
}

/// Blend a single fixed-point component a fraction `overstep / delta` of the
/// way from `last` to `current`.
pub fn lerp_coord(last: i64, current: i64, overstep: u64, delta: u64) -> (r: i64)
    requires
        0 < delta,
        overstep < delta,
        coord_in_range(last),
        coord_in_range(current),
    ensures
        r as int == lerp_int(last as int, current as int, overstep as int, delta as int),
        last <= current ==> last <= r <= current,
        current <= last ==> current <= r <= last,
{
    proof {
        lemma_lerp_bounds(last as int, current as int, overstep as int, delta as int);
    }
    if current >= last {
        let diff: i64 = current - last;
        proof {
            lemma_mul_upper_bound(
                overstep as int,
                0xFFFF_FFFF_FFFF_FFFF,
                diff as int,
                2 * COORD_LIMIT,
            );
        }
        let num: u128 = (overstep as u128) * (diff as u128);
        let q: u128 = num / (delta as u128);
        proof {
            lemma_scaled_fraction_bounds(overstep as int, delta as int, diff as int);
        }
        last + (q as i64)
    } else {
        let diff: i64 = last - current;
        proof {
            lemma_mul_upper_bound(
                overstep as int,
                0xFFFF_FFFF_FFFF_FFFF,
                diff as int,
                2 * COORD_LIMIT,
            );
        }
        let num: u128 = (overstep as u128) * (diff as u128);
        let q: u128 = num / (delta as u128);
        proof {
            lemma_scaled_fraction_bounds(overstep as int, delta as int, diff as int);
        }
        last - (q as i64)
    }
}

/// The blended position: each component a fraction `overstep / delta` of the
/// way from `last` to `current`.
pub open spec fn vec3_lerp_spec(last: Vec3, current: Vec3, overstep: int, delta: int) -> Vec3 {
    Vec3 {
        x: lerp_int(last.x as int, current.x as int, overstep, delta) as i64,
        y: lerp_int(last.y as int, current.y as int, overstep, delta) as i64,
        z: lerp_int(last.z as int, current.z as int, overstep, delta) as i64,
    }
}

/// Blend a position a fraction `overstep / delta` of the way from `last` to
/// `current`.
pub fn vec3_lerp(last: Vec3, current: Vec3, overstep: u64, delta: u64) -> (r: Vec3)
    requires
        0 < delta,
        overstep < delta,
        last.in_range(),
        current.in_range(),
    ensures
        r == vec3_lerp_spec(last, current, overstep as int, delta as int),
        r.in_range(),
{
    let x = lerp_coord(last.x, current.x, overstep, delta);
    let y = lerp_coord(last.y, current.y, overstep, delta);
    let z = lerp_coord(last.z, current.z, overstep, delta);
    Vec3 { x, y, z }
}

/// The dot product of two quaternions, over the fixed-point components.
pub open spec fn quat_dot(a: Quat, b: Quat) -> int {
    (a.x as int) * (b.x as int) + (a.y as int) * (b.y as int) + (a.z as int) * (b.z as int) + (
    a.w as int) * (b.w as int)
}

/// The componentwise negation of a quaternion, which denotes the same
/// rotation.
pub open spec fn quat_neg_spec(q: Quat) -> Quat {
    Quat {
        x: (-(q.x as int)) as i64,
        y: (-(q.y as int)) as i64,
        z: (-(q.z as int)) as i64,
        w: (-(q.w as int)) as i64,
    }
}

/// The sign-corrected blend target: `current`, negated when its dot product
/// with `last` is negative, so that the blend takes the shorter arc.
pub open spec fn quat_align_spec(last: Quat, current: Quat) -> Quat {
    if quat_dot(last, current) < 0 {
        quat_neg_spec(current)
    } else {
        current
    }
}

/// The blended rotation: each component a fraction `overstep / delta` of the
/// way from `last` to the sign-corrected `current`.
pub open spec fn quat_lerp_spec(last: Quat, current: Quat, overstep: int, delta: int) -> Quat {
    let c = quat_align_spec(last, current);
    Quat {
        x: lerp_int(last.x as int, c.x as int, overstep, delta) as i64,
        y: lerp_int(last.y as int, c.y as int, overstep, delta) as i64,
        z: lerp_int(last.z as int, c.z as int, overstep, delta) as i64,
        w: lerp_int(last.w as int, c.w as int, overstep, delta) as i64,
    }
}

/// After the blend-time sign correction, the dot product of the snapshot
/// being blended from and the snapshot being blended towards is
/// non-negative: the blend always takes the shorter arc.
pub proof fn lemma_align_shortest_arc(last: Quat, current: Quat)
    requires
        last.in_range(),
        current.in_range(),
    ensures
        quat_dot(last, quat_align_spec(last, current)) >= 0,
{
    if quat_dot(last, current) < 0 {
        lemma_mul_unary_negation(last.x as int, current.x as int);
        lemma_mul_unary_negation(last.y as int, current.y as int);
        lemma_mul_unary_negation(last.z as int, current.z as int);
        lemma_mul_unary_negation(last.w as int, current.w as int);
    }
}

/// Whether the dot product of two quaternions is negative, which is when the
/// blend must negate one of them to take the shorter arc.
pub fn quat_dot_negative(a: &Quat, b: &Quat) -> (neg: bool)
    requires
        a.in_range(),
        b.in_range(),
    ensures
        neg == (quat_dot(*a, *b) < 0),
{
    proof {
        lemma_quat_component_products_bounded(*a, *b);
    }
    let px: i128 = (a.x as i128) * (b.x as i128);
    let py: i128 = (a.y as i128) * (b.y as i128);
    let pz: i128 = (a.z as i128) * (b.z as i128);
    let pw: i128 = (a.w as i128) * (b.w as i128);
    px + py + pz + pw < 0
}

/// Each componentwise product of two in-range quaternions is bounded by the
/// square of the component limit.
proof fn lemma_quat_component_products_bounded(a: Quat, b: Quat)
    requires
        a.in_range(),
        b.in_range(),
    ensures
        -(COORD_LIMIT as int) * (COORD_LIMIT as int) <= (a.x as int) * (b.x as int) <= (
        COORD_LIMIT as int) * (COORD_LIMIT as int),
        -(COORD_LIMIT as int) * (COORD_LIMIT as int) <= (a.y as int) * (b.y as int) <= (
        COORD_LIMIT as int) * (COORD_LIMIT as int),
        -(COORD_LIMIT as int) * (COORD_LIMIT as int) <= (a.z as int) * (b.z as int) <= (
        COORD_LIMIT as int) * (COORD_LIMIT as int),
        -(COORD_LIMIT as int) * (COORD_LIMIT as int) <= (a.w as int) * (b.w as int) <= (
        COORD_LIMIT as int) * (COORD_LIMIT as int),
{
    lemma_product_bounded(a.x as int, b.x as int, COORD_LIMIT as int);
    lemma_product_bounded(a.y as int, b.y as int, COORD_LIMIT as int);
    lemma_product_bounded(a.z as int, b.z as int, COORD_LIMIT as int);
    lemma_product_bounded(a.w as int, b.w as int, COORD_LIMIT as int);
}

/// The product of two values each bounded in magnitude by `m` is bounded in
/// magnitude by `m * m`.
proof fn lemma_product_bounded(x: int, y: int, m: int) by (nonlinear_arith)
    requires
        0 <= m,
        -m <= x <= m,
        -m <= y <= m,
    ensures
        -(m * m) <= x * y <= m * m,
{
}

/// Negate a quaternion componentwise; the result denotes the same rotation.
pub fn quat_neg(q: &Quat) -> (r: Quat)
    requires
        q.in_range(),
    ensures
        r == quat_neg_spec(*q),
        r.in_range(),
{
    Quat { x: -q.x, y: -q.y, z: -q.z, w: -q.w }
}

/// Blend a rotation a fraction `overstep / delta` of the way from `last` to
/// `current`, negating `current` first when the two quaternions' dot product
/// is negative so the blend takes the shorter arc.
pub fn quat_lerp(last: Quat, current: Quat, overstep: u64, delta: u64) -> (r: Quat)
    requires
        0 < delta,
        overstep < delta,
        last.in_range(),
        current.in_range(),
    ensures
        r == quat_lerp_spec(last, current, overstep as int, delta as int),
        r.in_range(),
{
    let target: Quat = if quat_dot_negative(&last, &current) {
        quat_neg(&current)
    } else {
        current
    };
    let x = lerp_coord(last.x, target.x, overstep, delta);
    let y = lerp_coord(last.y, target.y, overstep, delta);
    let z = lerp_coord(last.z, target.z, overstep, delta);
    let w = lerp_coord(last.w, target.w, overstep, delta);
    Quat { x, y, z, w }
}

} // verus!
