//! Three-component fixed-point vectors: translations, velocities and
//! accelerations all use this type.

use vstd::prelude::*;
use crate::fx::{fx_bounded, fx_clip, scale_by_time, fx_add, fx_scale_time, sqrt_floor, isqrt64};

verus! {

#[derive(Clone, Copy, Debug, PartialEq, Eq, Structural)]
pub struct Vec3Fx {
    pub x: i64,
    pub y: i64,
    pub z: i64,
}

/// Every component within the representable band.
pub open spec fn vec_bounded(v: Vec3Fx) -> bool {
    fx_bounded(v.x as int) && fx_bounded(v.y as int) && fx_bounded(v.z as int)
}

/// Squared Euclidean distance between two points.
pub open spec fn dist_sq(a: Vec3Fx, b: Vec3Fx) -> int {
    (a.x - b.x) * (a.x - b.x) + (a.y - b.y) * (a.y - b.y) + (a.z - b.z) * (a.z - b.z)
}

/// Squared distance from the origin.
pub open spec fn norm_sq(v: Vec3Fx) -> int {
    v.x * v.x + v.y * v.y + v.z * v.z
}

/// One scalar advanced by `rate` for `dt` milliseconds, each stage
/// saturating at the representable band.
pub open spec fn scalar_step(v: int, rate: int, dt: int) -> int {
    fx_clip(v + fx_clip(scale_by_time(rate, dt)))
}

/// The vector advanced by `rate` for `dt` milliseconds, saturating.
pub open spec fn vec_step(v: Vec3Fx, rate: Vec3Fx, dt: int) -> Vec3Fx {
    Vec3Fx {
        x: scalar_step(v.x as int, rate.x as int, dt) as i64,
        y: scalar_step(v.y as int, rate.y as int, dt) as i64,
        z: scalar_step(v.z as int, rate.z as int, dt) as i64,
    }
}

impl Vec3Fx {
    pub fn zero() -> (r: Vec3Fx)
        ensures
            r == (Vec3Fx { x: 0i64, y: 0i64, z: 0i64 }),
    {
        Vec3Fx { x: 0, y: 0, z: 0 }
    }

    /// `self + rate * dt / 1000` componentwise, saturating.
    pub fn step(self, rate: Vec3Fx, dt: u64) -> (r: Vec3Fx)
        requires
            vec_bounded(self),
            vec_bounded(rate),
        ensures
            r == vec_step(self, rate, dt as int),
            vec_bounded(r),
    {
        Vec3Fx {
            x: fx_add(self.x, fx_scale_time(rate.x, dt)),
            y: fx_add(self.y, fx_scale_time(rate.y, dt)),
            z: fx_add(self.z, fx_scale_time(rate.z, dt)),
        }
    }
}

/// Fixed-point length of the x/z plane offset `(rx, rz)`.
pub open spec fn dir_len(rx: int, rz: int) -> int {
    sqrt_floor(rx * rx + rz * rz)
}

/// One component of the offset normalized to length `len` and scaled by
/// `mag`, rounding toward zero.
pub open spec fn dir_comp(c: int, len: int, mag: int) -> int
    recommends
        len >= 1,
        mag >= 0,
{
    if c >= 0 {
        (c * mag) / len
    } else {
        -(((-c) * mag) / len)
    }
}

/// The x/z plane offset `(rx, rz)` normalized — the zero offset yields the
/// zero vector rather than an error — and scaled to magnitude `mag`.
pub open spec fn dir_scaled_spec(rx: int, rz: int, mag: int) -> Vec3Fx {
    if rx == 0 && rz == 0 {
        Vec3Fx { x: 0i64, y: 0i64, z: 0i64 }
    } else {
        Vec3Fx {
            x: dir_comp(rx, dir_len(rx, rz), mag) as i64,
            y: 0i64,
            z: dir_comp(rz, dir_len(rx, rz), mag) as i64,
        }
    }
}

/// Magnitude of an i64 as a u64, for small inputs.
fn abs_small(c: i64) -> (a: u64)
    requires
        -1_000_000 <= c <= 1_000_000,
    ensures
        a == (if c >= 0 { c as int } else { -(c as int) }),
        a <= 1_000_000,
{
    if c >= 0 {
        c as u64
    } else {
        (-c) as u64
    }
}

/// Normalize the x/z plane offset `(rx, rz)` and scale it by `mag`.
pub fn dir_scaled(rx: i64, rz: i64, mag: i64) -> (v: Vec3Fx)
    requires
        -1_000_000 <= rx <= 1_000_000,
        -1_000_000 <= rz <= 1_000_000,
        0 <= mag <= 1_000_000_000,
    ensures
        v == dir_scaled_spec(rx as int, rz as int, mag as int),
        v.y == 0,
        -mag <= v.x <= mag,
        -mag <= v.z <= mag,
        vec_bounded(v),
{
    if rx == 0 && rz == 0 {
        return Vec3Fx { x: 0, y: 0, z: 0 };
    }
    let ax: u64 = abs_small(rx);
    let az: u64 = abs_small(rz);
    assert((ax as int) * (ax as int) == (rx as int) * (rx as int)
        && (az as int) * (az as int) == (rz as int) * (rz as int)
        && (ax as int) * (ax as int) + (az as int) * (az as int) <= 2_000_000_000_000
        && (ax as int) * (ax as int) + (az as int) * (az as int) >= 1) by (nonlinear_arith)
        requires
            ax as int == (if rx >= 0 { rx as int } else { -(rx as int) }),
            az as int == (if rz >= 0 { rz as int } else { -(rz as int) }),
            0 <= ax <= 1_000_000,
            0 <= az <= 1_000_000,
            !(rx == 0 && rz == 0),
    ;
    let n: u64 = ax * ax + az * az;
    let len: u64 = isqrt64(n);
    assert(len >= 1) by {
        if len == 0 {
            assert((len as int + 1) * (len as int + 1) == 1) by (nonlinear_arith)
                requires
                    len == 0,
            ;
        }
    }
    let cx: i64 = dir_comp_exec(rx, ax, len, mag);
    let cz: i64 = dir_comp_exec(rz, az, len, mag);
    proof {
        lemma_dir_comp_bounded(rx as int, len as int, mag as int, ax as int, n as int);
        lemma_dir_comp_bounded(rz as int, len as int, mag as int, az as int, n as int);
    }
    Vec3Fx { x: cx, y: 0, z: cz }
}

/// One normalized, scaled component; `a` is the magnitude of `c` and `len`
/// the length of the whole offset.
fn dir_comp_exec(c: i64, a: u64, len: u64, mag: i64) -> (r: i64)
    requires
        a == (if c >= 0 { c as int } else { -(c as int) }),
        a <= 1_000_000,
        1 <= len,
        0 <= mag <= 1_000_000_000,
    ensures
        r as int == dir_comp(c as int, len as int, mag as int),
{
    assert((a as int) * (mag as int) <= 1_000_000_000_000_000) by (nonlinear_arith)
        requires
            0 <= a <= 1_000_000,
            0 <= mag <= 1_000_000_000,
    ;
    let q: u64 = (a * (mag as u64)) / len;
    assert(q <= 1_000_000_000_000_000) by {
        vstd::arithmetic::div_mod::lemma_div_is_ordered(
            (a as int) * (mag as int),
            1_000_000_000_000_000,
            len as int,
        );
    }
    if c >= 0 {
        q as i64
    } else {
        -(q as i64)
    }
}

/// The normalized, scaled component never exceeds the magnitude it is
/// scaled to.
proof fn lemma_dir_comp_bounded(c: int, len: int, mag: int, a: int, n: int)
    requires
        a == (if c >= 0 { c } else { -c }),
        a * a <= n,
        n >= 0,
        len == sqrt_floor(n),
        len >= 1,
        mag >= 0,
    ensures
        -mag <= dir_comp(c, len, mag) <= mag,
{
    crate::fx::lemma_sqrt_floor(n);
    assert(a <= len) by (nonlinear_arith)
        requires
            a * a <= n,
            n < (len + 1) * (len + 1),
            a >= 0,
            len >= 0,
    ;
    assert(a * mag <= len * mag) by (nonlinear_arith)
        requires
            0 <= a <= len,
            mag >= 0,
    ;
    vstd::arithmetic::div_mod::lemma_div_is_ordered(a * mag, len * mag, len);
    vstd::arithmetic::div_mod::lemma_div_multiples_vanish(mag, len);
    assert(len * mag == mag * len) by (nonlinear_arith);
    assert((a * mag) / len <= mag);
    assert((a * mag) / len >= 0) by {
        vstd::arithmetic::div_mod::lemma_div_is_ordered(0, a * mag, len);
        assert(a * mag >= 0) by (nonlinear_arith)
            requires
                a >= 0,
                mag >= 0,
        ;
    }
}

} // verus!
