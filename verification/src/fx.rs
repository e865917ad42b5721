//! Fixed-point scalar arithmetic.
//!
//! A stored `i64` value `x` denotes the real number `x / 1000`; durations are
//! in milliseconds, so scaling a rate by an elapsed time divides by the same
//! factor of 1000. Every stored scalar is kept inside `[-FX_MAX, FX_MAX]` and
//! the operations here saturate at that bound instead of overflowing.

use vstd::prelude::*;

verus! {

/// Number of fixed-point steps per world unit (and milliseconds per second).
pub const FX_SCALE: i64 = 1000;

/// Magnitude bound on every stored scalar.
pub const FX_MAX: i64 = 1_000_000_000_000_000_000;

/// A scalar the store may hold.
pub open spec fn fx_bounded(x: int) -> bool {
    -(FX_MAX as int) <= x <= FX_MAX as int
}

/// Saturation to the representable band.
pub open spec fn fx_clip(x: int) -> int {
    if x > FX_MAX as int {
        FX_MAX as int
    } else if x < -(FX_MAX as int) {
        -(FX_MAX as int)
    } else {
        x
    }
}

/// `x * dt / 1000`, rounded toward zero: the scaled product of a rate `x`
/// (per second) with an elapsed time `dt` (milliseconds).
pub open spec fn scale_by_time(x: int, dt: int) -> int
    recommends
        dt >= 0,
{
    if x >= 0 {
        (x * dt) / (FX_SCALE as int)
    } else {
        -(((-x) * dt) / (FX_SCALE as int))
    }
}

/// `a * b / 1000`, rounded toward zero: the product of two fixed-point
/// scalars, e.g. a unit direction component with a speed.
pub open spec fn fx_mul_spec(a: int, b: int) -> int {
    if a >= 0 && b >= 0 {
        (a * b) / (FX_SCALE as int)
    } else if a < 0 && b < 0 {
        ((-a) * (-b)) / (FX_SCALE as int)
    } else if a < 0 {
        -(((-a) * b) / (FX_SCALE as int))
    } else {
        -((a * (-b)) / (FX_SCALE as int))
    }
}

/// Saturating addition of two bounded scalars.
pub fn fx_add(a: i64, b: i64) -> (r: i64)
    requires
        fx_bounded(a as int),
        fx_bounded(b as int),
    ensures
        r as int == fx_clip(a + b),
        fx_bounded(r as int),
{
    let s: i64 = a + b;
    if s > FX_MAX {
        FX_MAX
    } else if s < -FX_MAX {
        -FX_MAX
    } else {
        s
    }
}

/// Saturating `x * dt / 1000` for a nonnegative elapsed time `dt`.
pub fn fx_scale_time(x: i64, dt: u64) -> (r: i64)
    requires
        fx_bounded(x as int),
    ensures
        r as int == fx_clip(scale_by_time(x as int, dt as int)),
        fx_bounded(r as int),
{
    let ax: u64 = if x >= 0 {
        x as u64
    } else {
        (-x) as u64
    };
    assert((ax as u128) * (dt as u128) <= u128::MAX) by (nonlinear_arith)
        requires
            ax <= u64::MAX,
            dt <= u64::MAX,
    ;
    let prod: u128 = (ax as u128) * (dt as u128);
    let q: u128 = prod / 1000;
    if x >= 0 {
        if q > FX_MAX as u128 {
            FX_MAX
        } else {
            q as i64
        }
    } else {
        if q > FX_MAX as u128 {
            -FX_MAX
        } else {
            -(q as i64)
        }
    }
}

/// Saturating fixed-point product `a * b / 1000`.
pub fn fx_mul(a: i64, b: i64) -> (r: i64)
    requires
        fx_bounded(a as int),
        fx_bounded(b as int),
    ensures
        r as int == fx_clip(fx_mul_spec(a as int, b as int)),
        fx_bounded(r as int),
{
    let aa: u64 = if a >= 0 {
        a as u64
    } else {
        (-a) as u64
    };
    let ab: u64 = if b >= 0 {
        b as u64
    } else {
        (-b) as u64
    };
    assert((aa as u128) * (ab as u128) <= u128::MAX) by (nonlinear_arith)
        requires
            aa <= u64::MAX,
            ab <= u64::MAX,
    ;
    let prod: u128 = (aa as u128) * (ab as u128);
    let q: u128 = prod / 1000;
    let negative: bool = (a < 0) != (b < 0);
    if negative {
        if q > FX_MAX as u128 {
            -FX_MAX
        } else {
            -(q as i64)
        }
    } else {
        if q > FX_MAX as u128 {
            FX_MAX
        } else {
            q as i64
        }
    }
}

/// Saturate a wide intermediate back into the representable band.
pub fn fx_clip128(x: i128) -> (r: i64)
    ensures
        r as int == fx_clip(x as int),
        fx_bounded(r as int),
{
    if x > FX_MAX as i128 {
        FX_MAX
    } else if x < -(FX_MAX as i128) {
        -FX_MAX
    } else {
        x as i64
    }
}

/// Integer square root, rounded down.
pub open spec fn sqrt_floor(n: int) -> int
    recommends
        n >= 0,
    decreases n,
{
    if n <= 0 {
        0
    } else {
        let r = sqrt_floor(n - 1);
        if (r + 1) * (r + 1) <= n {
            r + 1
        } else {
            r
        }
    }
}

/// `sqrt_floor(n)` is the unique nonnegative root with `r^2 <= n < (r+1)^2`.
pub proof fn lemma_sqrt_floor(n: int)
    requires
        n >= 0,
    ensures
        sqrt_floor(n) >= 0,
        sqrt_floor(n) * sqrt_floor(n) <= n,
        n < (sqrt_floor(n) + 1) * (sqrt_floor(n) + 1),
    decreases n,
{
    if n == 0 {
    } else {
        lemma_sqrt_floor(n - 1);
        let r = sqrt_floor(n - 1);
        if (r + 1) * (r + 1) <= n {
            assert(n == (r + 1) * (r + 1));
            assert(n < (r + 2) * (r + 2)) by (nonlinear_arith)
                requires
                    n == (r + 1) * (r + 1),
                    r >= 0,
            ;
        }
    }
}

pub proof fn lemma_sqrt_floor_unique(n: int, r: int)
    requires
        n >= 0,
        r >= 0,
        r * r <= n,
        n < (r + 1) * (r + 1),
    ensures
        r == sqrt_floor(n),
{
    lemma_sqrt_floor(n);
    let s = sqrt_floor(n);
    if r < s {
        assert((r + 1) * (r + 1) <= s * s) by (nonlinear_arith)
            requires
                0 <= r + 1 <= s,
        ;
    } else if s < r {
        assert((s + 1) * (s + 1) <= r * r) by (nonlinear_arith)
            requires
                0 <= s + 1 <= r,
        ;
    }
}

/// Executable integer square root for the squared norms used here.
pub fn isqrt64(n: u64) -> (r: u64)
    requires
        n <= 4_000_000_000_000,
    ensures
        r as int == sqrt_floor(n as int),
        (r as int) * (r as int) <= n as int,
        (n as int) < (r as int + 1) * (r as int + 1),
{
    let mut r: u64 = 0;
    loop
        invariant
            n <= 4_000_000_000_000,
            r <= 2_000_000,
            (r as int) * (r as int) <= n as int,
        ensures
            (r as int) * (r as int) <= n as int,
            (n as int) < (r as int + 1) * (r as int + 1),
        decreases 2_000_001 - r as int,
    {
        assert(((r + 1) as int) * ((r + 1) as int) <= 4_100_000_000_001) by (nonlinear_arith)
            requires
                0 <= r <= 2_000_000,
        ;
        let rp: u64 = r + 1;
        let sq: u64 = rp * rp;
        if sq > n {
            break;
        }
        r = rp;
        assert(r <= 2_000_000) by (nonlinear_arith)
            requires
                (r as int) * (r as int) <= 4_000_000_000_000,
                r >= 1,
        ;
    }
    proof {
        lemma_sqrt_floor_unique(n as int, r as int);
    }
    r
}

} // verus!
