//! Fixed-point units and the truncating arithmetic the simulation is built on.
//!
//! Every continuous quantity of the simulation is held as an `i64` count of
//! millionths: lengths in micro-pixels, times in micro-days, angles in
//! micro-radians, and dimensionless factors (zoom, cosine, sine) scaled by
//! `SCALE`. Products of two scaled factors are divided by `SCALE * SCALE`,
//! rounding toward zero, which is the rounding a float-to-integer cast
//! performs.

use vstd::prelude::*;

verus! {

/// Number of fixed-point units in one whole unit.
pub const SCALE: i64 = 1_000_000;

/// One full revolution, 2π, in micro-radians (truncated).
pub const TAU_MICRO: i64 = 6_283_185;

/// Division that rounds toward zero, for a positive divisor `d`.
pub open spec fn trunc_div(a: int, d: int) -> int {
    if a >= 0 {
        a / d
    } else {
        -((-a) / d)
    }
}

/// The phase increment gained over `dt` micro-days by a body whose orbital
/// period is `period` micro-days: `2π · dt / period` in micro-radians,
/// truncated.
pub open spec fn angle_increment(period: int, dt: int) -> int {
    (TAU_MICRO * dt) / period
}

/// One conditional subtraction of a full turn: the wraparound policy applied
/// after each phase advance. A phase more than one turn past `2π` is not
/// normalized further.
pub open spec fn wrap_once(a: int) -> int {
    if a >= TAU_MICRO {
        a - TAU_MICRO
    } else {
        a
    }
}

/// Product of a length `d`, a scaled factor `z`, and a scaled factor `t`,
/// brought back to length units by dividing out both scales, toward zero.
pub open spec fn scaled_offset(d: int, z: int, t: int) -> int {
    trunc_div(d * z * t, SCALE * SCALE)
}

/// A length `v` times a scaled factor `z`, brought back to whole pixels by
/// dividing out the length scale and the factor scale, toward zero.
pub open spec fn scaled_radius(v: int, z: int) -> int {
    (v * z) / (SCALE * SCALE)
}

/// The whole-pixel coordinate that a micro-pixel coordinate truncates to.
pub open spec fn pixel_of(v: int) -> int {
    trunc_div(v, SCALE as int)
}

/// Computes `angle_increment(period, dt)`.
pub fn compute_angle_increment(period: i64, dt: i64) -> (r: i64)
    requires
        1 <= period,
        0 <= dt <= 1_000_000_000_000,
    ensures
        r == angle_increment(period as int, dt as int),
        0 <= r <= TAU_MICRO * dt,
{
    let n: u128 = (TAU_MICRO as u128) * (dt as u128);
    proof {
        assert(n <= 6_283_185_000_000_000_000u128) by (nonlinear_arith)
            requires
                n == (TAU_MICRO as u128) * (dt as u128),
                TAU_MICRO as u128 == 6_283_185u128,
                dt as u128 <= 1_000_000_000_000u128,
        ;
    }
    let q: u128 = n / (period as u128);
    proof {
        assert(q <= n) by (nonlinear_arith)
            requires
                q == n / (period as u128),
                1 <= period as u128,
        ;
    }
    q as i64
}

/// Computes `scaled_offset(d, z, t)` for a nonnegative length and factor and
/// a trigonometric sample `t` in `[-SCALE, SCALE]`.
pub fn compute_scaled_offset(d: i64, z: i64, t: i64) -> (r: i64)
    requires
        0 <= d <= 1_000_000_000_000,
        0 <= z <= 1_000_000_000_000,
        -SCALE <= t <= SCALE,
    ensures
        r == scaled_offset(d as int, z as int, t as int),
        -1_000_000_000_000_000_000 <= r <= 1_000_000_000_000_000_000,
{
    let tm: u128 = if t < 0 {
        (-t) as u128
    } else {
        t as u128
    };
    proof {
        assert((d as u128) * (z as u128) <= 1_000_000_000_000_000_000_000_000u128)
            by (nonlinear_arith)
            requires
                d as u128 <= 1_000_000_000_000u128,
                z as u128 <= 1_000_000_000_000u128,
        ;
    }
    let dz: u128 = (d as u128) * (z as u128);
    proof {
        assert(dz * tm <= 1_000_000_000_000_000_000_000_000_000_000u128) by (nonlinear_arith)
            requires
                dz <= 1_000_000_000_000_000_000_000_000u128,
                tm <= 1_000_000u128,
        ;
    }
    let prod: u128 = dz * tm;
    let q: u128 = prod / 1_000_000_000_000u128;
    proof {
        assert(q <= 1_000_000_000_000_000_000u128) by (nonlinear_arith)
            requires
                q == prod / 1_000_000_000_000u128,
                prod <= 1_000_000_000_000_000_000_000_000_000_000u128,
        ;
        assert(d as int * z as int * t as int == if t < 0 {
            -(prod as int)
        } else {
            prod as int
        }) by (nonlinear_arith)
            requires
                prod as int == (d as int) * (z as int) * (tm as int),
                tm as int == if t < 0 { -(t as int) } else { t as int },
                0 <= d,
                0 <= z,
        ;
    }
    if t < 0 {
        -(q as i64)
    } else {
        q as i64
    }
}

/// Computes `scaled_radius(v, z)` for a nonnegative length and factor.
pub fn compute_scaled_radius(v: i64, z: i64) -> (r: i64)
    requires
        0 <= v <= 1_000_000_000_000,
        0 <= z <= 1_000_000_000_000,
    ensures
        r == scaled_radius(v as int, z as int),
        0 <= r <= 1_000_000_000_000,
{
    proof {
        assert((v as u128) * (z as u128) <= 1_000_000_000_000_000_000_000_000u128)
            by (nonlinear_arith)
            requires
                v as u128 <= 1_000_000_000_000u128,
                z as u128 <= 1_000_000_000_000u128,
        ;
    }
    let prod: u128 = (v as u128) * (z as u128);
    let q: u128 = prod / 1_000_000_000_000u128;
    proof {
        assert(q <= 1_000_000_000_000u128) by (nonlinear_arith)
            requires
                q == prod / 1_000_000_000_000u128,
                prod <= 1_000_000_000_000_000_000_000_000u128,
        ;
    }
    q as i64
}

/// Computes `pixel_of(v)`: the whole-pixel coordinate of a micro-pixel one.
pub fn compute_pixel(v: i64) -> (r: i64)
    ensures
        r == pixel_of(v as int),
        -9_223_372_036_855 <= r <= 9_223_372_036_855,
{
    if v >= 0 {
        let q: u64 = (v as u64) / 1_000_000;
        proof {
            assert(q <= 9_223_372_036_854) by (nonlinear_arith)
                requires
                    q == (v as u64) / 1_000_000u64,
                    v as u64 <= 9_223_372_036_854_775_807u64,
            ;
        }
        q as i64
    } else {
        let m: u64 = if v == i64::MIN {
            9_223_372_036_854_775_808u64
        } else {
            (-v) as u64
        };
        let q: u64 = m / 1_000_000;
        proof {
            assert(q <= 9_223_372_036_855) by (nonlinear_arith)
                requires
                    q == m / 1_000_000u64,
                    m <= 9_223_372_036_854_775_808u64,
            ;
        }
        -(q as i64)
    }
}

} // verus!
