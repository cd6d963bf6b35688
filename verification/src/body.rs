//! The orbital body model: fixed orbital parameters, a mutable phase angle,
//! and a screen position derived from the angle each frame.
//!
//! A body advances by gaining `2π / orbital_period` micro-radians per
//! micro-day, wrapping the angle by a single conditional subtraction of a
//! full turn. Its screen position is the sun center displaced by the orbital
//! radius, scaled by the zoom factor, along the cosine and sine of the
//! current angle; the trigonometric samples are supplied by the caller as
//! fixed-point values in `[-SCALE, SCALE]`.

use crate::raster;
use crate::units;
use vstd::arithmetic::div_mod::lemma_fundamental_div_mod;
use vstd::arithmetic::div_mod::lemma_mod_bound;
use vstd::math::abs;
use vstd::prelude::*;

verus! {

/// A truncating division drops less than one divisor's worth of magnitude
/// and never changes sign.
proof fn lemma_trunc_div_abs(a: int, d: int)
    requires
        0 < d,
    ensures
        abs(units::trunc_div(a, d)) * d <= abs(a) < (abs(units::trunc_div(a, d)) + 1) * d,
{
    let m = abs(a) as int;
    lemma_fundamental_div_mod(m, d);
    lemma_mod_bound(m, d);
    vstd::arithmetic::div_mod::lemma_div_pos_is_pos(m, d);
    assert(m == d * (m / d) + m % d);
    assert(abs(units::trunc_div(a, d)) == m / d);
    assert((m / d) * d == d * (m / d)) by (nonlinear_arith);
    assert((m / d + 1) * d == d * (m / d) + d) by (nonlinear_arith);
}

/// For ideal trigonometric samples — `c² + s² == SCALE²`, as the scaled
/// cosine and sine of one angle would satisfy exactly — the displacement
/// that `update_position` gives a body lies on the circle of zoom-scaled
/// orbital radius around the sun, within one micro-pixel per axis: with
/// `dx`, `dy` the displacement in micro-pixels, `dx² + dy²` is at most the
/// squared scaled radius, and already `(|dx|+1)² + (|dy|+1)²` exceeds it.
pub proof fn lemma_position_on_scaled_circle(d: int, z: int, c: int, s: int)
    requires
        0 <= d,
        0 <= z,
        c * c + s * s == (units::SCALE as int) * (units::SCALE as int),
    ensures
        ({
            let sc = units::SCALE as int;
            let s2 = sc * sc;
            let dx = units::scaled_offset(d, z, c);
            let dy = units::scaled_offset(d, z, s);
            &&& (dx * dx + dy * dy) * (s2 * s2) <= ((d * z) * (d * z)) * (sc * sc)
            &&& ((abs(dx) + 1) * (abs(dx) + 1) + (abs(dy) + 1) * (abs(dy) + 1)) * (s2 * s2) > ((d
                * z) * (d * z)) * (sc * sc)
        }),
{
    let sc = units::SCALE as int;
    let s2 = sc * sc;
    let x = d * z * c;
    let y = d * z * s;
    let dx = units::scaled_offset(d, z, c);
    let dy = units::scaled_offset(d, z, s);
    assert(s2 == 1_000_000_000_000);
    assert(dx == units::trunc_div(x, s2));
    assert(dy == units::trunc_div(y, s2));
    lemma_trunc_div_abs(x, s2);
    lemma_trunc_div_abs(y, s2);
    let ax = abs(dx) as int;
    let ay = abs(dy) as int;
    let mx = abs(x) as int;
    let my = abs(y) as int;
    assert(ax == dx || ax == -dx);
    assert(ay == dy || ay == -dy);
    assert(mx == x || mx == -x);
    assert(my == y || my == -y);
    assert(ax * s2 <= mx < (ax + 1) * s2);
    assert(ay * s2 <= my < (ay + 1) * s2);
    // the squared magnitudes equal the squared values
    assert(ax * ax == dx * dx && mx * mx == x * x) by (nonlinear_arith)
        requires
            ax == dx || ax == -dx,
            mx == x || mx == -x,
    ;
    assert(ay * ay == dy * dy && my * my == y * y) by (nonlinear_arith)
        requires
            ay == dy || ay == -dy,
            my == y || my == -y,
    ;
    // the displacement, scaled up, is bounded by the exact product per axis
    assert((ax * s2) * (ax * s2) <= mx * mx) by (nonlinear_arith)
        requires
            0 <= ax,
            0 < s2,
            ax * s2 <= mx,
    ;
    assert((ay * s2) * (ay * s2) <= my * my) by (nonlinear_arith)
        requires
            0 <= ay,
            0 < s2,
            ay * s2 <= my,
    ;
    assert((ax * s2) * (ax * s2) == (ax * ax) * (s2 * s2)) by (nonlinear_arith);
    assert((ay * s2) * (ay * s2) == (ay * ay) * (s2 * s2)) by (nonlinear_arith);
    // the exact products trace the scaled circle
    assert(x * x + y * y == ((d * z) * (d * z)) * (c * c + s * s)) by (nonlinear_arith)
        requires
            x == d * z * c,
            y == d * z * s,
    ;
    assert((dx * dx + dy * dy) * (s2 * s2) == (dx * dx) * (s2 * s2) + (dy * dy) * (s2 * s2))
        by (nonlinear_arith);
    // one more micro-pixel per axis overshoots the exact product
    assert(mx * mx < ((ax + 1) * s2) * ((ax + 1) * s2)) by (nonlinear_arith)
        requires
            0 <= mx,
            mx < (ax + 1) * s2,
    ;
    assert(my * my < ((ay + 1) * s2) * ((ay + 1) * s2)) by (nonlinear_arith)
        requires
            0 <= my,
            my < (ay + 1) * s2,
    ;
    assert(((ax + 1) * s2) * ((ax + 1) * s2) == ((ax + 1) * (ax + 1)) * (s2 * s2))
        by (nonlinear_arith);
    assert(((ay + 1) * s2) * ((ay + 1) * s2) == ((ay + 1) * (ay + 1)) * (s2 * s2))
        by (nonlinear_arith);
    assert(((ax + 1) * (ax + 1) + (ay + 1) * (ay + 1)) * (s2 * s2) == ((ax + 1) * (ax + 1)) * (s2
        * s2) + ((ay + 1) * (ay + 1)) * (s2 * s2)) by (nonlinear_arith);
}

/// Largest visual radius a body may be built with, in micro-pixels.
pub const MAX_VISUAL_RADIUS: i64 = 2_000_000_000;

/// Largest orbital radius a body may be built with, in micro-pixels.
pub const MAX_ORBITAL_RADIUS: i64 = 1_000_000_000_000;

/// Largest zoom factor, sun coordinate magnitude, and time step the
/// simulation arithmetic accepts, in fixed-point units.
pub const MAX_FACTOR: i64 = 1_000_000_000_000;

/// One planet: fixed orbital parameters and the per-frame mutable state.
#[derive(Clone, Copy)]
pub struct Planet {
    /// Current screen x coordinate, micro-pixels.
    pub x: i64,
    /// Current screen y coordinate, micro-pixels.
    pub y: i64,
    /// Visual disc radius before zoom scaling, micro-pixels.
    pub radius: i64,
    /// Packed 24-bit RGB color.
    pub color: u32,
    /// Orbital radius: distance from the sun center, micro-pixels.
    pub distance_from_sun: i64,
    /// Simulated days for one full revolution, micro-days.
    pub orbital_period: i64,
    /// Current orbital phase, micro-radians.
    pub angle: i64,
}

impl Planet {
    /// Parameter and state bounds that construction establishes and every
    /// operation preserves.
    pub open spec fn wf(self) -> bool {
        &&& 0 < self.radius <= MAX_VISUAL_RADIUS
        &&& 0 < self.distance_from_sun <= MAX_ORBITAL_RADIUS
        &&& 0 < self.orbital_period
        &&& 0 <= self.angle
    }

    /// Builds a body at phase zero and position `(0, 0)`. Non-positive
    /// radii or period, or parameters beyond the fixed-point capacity, are
    /// rejected: division by the period occurs every frame.
    pub fn new(radius: i64, color: u32, distance_from_sun: i64, orbital_period: i64) -> (r: Option<
        Planet,
    >)
        ensures
            r is Some <==> {
                &&& 0 < radius <= MAX_VISUAL_RADIUS
                &&& 0 < distance_from_sun <= MAX_ORBITAL_RADIUS
                &&& 0 < orbital_period
            },
            r is Some ==> r->Some_0 == (Planet {
                x: 0,
                y: 0,
                radius,
                color,
                distance_from_sun,
                orbital_period,
                angle: 0,
            }),
            r is Some ==> r->Some_0.wf(),
    {
        if 0 < radius && radius <= MAX_VISUAL_RADIUS && 0 < distance_from_sun && distance_from_sun
            <= MAX_ORBITAL_RADIUS && 0 < orbital_period {
            Some(
                Planet {
                    x: 0,
                    y: 0,
                    radius,
                    color,
                    distance_from_sun,
                    orbital_period,
                    angle: 0,
                },
            )
        } else {
            None
        }
    }

    /// Advances the orbital phase by `delta_time` micro-days: the angle
    /// gains `2π · delta_time / orbital_period` and is wrapped by one
    /// conditional subtraction of `2π`. Whenever the angle was below a full
    /// turn and the gain is at most a full turn, the new angle again lies in
    /// `[0, 2π)`.
    pub fn advance_angle(&mut self, delta_time: i64)
        requires
            old(self).wf(),
            0 <= delta_time <= MAX_FACTOR,
            old(self).angle + units::angle_increment(
                old(self).orbital_period as int,
                delta_time as int,
            ) <= i64::MAX,
        ensures
            final (self).angle == units::wrap_once(
                old(self).angle + units::angle_increment(
                    old(self).orbital_period as int,
                    delta_time as int,
                ),
            ),
            *final (self) == (Planet { angle: final (self).angle, ..*old(self) }),
            final (self).wf(),
            old(self).angle < units::TAU_MICRO && units::angle_increment(
                old(self).orbital_period as int,
                delta_time as int,
            ) <= units::TAU_MICRO ==> 0 <= final (self).angle < units::TAU_MICRO,
    {
        let increment = units::compute_angle_increment(self.orbital_period, delta_time);
        self.angle = self.angle + increment;
        if self.angle >= units::TAU_MICRO {
            self.angle = self.angle - units::TAU_MICRO;
        }
    }

    /// Recomputes the screen position from the current phase: the sun center
    /// displaced by the orbital radius, scaled by `zoom_factor`, along the
    /// supplied cosine and sine samples of the angle.
    pub fn update_position(&mut self, sun_x: i64, sun_y: i64, zoom_factor: i64, cos_a: i64, sin_a: i64)
        requires
            old(self).wf(),
            0 <= zoom_factor <= MAX_FACTOR,
            -MAX_FACTOR <= sun_x <= MAX_FACTOR,
            -MAX_FACTOR <= sun_y <= MAX_FACTOR,
            -units::SCALE <= cos_a <= units::SCALE,
            -units::SCALE <= sin_a <= units::SCALE,
        ensures
            final (self).x == sun_x + units::scaled_offset(
                old(self).distance_from_sun as int,
                zoom_factor as int,
                cos_a as int,
            ),
            final (self).y == sun_y + units::scaled_offset(
                old(self).distance_from_sun as int,
                zoom_factor as int,
                sin_a as int,
            ),
            *final (self) == (Planet { x: final (self).x, y: final (self).y, ..*old(self) }),
            final (self).wf(),
    {
        let dx = units::compute_scaled_offset(self.distance_from_sun, zoom_factor, cos_a);
        let dy = units::compute_scaled_offset(self.distance_from_sun, zoom_factor, sin_a);
        self.x = sun_x + dx;
        self.y = sun_y + dy;
    }

    /// The disc radius in whole pixels that this body rasterizes with under
    /// `zoom_factor`: the zoom-scaled visual radius, truncated.
    pub open spec fn spec_scaled_radius(self, zoom_factor: int) -> int {
        units::scaled_radius(self.radius as int, zoom_factor)
    }

    /// Rasterizes the body as a filled disc of its color: exactly the
    /// in-canvas pixels within the zoom-scaled visual radius of the body's
    /// truncated position are painted; out-of-canvas offsets are skipped.
    pub fn draw(&self, buffer: &mut Vec<u32>, width: usize, height: usize, zoom_factor: i64)
        requires
            self.wf(),
            0 <= zoom_factor <= MAX_FACTOR,
            old(buffer).len() == width * height,
            width <= 1_000_000_000,
            height <= 1_000_000_000,
        ensures
            raster::disc_painted(
                old(buffer)@,
                final (buffer)@,
                width as int,
                units::pixel_of(self.x as int),
                units::pixel_of(self.y as int),
                self.spec_scaled_radius(zoom_factor as int),
                self.color,
            ),
    {
        let scaled = units::compute_scaled_radius(self.radius, zoom_factor);
        proof {
            assert(0 <= self.radius * zoom_factor <= 2_000_000_000_000_000_000_000)
                by (nonlinear_arith)
                requires
                    0 < self.radius <= 2_000_000_000,
                    0 <= zoom_factor <= 1_000_000_000_000,
            ;
            assert((self.radius * zoom_factor) / 1_000_000_000_000 <= 2_000_000_000)
                by (nonlinear_arith)
                requires
                    0 <= self.radius * zoom_factor <= 2_000_000_000_000_000_000_000,
            ;
        }
        let cx = units::compute_pixel(self.x);
        let cy = units::compute_pixel(self.y);
        raster::fill_disc(buffer, width, height, cx, cy, scaled, self.color);
    }
}

} // verus!
