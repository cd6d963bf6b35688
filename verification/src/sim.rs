//! The per-frame simulation state and the update-and-rasterize step.
//!
//! Each frame, while the display stays open: the buffer is cleared to black,
//! zoom input scales the zoom factor multiplicatively, every planet advances
//! its phase and is rasterized in list order, and the sun is rasterized
//! last, so it wins every contested pixel. Presenting the buffer, and the
//! trigonometry of the advanced angles, belong to the windowing layer.

use crate::body::MAX_FACTOR;
use crate::body::Planet;
use crate::raster;
use crate::units;
use vstd::prelude::*;

verus! {

/// Base sun radius before zoom scaling, micro-pixels.
pub const SUN_RADIUS_MICRO: i64 = 50_000_000;

/// The sun's packed RGB color.
pub const SUN_COLOR: u32 = 0xFFFF00;

/// The background the buffer is cleared to each frame.
pub const BACKGROUND_COLOR: u32 = 0x000000;

/// Zoom-in multiplier per frame, scaled by `SCALE`: ×1.01.
pub const ZOOM_IN_NUMER: i64 = 1_010_000;

/// Zoom-out multiplier per frame, scaled by `SCALE`: ×0.99.
pub const ZOOM_OUT_NUMER: i64 = 990_000;

/// Largest canvas side length, in pixels.
pub const MAX_CANVAS: usize = 1_000_000;

/// Fixed-point cosine and sine of one body's current angle, each scaled by
/// `SCALE`, supplied by the windowing layer after the angles advance.
#[derive(Clone, Copy)]
pub struct TrigSample {
    /// Cosine of the angle, scaled by `SCALE`.
    pub cos_a: i64,
    /// Sine of the angle, scaled by `SCALE`.
    pub sin_a: i64,
}

impl TrigSample {
    /// A sample of a real cosine or sine never leaves `[-1, 1]`.
    pub open spec fn wf(self) -> bool {
        &&& -units::SCALE <= self.cos_a <= units::SCALE
        &&& -units::SCALE <= self.sin_a <= units::SCALE
    }
}

/// The zoom factor after one frame's input sampling: an active zoom-in
/// control multiplies by 1.01 (capped at the fixed-point capacity), then an
/// active zoom-out control multiplies by 0.99; both may apply in one frame.
pub open spec fn zoom_step(z: int, zoom_in: bool, zoom_out: bool) -> int {
    let z1 = if zoom_in {
        let grown = (z * ZOOM_IN_NUMER) / (units::SCALE as int);
        if grown > MAX_FACTOR {
            MAX_FACTOR as int
        } else {
            grown
        }
    } else {
        z
    };
    if zoom_out {
        (z1 * ZOOM_OUT_NUMER) / (units::SCALE as int)
    } else {
        z1
    }
}

/// The planet a body becomes when its phase advances by `dt` micro-days.
pub open spec fn advanced(p: Planet, dt: int) -> Planet {
    Planet {
        angle: units::wrap_once(p.angle + units::angle_increment(p.orbital_period as int, dt)) as i64,
        ..p
    }
}

/// The planet a body becomes when its position is recomputed from the sun
/// center, the zoom factor, and its trigonometric sample.
pub open spec fn positioned(p: Planet, sun_x: int, sun_y: int, z: int, t: TrigSample) -> Planet {
    Planet {
        x: (sun_x + units::scaled_offset(p.distance_from_sun as int, z, t.cos_a as int)) as i64,
        y: (sun_y + units::scaled_offset(p.distance_from_sun as int, z, t.sin_a as int)) as i64,
        ..p
    }
}

/// The color the first `n` planets of the list leave at buffer index `i`
/// over a black background: later planets overwrite earlier ones.
pub open spec fn planets_layer(planets: Seq<Planet>, n: int, w: int, z: int, i: int) -> u32
    decreases n,
{
    if n <= 0 {
        BACKGROUND_COLOR
    } else {
        let p = planets[n - 1];
        if raster::disc_hit(
            i,
            w,
            units::pixel_of(p.x as int),
            units::pixel_of(p.y as int),
            units::scaled_radius(p.radius as int, z),
        ) {
            p.color
        } else {
            planets_layer(planets, n - 1, w, z, i)
        }
    }
}

/// A body at phase zero and position `(0, 0)`, as construction leaves it.
pub open spec fn start_planet(radius: i64, color: u32, distance_from_sun: i64, orbital_period: i64) -> Planet {
    Planet { x: 0, y: 0, radius, color, distance_from_sun, orbital_period, angle: 0 }
}

/// The nine compiled-in bodies, in draw order, with their visual radius,
/// color, orbital radius and orbital period in fixed-point units.
pub open spec fn solar_seq() -> Seq<Planet> {
    seq![
        start_planet(4_000_000, 0x888888, 60_000_000, 88_000_000),
        start_planet(8_000_000, 0xFFFF00, 100_000_000, 225_000_000),
        start_planet(12_000_000, 0x0000FF, 150_000_000, 365_000_000),
        start_planet(10_000_000, 0xFF4500, 200_000_000, 687_000_000),
        start_planet(25_000_000, 0x8B4513, 300_000_000, 4_333_000_000),
        start_planet(22_000_000, 0xFFD700, 400_000_000, 10_759_000_000),
        start_planet(18_000_000, 0x00FFFF, 500_000_000, 30_687_000_000),
        start_planet(18_000_000, 0x0000FF, 600_000_000, 60_190_000_000),
        start_planet(6_000_000, 0xA9A9A9, 700_000_000, 90_560_000_000),
    ]
}

/// Builds one body from its parameters and appends it; the parameters of
/// every compiled-in body satisfy the construction checks.
fn push_body(v: &mut Vec<Planet>, radius: i64, color: u32, distance_from_sun: i64, orbital_period: i64)
    requires
        0 < radius <= crate::body::MAX_VISUAL_RADIUS,
        0 < distance_from_sun <= crate::body::MAX_ORBITAL_RADIUS,
        0 < orbital_period,
    ensures
        final (v)@ == old(v)@.push(start_planet(radius, color, distance_from_sun, orbital_period)),
{
    match Planet::new(radius, color, distance_from_sun, orbital_period) {
        Some(p) => {
            v.push(p);
        },
        None => {},
    }
}

/// The compiled-in planet list: the nine bodies of `solar_seq`, in order.
pub fn solar_system() -> (v: Vec<Planet>)
    ensures
        v@ == solar_seq(),
{
    let mut v: Vec<Planet> = Vec::new();
    push_body(&mut v, 4_000_000, 0x888888, 60_000_000, 88_000_000);
    push_body(&mut v, 8_000_000, 0xFFFF00, 100_000_000, 225_000_000);
    push_body(&mut v, 12_000_000, 0x0000FF, 150_000_000, 365_000_000);
    push_body(&mut v, 10_000_000, 0xFF4500, 200_000_000, 687_000_000);
    push_body(&mut v, 25_000_000, 0x8B4513, 300_000_000, 4_333_000_000);
    push_body(&mut v, 22_000_000, 0xFFD700, 400_000_000, 10_759_000_000);
    push_body(&mut v, 18_000_000, 0x00FFFF, 500_000_000, 30_687_000_000);
    push_body(&mut v, 18_000_000, 0x0000FF, 600_000_000, 60_190_000_000);
    push_body(&mut v, 6_000_000, 0xA9A9A9, 700_000_000, 90_560_000_000);
    proof {
        assert(v@ =~= solar_seq());
    }
    v
}

/// The whole simulation state: the planet list, the fixed sun center, the
/// zoom factor, and the constant per-frame time step.
pub struct Sim {
    /// The bodies, in draw order.
    pub planets: Vec<Planet>,
    /// Sun center x, micro-pixels: fixed at the canvas center.
    pub sun_x: i64,
    /// Sun center y, micro-pixels: fixed at the canvas center.
    pub sun_y: i64,
    /// Current multiplicative zoom, scaled by `SCALE`; starts at one.
    pub zoom_factor: i64,
    /// Simulated micro-days advanced per frame; constant.
    pub time_step: i64,
    /// Canvas width in pixels.
    pub width: usize,
    /// Canvas height in pixels.
    pub height: usize,
}

impl Sim {
    /// Bounds that construction establishes and every frame preserves. The
    /// time step never exceeds an orbital period, so the single-subtraction
    /// wraparound keeps every angle below a full turn.
    pub open spec fn wf(self) -> bool {
        &&& forall|j: int|
            0 <= j < self.planets@.len() ==> {
                &&& (#[trigger] self.planets@[j]).wf()
                &&& self.planets@[j].angle < units::TAU_MICRO
                &&& self.time_step <= self.planets@[j].orbital_period
            }
        &&& 0 < self.time_step <= MAX_FACTOR
        &&& 0 <= self.zoom_factor <= MAX_FACTOR
        &&& -MAX_FACTOR <= self.sun_x <= MAX_FACTOR
        &&& -MAX_FACTOR <= self.sun_y <= MAX_FACTOR
        &&& 0 < self.width <= MAX_CANVAS
        &&& 0 < self.height <= MAX_CANVAS
    }

    /// The color a finished frame leaves at buffer index `i`: the sun's if
    /// the sun disc covers the pixel, else the last covering planet's, else
    /// the background.
    pub open spec fn frame_pixel(self, i: int) -> u32 {
        if raster::disc_hit(
            i,
            self.width as int,
            units::pixel_of(self.sun_x as int),
            units::pixel_of(self.sun_y as int),
            units::scaled_radius(SUN_RADIUS_MICRO as int, self.zoom_factor as int),
        ) {
            SUN_COLOR
        } else {
            planets_layer(
                self.planets@,
                self.planets@.len() as int,
                self.width as int,
                self.zoom_factor as int,
                i,
            )
        }
    }

    /// Builds the simulation over a canvas of the given size: the nine
    /// compiled-in bodies, the sun fixed at the canvas center, zoom one,
    /// and a time step of one simulated day per frame. A degenerate or
    /// oversized canvas is rejected.
    pub fn new(width: usize, height: usize) -> (r: Option<Sim>)
        ensures
            r is Some <==> (0 < width <= MAX_CANVAS && 0 < height <= MAX_CANVAS),
            r is Some ==> {
                let s = r->Some_0;
                &&& s.wf()
                &&& s.planets@ == solar_seq()
                &&& s.sun_x == (width * units::SCALE) / 2
                &&& s.sun_y == (height * units::SCALE) / 2
                &&& s.zoom_factor == units::SCALE
                &&& s.time_step == units::SCALE
                &&& s.width == width
                &&& s.height == height
            },
    {
        if 0 < width && width <= MAX_CANVAS && 0 < height && height <= MAX_CANVAS {
            let sun_x = ((width as u64) * 1_000_000 / 2) as i64;
            let sun_y = ((height as u64) * 1_000_000 / 2) as i64;
            let s = Sim {
                planets: solar_system(),
                sun_x,
                sun_y,
                zoom_factor: units::SCALE,
                time_step: units::SCALE,
                width,
                height,
            };
            proof {
                assert forall|j: int| 0 <= j < s.planets@.len() implies {
                    &&& (#[trigger] s.planets@[j]).wf()
                    &&& s.planets@[j].angle < units::TAU_MICRO
                    &&& s.time_step <= s.planets@[j].orbital_period
                } by {
                    assert(s.planets@ == solar_seq());
                }
            }
            Some(s)
        } else {
            None
        }
    }

    /// Whether the frame loop keeps running: the display is open and the
    /// exit key is not pressed. Anything else transitions to Terminated.
    pub fn should_continue(display_open: bool, exit_key_down: bool) -> (r: bool)
        ensures
            r == (display_open && !exit_key_down),
    {
        display_open && !exit_key_down
    }

    /// Samples the zoom controls: zoom-in multiplies the factor by 1.01,
    /// zoom-out by 0.99, both in one frame if both are active.
    pub fn apply_zoom(&mut self, zoom_in: bool, zoom_out: bool)
        requires
            old(self).wf(),
        ensures
            final (self).zoom_factor == zoom_step(old(self).zoom_factor as int, zoom_in, zoom_out),
            *final (self) == (Sim { zoom_factor: final (self).zoom_factor, ..*old(self) }),
            final (self).wf(),
    {
        if zoom_in {
            let grown: u64 = (self.zoom_factor as u64) * 1_010_000 / 1_000_000;
            self.zoom_factor = if grown > (MAX_FACTOR as u64) {
                MAX_FACTOR
            } else {
                grown as i64
            };
        }
        if zoom_out {
            let shrunk: u64 = (self.zoom_factor as u64) * 990_000 / 1_000_000;
            proof {
                assert((self.zoom_factor as u64) * 990_000 / 1_000_000 <= (
                self.zoom_factor as u64)) by (nonlinear_arith)
                    requires
                        (self.zoom_factor as u64) * 990_000 <= u64::MAX,
                ;
            }
            self.zoom_factor = shrunk as i64;
        }
    }

    /// Advances every planet's phase by the per-frame time step, in list
    /// order. Positions are untouched until the caller supplies the
    /// trigonometry of the new angles.
    pub fn advance_planets(&mut self)
        requires
            old(self).wf(),
        ensures
            final (self).planets@.len() == old(self).planets@.len(),
            forall|j: int|
                0 <= j < old(self).planets@.len() ==> final (self).planets@[j] == advanced(
                    old(self).planets@[j],
                    old(self).time_step as int,
                ),
            *final (self) == (Sim { planets: final (self).planets, ..*old(self) }),
            final (self).wf(),
    {
        let ghost orig = self.planets@;
        let n = self.planets.len();
        let mut j: usize = 0;
        while j < n
            invariant
                old(self).wf(),
                n == self.planets.len(),
                j <= n,
                orig == old(self).planets@,
                orig.len() == n,
                self.sun_x == old(self).sun_x,
                self.sun_y == old(self).sun_y,
                self.zoom_factor == old(self).zoom_factor,
                self.time_step == old(self).time_step,
                self.width == old(self).width,
                self.height == old(self).height,
                forall|k: int|
                    0 <= k < j ==> self.planets@[k] == advanced(orig[k], old(self).time_step as int),
                forall|k: int| j <= k < n ==> self.planets@[k] == orig[k],
                forall|k: int|
                    0 <= k < n ==> {
                        &&& (#[trigger] self.planets@[k]).wf()
                        &&& self.planets@[k].angle < units::TAU_MICRO
                        &&& self.time_step <= self.planets@[k].orbital_period
                    },
            decreases n - j,
        {
            let mut p: Planet = self.planets[j];
            proof {
                assert((units::TAU_MICRO * self.time_step) / (p.orbital_period as int)
                    <= units::TAU_MICRO) by (nonlinear_arith)
                    requires
                        0 < p.orbital_period,
                        0 < self.time_step <= p.orbital_period,
                        units::TAU_MICRO == 6_283_185,
                ;
            }
            p.advance_angle(self.time_step);
            self.planets.set(j, p);
            j = j + 1;
        }
    }

    /// Recomputes every planet's position from the sun center, the current
    /// zoom factor, and its trigonometric sample.
    pub fn update_positions(&mut self, trig: &Vec<TrigSample>)
        requires
            old(self).wf(),
            trig@.len() == old(self).planets@.len(),
            forall|j: int| 0 <= j < trig@.len() ==> (#[trigger] trig@[j]).wf(),
        ensures
            final (self).planets@.len() == old(self).planets@.len(),
            forall|j: int|
                0 <= j < old(self).planets@.len() ==> final (self).planets@[j] == positioned(
                    old(self).planets@[j],
                    old(self).sun_x as int,
                    old(self).sun_y as int,
                    old(self).zoom_factor as int,
                    trig@[j],
                ),
            *final (self) == (Sim { planets: final (self).planets, ..*old(self) }),
            final (self).wf(),
    {
        let ghost orig = self.planets@;
        let n = self.planets.len();
        let mut j: usize = 0;
        while j < n
            invariant
                old(self).wf(),
                n == self.planets.len(),
                j <= n,
                orig == old(self).planets@,
                orig.len() == n,
                trig@.len() == n,
                forall|k: int| 0 <= k < trig@.len() ==> (#[trigger] trig@[k]).wf(),
                self.sun_x == old(self).sun_x,
                self.sun_y == old(self).sun_y,
                self.zoom_factor == old(self).zoom_factor,
                self.time_step == old(self).time_step,
                self.width == old(self).width,
                self.height == old(self).height,
                forall|k: int|
                    0 <= k < j ==> self.planets@[k] == positioned(
                        orig[k],
                        old(self).sun_x as int,
                        old(self).sun_y as int,
                        old(self).zoom_factor as int,
                        trig@[k],
                    ),
                forall|k: int| j <= k < n ==> self.planets@[k] == orig[k],
                forall|k: int|
                    0 <= k < n ==> {
                        &&& (#[trigger] self.planets@[k]).wf()
                        &&& self.planets@[k].angle < units::TAU_MICRO
                        &&& self.time_step <= self.planets@[k].orbital_period
                    },
            decreases n - j,
        {
            let mut p: Planet = self.planets[j];
            p.update_position(
                self.sun_x,
                self.sun_y,
                self.zoom_factor,
                trig[j].cos_a,
                trig[j].sin_a,
            );
            self.planets.set(j, p);
            j = j + 1;
        }
    }

    /// The first half of one frame, in the fixed per-iteration order:
    /// samples the zoom controls, then advances every planet's phase by the
    /// per-frame time step. The caller then supplies the trigonometry of
    /// the new angles to `finish_frame`.
    pub fn begin_frame(&mut self, zoom_in: bool, zoom_out: bool)
        requires
            old(self).wf(),
        ensures
            final (self).zoom_factor == zoom_step(old(self).zoom_factor as int, zoom_in, zoom_out),
            final (self).planets@.len() == old(self).planets@.len(),
            forall|j: int|
                0 <= j < old(self).planets@.len() ==> final (self).planets@[j] == advanced(
                    old(self).planets@[j],
                    old(self).time_step as int,
                ),
            *final (self) == (Sim {
                planets: final (self).planets,
                zoom_factor: final (self).zoom_factor,
                ..*old(self)
            }),
            final (self).wf(),
    {
        self.apply_zoom(zoom_in, zoom_out);
        self.advance_planets();
    }

    /// The second half of one frame: recomputes every position from the
    /// supplied trigonometric samples, then rasterizes the frame into the
    /// buffer, planets in list order and the sun last.
    pub fn finish_frame(&mut self, trig: &Vec<TrigSample>, buffer: &mut Vec<u32>)
        requires
            old(self).wf(),
            trig@.len() == old(self).planets@.len(),
            forall|j: int| 0 <= j < trig@.len() ==> (#[trigger] trig@[j]).wf(),
            old(buffer).len() == old(self).width * old(self).height,
        ensures
            final (self).planets@.len() == old(self).planets@.len(),
            forall|j: int|
                0 <= j < old(self).planets@.len() ==> final (self).planets@[j] == positioned(
                    old(self).planets@[j],
                    old(self).sun_x as int,
                    old(self).sun_y as int,
                    old(self).zoom_factor as int,
                    trig@[j],
                ),
            *final (self) == (Sim { planets: final (self).planets, ..*old(self) }),
            final (self).wf(),
            final (buffer).len() == old(buffer).len(),
            forall|i: int|
                0 <= i < old(buffer).len() ==> final (buffer)@[i] == final (self).frame_pixel(i),
    {
        self.update_positions(trig);
        self.render(buffer);
    }

    /// Rasterizes one frame: clears the buffer to black, draws every planet
    /// in list order, and draws the sun last, so it occludes any planet
    /// pixel it overlaps.
    pub fn render(&self, buffer: &mut Vec<u32>)
        requires
            self.wf(),
            old(buffer).len() == self.width * self.height,
        ensures
            final (buffer).len() == old(buffer).len(),
            forall|i: int|
                0 <= i < old(buffer).len() ==> final (buffer)@[i] == self.frame_pixel(i),
    {
        raster::fill_buffer(buffer, BACKGROUND_COLOR);
        let ghost w = self.width as int;
        let ghost z = self.zoom_factor as int;
        let n = self.planets.len();
        let mut j: usize = 0;
        while j < n
            invariant
                self.wf(),
                n == self.planets.len(),
                j <= n,
                buffer.len() == self.width * self.height,
                w == self.width as int,
                z == self.zoom_factor as int,
                forall|i: int|
                    0 <= i < buffer.len() ==> buffer@[i] == planets_layer(
                        self.planets@,
                        j as int,
                        w,
                        z,
                        i,
                    ),
            decreases n - j,
        {
            let ghost before = buffer@;
            let p = &self.planets[j];
            p.draw(buffer, self.width, self.height, self.zoom_factor);
            proof {
                assert forall|i: int| 0 <= i < buffer.len() implies buffer@[i] == planets_layer(
                    self.planets@,
                    j + 1,
                    w,
                    z,
                    i,
                ) by {
                    assert(before[i] == planets_layer(self.planets@, j as int, w, z, i));
                }
            }
            j = j + 1;
        }
        let sun_r = units::compute_scaled_radius(SUN_RADIUS_MICRO, self.zoom_factor);
        proof {
            assert(0 <= SUN_RADIUS_MICRO * self.zoom_factor <= 50_000_000_000_000_000_000)
                by (nonlinear_arith)
                requires
                    0 <= self.zoom_factor <= 1_000_000_000_000,
                    SUN_RADIUS_MICRO == 50_000_000,
            ;
            assert((SUN_RADIUS_MICRO * self.zoom_factor) / 1_000_000_000_000 <= 2_000_000_000)
                by (nonlinear_arith)
                requires
                    0 <= SUN_RADIUS_MICRO * self.zoom_factor <= 50_000_000_000_000_000_000,
            ;
        }
        let cx = units::compute_pixel(self.sun_x);
        let cy = units::compute_pixel(self.sun_y);
        raster::fill_disc(buffer, self.width, self.height, cx, cy, sun_r, SUN_COLOR);
    }
}

} // verus!
