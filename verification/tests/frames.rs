use solarsystem::sim::Sim;
use solarsystem::sim::TrigSample;
use solarsystem::sim::BACKGROUND_COLOR;
use solarsystem::sim::SUN_COLOR;
use solarsystem::units::SCALE;
use solarsystem::units::TAU_MICRO;

fn trig_for(sim: &Sim) -> Vec<TrigSample> {
    sim.planets
        .iter()
        .map(|p| {
            let a = p.angle as f64 / 1_000_000.0;
            TrigSample {
                cos_a: (a.cos() * 1_000_000.0) as i64,
                sin_a: (a.sin() * 1_000_000.0) as i64,
            }
        })
        .collect()
}

#[test]
fn sim_new_builds_nine_bodies_around_canvas_center() {
    let sim = Sim::new(800, 800).unwrap();
    assert_eq!(sim.planets.len(), 9);
    assert_eq!(sim.sun_x, 400_000_000);
    assert_eq!(sim.sun_y, 400_000_000);
    assert_eq!(sim.zoom_factor, SCALE);
    assert_eq!(sim.time_step, SCALE);
    // Earth is the third body: 12 px radius, 150 px orbit, 365 day period
    assert_eq!(sim.planets[2].radius, 12_000_000);
    assert_eq!(sim.planets[2].distance_from_sun, 150_000_000);
    assert_eq!(sim.planets[2].orbital_period, 365_000_000);
    // Pluto is last and slowest
    assert_eq!(sim.planets[8].orbital_period, 90_560_000_000);
}

#[test]
fn sim_new_rejects_degenerate_canvas() {
    assert!(Sim::new(0, 800).is_none());
    assert!(Sim::new(800, 0).is_none());
    assert!(Sim::new(2_000_000, 800).is_none());
}

#[test]
fn should_continue_only_while_open_and_no_exit_key() {
    assert!(Sim::should_continue(true, false));
    assert!(!Sim::should_continue(true, true));
    assert!(!Sim::should_continue(false, false));
    assert!(!Sim::should_continue(false, true));
}

#[test]
fn zoom_in_hundred_frames_compounds() {
    // One hundred consecutive zoom-in frames with no zoom-out: the factor
    // compounds to about 1.01^100 ≈ 2.70.
    let mut sim = Sim::new(800, 800).unwrap();
    for _ in 0..100 {
        sim.apply_zoom(true, false);
    }
    assert!(2_700_000 <= sim.zoom_factor && sim.zoom_factor <= 2_710_000);
    // the truncating fixed-point compounding is deterministic
    assert_eq!(sim.zoom_factor, 2_704_734);
}

#[test]
fn zoom_out_shrinks() {
    let mut sim = Sim::new(800, 800).unwrap();
    sim.apply_zoom(false, true);
    assert_eq!(sim.zoom_factor, 990_000);
}

#[test]
fn both_zoom_keys_nearly_cancel() {
    let mut sim = Sim::new(800, 800).unwrap();
    sim.apply_zoom(true, true);
    assert_eq!(sim.zoom_factor, 999_900);
}

#[test]
fn one_day_advances_mercury_by_its_angular_velocity() {
    let mut sim = Sim::new(800, 800).unwrap();
    sim.advance_planets();
    // 2π / 88 days, in micro-radians, truncated
    assert_eq!(sim.planets[0].angle, 6_283_185 / 88);
    assert_eq!(sim.planets[8].angle, 6_283_185_000_000i64 / 90_560_000_000);
}

#[test]
fn angles_stay_in_range_over_many_frames() {
    let mut sim = Sim::new(800, 800).unwrap();
    for _ in 0..200 {
        sim.advance_planets();
        for p in sim.planets.iter() {
            assert!(0 <= p.angle && p.angle < TAU_MICRO);
        }
    }
}

#[test]
fn render_paints_sun_over_center_and_background_elsewhere() {
    let sim = Sim::new(800, 800).unwrap();
    let mut buf: Vec<u32> = vec![0x999999; 800 * 800];
    sim.render(&mut buf);
    assert_eq!(buf.len(), 800 * 800);
    // the sun disc, radius 50, owns the canvas center
    assert_eq!(buf[400 * 800 + 400], SUN_COLOR);
    assert_eq!(buf[420 * 800 + 420], SUN_COLOR);
    // the newly built bodies all sit at position (0, 0), so the top-left
    // corner shows the last-drawn body covering it: Pluto
    assert_eq!(buf[0], sim.planets[8].color);
    // the far corner is beyond every disc and stays background
    assert_eq!(buf[799 * 800 + 799], BACKGROUND_COLOR);
}

#[test]
fn render_draws_planet_discs_and_sun_occludes() {
    let mut sim = Sim::new(800, 800).unwrap();
    // place Earth well away from the sun disc
    sim.planets[2].x = 100_000_000;
    sim.planets[2].y = 100_000_000;
    // park Mercury under the sun disc: the sun draws last and wins
    sim.planets[0].x = 400_000_000;
    sim.planets[0].y = 400_000_000;
    let mut buf: Vec<u32> = vec![0; 800 * 800];
    sim.render(&mut buf);
    assert_eq!(buf[100 * 800 + 100], sim.planets[2].color);
    assert_eq!(buf[400 * 800 + 400], SUN_COLOR);
}

#[test]
fn full_frame_pipeline_runs() {
    let mut sim = Sim::new(800, 800).unwrap();
    let mut buf: Vec<u32> = vec![0; 800 * 800];
    for _ in 0..5 {
        sim.begin_frame(false, false);
        let trig = trig_for(&sim);
        sim.finish_frame(&trig, &mut buf);
    }
    assert_eq!(sim.planets.len(), 9);
    // after five one-day steps, Mercury's disc sits on its orbit ring
    let p = &sim.planets[0];
    let dx = (p.x - sim.sun_x) as i128;
    let dy = (p.y - sim.sun_y) as i128;
    let r = 60_000_000i128;
    let dist2 = dx * dx + dy * dy;
    assert!((r - 2_000_000) * (r - 2_000_000) <= dist2);
    assert!(dist2 <= (r + 2_000_000) * (r + 2_000_000));
}
