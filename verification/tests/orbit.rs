use solarsystem::body::Planet;
use solarsystem::units::SCALE;
use solarsystem::units::TAU_MICRO;

fn trig_of(angle_micro: i64) -> (i64, i64) {
    let a = angle_micro as f64 / 1_000_000.0;
    ((a.cos() * 1_000_000.0) as i64, (a.sin() * 1_000_000.0) as i64)
}

#[test]
fn new_accepts_valid_parameters() {
    let p = Planet::new(4_000_000, 0x888888, 60_000_000, 88_000_000).unwrap();
    assert_eq!(p.radius, 4_000_000);
    assert_eq!(p.color, 0x888888);
    assert_eq!(p.distance_from_sun, 60_000_000);
    assert_eq!(p.orbital_period, 88_000_000);
    assert_eq!(p.angle, 0);
    assert_eq!(p.x, 0);
    assert_eq!(p.y, 0);
}

#[test]
fn new_rejects_zero_period() {
    assert!(Planet::new(4_000_000, 0x888888, 60_000_000, 0).is_none());
}

#[test]
fn new_rejects_negative_period() {
    assert!(Planet::new(4_000_000, 0x888888, 60_000_000, -1).is_none());
}

#[test]
fn new_rejects_nonpositive_radius() {
    assert!(Planet::new(0, 0x888888, 60_000_000, 88_000_000).is_none());
    assert!(Planet::new(-5, 0x888888, 60_000_000, 88_000_000).is_none());
}

#[test]
fn new_rejects_nonpositive_distance() {
    assert!(Planet::new(4_000_000, 0x888888, 0, 88_000_000).is_none());
    assert!(Planet::new(4_000_000, 0x888888, -7, 88_000_000).is_none());
}

#[test]
fn angle_stays_below_full_turn() {
    // Two whole revolutions of the fastest body, one simulated day per step:
    // the single-subtraction wraparound must keep the angle in [0, 2π).
    let mut p = Planet::new(4_000_000, 0x888888, 60_000_000, 88_000_000).unwrap();
    for _ in 0..180 {
        p.advance_angle(SCALE);
        assert!(0 <= p.angle && p.angle < TAU_MICRO);
    }
}

#[test]
fn quarter_orbit_scenario() {
    // A quarter of an Earth-like period from phase zero lands the body a
    // quarter turn along, straight below the sun center.
    let mut p = Planet::new(12_000_000, 0x0000FF, 150_000_000, 365_000_000).unwrap();
    p.advance_angle(91_250_000);
    assert_eq!(p.angle, 1_570_796);
    let (c, s) = trig_of(p.angle);
    p.update_position(400_000_000, 400_000_000, SCALE, c, s);
    assert!((p.x - 400_000_000).abs() <= 1_000);
    assert!((p.y - 550_000_000).abs() <= 1_000);
}

#[test]
fn position_lies_on_scaled_circle() {
    // At any phase, the displacement from the sun center stays within a
    // micro-pixel of the zoom-scaled orbital radius.
    let mut p = Planet::new(12_000_000, 0x0000FF, 150_000_000, 365_000_000).unwrap();
    for _ in 0..50 {
        p.advance_angle(7_000_000);
        let (c, s) = trig_of(p.angle);
        let zoom = 2_500_000i64;
        p.update_position(400_000_000, 400_000_000, zoom, c, s);
        let dx = (p.x - 400_000_000) as i128;
        let dy = (p.y - 400_000_000) as i128;
        let r = 150_000_000i128 * 2_500_000 / 1_000_000;
        let dist2 = dx * dx + dy * dy;
        // tolerance: the trig samples themselves are rounded, so allow a
        // few pixels' slack around r² (r is 375 px here)
        let lo = (r - 3_000_000) * (r - 3_000_000);
        let hi = (r + 3_000_000) * (r + 3_000_000);
        assert!(lo <= dist2 && dist2 <= hi);
    }
}

#[test]
fn zero_zoom_collapses_to_sun_center() {
    let mut p = Planet::new(12_000_000, 0x0000FF, 150_000_000, 365_000_000).unwrap();
    let (c, s) = trig_of(p.angle);
    p.update_position(400_000_000, 300_000_000, 0, c, s);
    assert_eq!(p.x, 400_000_000);
    assert_eq!(p.y, 300_000_000);
}
