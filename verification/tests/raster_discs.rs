use solarsystem::body::Planet;
use solarsystem::raster::fill_buffer;
use solarsystem::raster::fill_disc;

#[test]
fn fill_buffer_clears_every_cell() {
    let mut buf: Vec<u32> = vec![0xDEAD; 12];
    fill_buffer(&mut buf, 0x000000);
    assert_eq!(buf.len(), 12);
    assert!(buf.iter().all(|&c| c == 0x000000));
}

#[test]
fn disc_paints_exactly_the_covered_pixels() {
    let w: usize = 9;
    let h: usize = 9;
    let mut buf: Vec<u32> = vec![0; w * h];
    fill_disc(&mut buf, w, h, 4, 4, 2, 0xABCDEF);
    assert_eq!(buf.len(), w * h);
    for y in 0..h as i64 {
        for x in 0..w as i64 {
            let covered = (x - 4) * (x - 4) + (y - 4) * (y - 4) <= 4;
            let cell = buf[(y as usize) * w + (x as usize)];
            if covered {
                assert_eq!(cell, 0xABCDEF);
            } else {
                assert_eq!(cell, 0);
            }
        }
    }
}

#[test]
fn zero_radius_paints_single_center_pixel() {
    let w: usize = 5;
    let mut buf: Vec<u32> = vec![0; w * w];
    fill_disc(&mut buf, w, w, 2, 3, 0, 7);
    for y in 0..w {
        for x in 0..w {
            let expect = if x == 2 && y == 3 { 7 } else { 0 };
            assert_eq!(buf[y * w + x], expect);
        }
    }
}

#[test]
fn disc_at_canvas_edge_clips_silently() {
    // A disc centered on the corner pixel extends past the boundary: only
    // the in-canvas quarter is painted and the buffer size is unchanged.
    let w: usize = 10;
    let h: usize = 10;
    let mut buf: Vec<u32> = vec![0x111111; w * h];
    fill_disc(&mut buf, w, h, 0, 0, 3, 0x222222);
    assert_eq!(buf.len(), w * h);
    for y in 0..h as i64 {
        for x in 0..w as i64 {
            let covered = x * x + y * y <= 9;
            let cell = buf[(y as usize) * w + (x as usize)];
            if covered {
                assert_eq!(cell, 0x222222);
            } else {
                assert_eq!(cell, 0x111111);
            }
        }
    }
}

#[test]
fn disc_fully_off_canvas_changes_nothing() {
    let w: usize = 8;
    let h: usize = 6;
    let mut buf: Vec<u32> = vec![0x333333; w * h];
    fill_disc(&mut buf, w, h, -5, -5, 3, 0x444444);
    assert_eq!(buf, vec![0x333333; w * h]);
}

#[test]
fn drawing_twice_changes_nothing_more() {
    // Rasterizing the same body twice over an unchanged buffer leaves the
    // exact image the first call produced.
    let mut p = Planet::new(12_000_000, 0x00FF00, 150_000_000, 365_000_000).unwrap();
    p.x = 20_000_000;
    p.y = 30_000_000;
    let w: usize = 64;
    let h: usize = 64;
    let mut buf: Vec<u32> = vec![0; w * h];
    p.draw(&mut buf, w, h, 1_000_000);
    let first = buf.clone();
    p.draw(&mut buf, w, h, 1_000_000);
    assert_eq!(buf, first);
}

#[test]
fn draw_truncates_position_and_scales_radius() {
    // Position (20.9, 30.9) px truncates to pixel (20, 30); a 2.5 px visual
    // radius under zoom 2 rasterizes as a 5 px disc.
    let mut p = Planet::new(2_500_000, 0x00FF00, 150_000_000, 365_000_000).unwrap();
    p.x = 20_900_000;
    p.y = 30_900_000;
    let w: usize = 64;
    let h: usize = 64;
    let mut buf: Vec<u32> = vec![0; w * h];
    p.draw(&mut buf, w, h, 2_000_000);
    for y in 0..h as i64 {
        for x in 0..w as i64 {
            let covered = (x - 20) * (x - 20) + (y - 30) * (y - 30) <= 25;
            let cell = buf[(y as usize) * w + (x as usize)];
            if covered {
                assert_eq!(cell, 0x00FF00);
            } else {
                assert_eq!(cell, 0);
            }
        }
    }
}
