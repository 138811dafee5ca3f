use triangle_demo::math::{normalize, normalize_axis, Ratio};

fn value(r: Ratio) -> f64 {
    r.num as f64 / r.den as f64
}

#[test]
fn origin_maps_to_minus_one() {
    let (nx, ny) = normalize(0, 0, 640, 480);
    assert_eq!(nx, Ratio { num: -640, den: 640 });
    assert_eq!(ny, Ratio { num: -480, den: 480 });
    assert_eq!(value(nx), -1.0);
    assert_eq!(value(ny), -1.0);
}

#[test]
fn far_corner_maps_to_one() {
    let (nx, ny) = normalize(640, 480, 640, 480);
    assert_eq!(nx, Ratio { num: 640, den: 640 });
    assert_eq!(ny, Ratio { num: 480, den: 480 });
    assert_eq!(value(nx), 1.0);
    assert_eq!(value(ny), 1.0);
}

#[test]
fn centre_maps_to_zero() {
    let (nx, ny) = normalize(320, 240, 640, 480);
    assert_eq!(nx, Ratio { num: 0, den: 640 });
    assert_eq!(ny, Ratio { num: 0, den: 480 });
    assert_eq!(value(nx), 0.0);
    assert_eq!(value(ny), 0.0);
}

#[test]
fn quarter_point_has_exact_value() {
    let (nx, ny) = normalize(200, 600, 800, 800);
    assert_eq!(nx, Ratio { num: -400, den: 800 });
    assert_eq!(ny, Ratio { num: 400, den: 800 });
    assert_eq!(value(nx), -0.5);
    assert_eq!(value(ny), 0.5);
}

#[test]
fn positions_outside_the_viewport_extrapolate() {
    let (nx, ny) = normalize(-10, 1000, 100, 100);
    assert_eq!(nx, Ratio { num: -120, den: 100 });
    assert_eq!(ny, Ratio { num: 1900, den: 100 });
    assert!(value(nx) < -1.0);
    assert!(value(ny) > 1.0);
}

#[test]
fn axes_are_independent() {
    let (ax, ay) = normalize(10, 20, 100, 50);
    let (bx, by) = normalize(10, 30, 100, 50);
    assert_eq!(ax, bx);
    assert_ne!(ay, by);
    assert_eq!(ay, Ratio { num: -10, den: 50 });
    assert_eq!(by, Ratio { num: 10, den: 50 });
}

#[test]
fn mapping_is_strictly_increasing() {
    let positions = [-5, 0, 1, 2, 50, 99, 100, 101, 4000];
    for pair in positions.windows(2) {
        let a = normalize_axis(pair[0], 100);
        let b = normalize_axis(pair[1], 100);
        assert!(a.num * (b.den as i128) < b.num * (a.den as i128));
        assert!(value(a) < value(b));
    }
}

#[test]
fn extreme_positions_do_not_overflow() {
    let low = normalize_axis(i64::MIN, u32::MAX);
    assert_eq!(low.num, 2 * (i64::MIN as i128) - (u32::MAX as i128));
    assert_eq!(low.den, u32::MAX);
    let high = normalize_axis(i64::MAX, 1);
    assert_eq!(high, Ratio { num: 2 * (i64::MAX as i128) - 1, den: 1 });
    let corner = normalize_axis(u32::MAX as i64, u32::MAX);
    assert_eq!(corner, Ratio { num: u32::MAX as i128, den: u32::MAX });
}

#[test]
fn odd_extent_has_no_whole_pixel_centre() {
    let n = normalize_axis(1, 3);
    assert_eq!(n, Ratio { num: -1, den: 3 });
}
