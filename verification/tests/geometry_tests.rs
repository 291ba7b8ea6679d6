use car_sim::geometry::{corners, Point, DIR_SCALE};

// Fine units: 2 * DIR_SCALE per drawing unit.
const UNIT: i64 = 2 * DIR_SCALE;

#[test]
fn test_corners_facing_x() {
    // Facing +x: the height (4) runs along x, the width (2) along y,
    // so in drawing units the corners are (-2,1),(2,1),(2,-1),(-2,-1).
    let r = corners(0, 0, DIR_SCALE, 0, 2, 4);
    assert_eq!(
        r,
        vec![
            Point { x: -2 * UNIT, y: UNIT },
            Point { x: 2 * UNIT, y: UNIT },
            Point { x: 2 * UNIT, y: -UNIT },
            Point { x: -2 * UNIT, y: -UNIT },
        ]
    );
}

#[test]
fn test_corners_facing_y() {
    // A quarter turn: facing +y, the height runs along y, the width along x,
    // so in drawing units the corners are (-1,-2),(-1,2),(1,2),(1,-2).
    let r = corners(0, 0, 0, DIR_SCALE, 2, 4);
    assert_eq!(
        r,
        vec![
            Point { x: -UNIT, y: -2 * UNIT },
            Point { x: -UNIT, y: 2 * UNIT },
            Point { x: UNIT, y: 2 * UNIT },
            Point { x: UNIT, y: -2 * UNIT },
        ]
    );
}

#[test]
fn test_corners_translate_with_center() {
    let at_origin = corners(0, 0, DIR_SCALE, 0, 2, 4);
    let moved = corners(10 * UNIT, -3 * UNIT, DIR_SCALE, 0, 2, 4);
    for (a, b) in at_origin.iter().zip(moved.iter()) {
        assert_eq!(b.x - a.x, 10 * UNIT);
        assert_eq!(b.y - a.y, -3 * UNIT);
    }
}

#[test]
fn test_corners_degenerate_width_is_a_line() {
    let r = corners(0, 0, DIR_SCALE, 0, 0, 4);
    assert_eq!(r[0], r[3]);
    assert_eq!(r[1], r[2]);
    assert_ne!(r[0], r[1]);
}

#[test]
fn test_corners_degenerate_rectangle_is_a_point() {
    let r = corners(7, 9, DIR_SCALE, 0, 0, 0);
    for p in r.iter() {
        assert_eq!(*p, Point { x: 7, y: 9 });
    }
}

#[test]
fn test_corners_winding_consistent_over_full_turn() {
    // Sweep the facing direction through a full turn in fine steps; the
    // walked corners must always form a parallelogram with perpendicular
    // adjacent edges whose signed area keeps one sign: the winding never
    // flips and the polygon never self-intersects.
    let steps = 720;
    for k in 0..steps {
        let theta = (k as f64) * 2.0 * std::f64::consts::PI / (steps as f64);
        let dx = (theta.cos() * DIR_SCALE as f64).round() as i64;
        let dy = (theta.sin() * DIR_SCALE as f64).round() as i64;
        let r = corners(0, 0, dx, dy, 3, 5);
        let e1 = (r[1].x - r[0].x, r[1].y - r[0].y);
        let e2 = (r[3].x - r[0].x, r[3].y - r[0].y);
        // parallelogram
        assert_eq!(r[2].x - r[3].x, e1.0);
        assert_eq!(r[2].y - r[3].y, e1.1);
        // perpendicular adjacent edges
        assert_eq!(e1.0 * e2.0 + e1.1 * e2.1, 0);
        // winding keeps one sign
        assert!(e1.0 * e2.1 - e1.1 * e2.0 < 0);
    }
}
