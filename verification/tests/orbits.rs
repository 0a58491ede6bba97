//! Behavioural tests for the orbit integrator, on concrete fixed-point
//! values (millionths of a world unit).

use orbits::bytestream::ByteStream;
use orbits::math::{abs_i64, div_scale, isqrt};
use orbits::planet::{Direction, Planet, STEP_INIT, STEP_TOLERANCE};
use orbits::system::{BodyConfig, System};
use orbits::SCALE;

fn body(radius: i64, x: i64, y: i64, a: i64) -> Planet {
    Planet::new(radius, x, y, a).expect("configuration should admit a bound orbit")
}

#[test]
fn isqrt_exact_values() {
    assert_eq!(isqrt(0), 0);
    assert_eq!(isqrt(1), 1);
    assert_eq!(isqrt(3), 1);
    assert_eq!(isqrt(4), 2);
    assert_eq!(isqrt(999_999), 999);
    assert_eq!(isqrt(1_000_000), 1_000);
    assert_eq!(isqrt(1_000_000_000_000_000_000), 1_000_000_000);
    assert_eq!(isqrt(750_000_000_000), 866_025);
}

#[test]
fn div_scale_truncates_toward_zero() {
    assert_eq!(div_scale(1_999_999), 1);
    assert_eq!(div_scale(-1_999_999), -1);
    assert_eq!(div_scale(2_000_000), 2);
    assert_eq!(div_scale(-2_000_000), -2);
    assert_eq!(div_scale(999_999), 0);
    assert_eq!(div_scale(-999_999), 0);
}

#[test]
fn abs_of_extremes() {
    assert_eq!(abs_i64(0), 0);
    assert_eq!(abs_i64(-7), 7);
    assert_eq!(abs_i64(7), 7);
}

#[test]
fn on_axis_construction_has_no_rotation() {
    // An on-axis point halfway out: perihelion a/2, aphelion 3a/2, so the
    // derivation's eccentricity (aphelion - perihelion) / (aphelion +
    // perihelion) is one half.
    let p = body(100_000, 500_000, 0, 1_000_000);
    assert_eq!(p.rotation_cos, SCALE);
    assert_eq!(p.rotation_sin, 0);
    assert_eq!(p.eccentricity, 500_000);
    assert_eq!(p.semi_minor_axis, 866_025);
    assert_eq!(p.semi_major_axis, 1_000_000);
    assert_eq!(p.standard_x, 1_000_000);
    assert_eq!(p.standard_y, 0);
}

#[test]
fn boundary_perihelion_is_rejected() {
    // The observed point exactly at the semi-major axis: perihelion == a.
    assert!(Planet::new(100_000, 1_000_000, 0, 1_000_000).is_err());
    // Beyond it too, on and off axis.
    assert!(Planet::new(100_000, 2_000_000, 0, 1_000_000).is_err());
    assert!(Planet::new(100_000, 800_000, 600_000, 1_000_000).is_err());
    // Just inside, it is accepted.
    assert!(Planet::new(100_000, 999_999, 0, 1_000_000).is_ok());
}

#[test]
fn eccentricity_in_range_and_minor_within_major() {
    let cases = [
        (500_000, 0, 1_000_000),
        (300_000, 400_000, 1_000_000),
        (200_000, 500_000, 1_500_000),
        (999_999, 0, 1_000_000),
        (1, 0, 1_000_000),
        (0, 1, 2),
    ];
    for (x, y, a) in cases {
        let p = body(100_000, x, y, a);
        assert!(0 <= p.eccentricity && p.eccentricity < SCALE);
        assert!(p.semi_minor_axis <= p.semi_major_axis);
    }
}

#[test]
fn degenerate_origin_point_reaches_full_eccentricity() {
    // The one observation whose eccentricity reaches the top of the range:
    // a body observed at the origin has perihelion zero, so the derivation
    // yields exactly SCALE (a degenerate line orbit with a zero minor axis).
    let p = body(100_000, 0, 0, 1_000_000);
    assert_eq!(p.eccentricity, SCALE);
    assert_eq!(p.semi_minor_axis, 0);
}

#[test]
fn rotated_construction_matches_triangle() {
    // A 3-4-5 triangle: the rotation's cosine and sine come out exact.
    let p = body(100_000, 300_000, 400_000, 1_000_000);
    assert_eq!(p.rotation_cos, 600_000);
    assert_eq!(p.rotation_sin, 800_000);
    assert_eq!(p.translation_x, 300_000);
    assert_eq!(p.translation_y, 400_000);
}

#[test]
fn initial_world_position_is_callers_point() {
    let cases = [
        (300_000, 400_000, 1_000_000),
        (200_000, 500_000, 1_500_000),
        (-250_000, 125_000, 900_000),
        (500_000, 0, 1_000_000),
        (0, -400_000, 1_000_000),
    ];
    for (x, y, a) in cases {
        let p = body(100_000, x, y, a);
        assert_eq!(p.world_position(), (x, y));
    }
}

#[test]
fn tick_keeps_phase_on_major_axis_and_flips_at_apsides() {
    let mut p = body(100_000, 200_000, 500_000, 1_500_000);
    let a = p.semi_major_axis;
    let mut flips = 0;
    for _ in 0..5_000 {
        let before_x = p.standard_x;
        let before_dir = p.direction;
        p.tick();
        assert!(-a <= p.standard_x && p.standard_x <= a);
        let step = (p.standard_x - before_x).abs();
        assert!(step <= STEP_INIT);
        if p.direction != before_dir {
            flips += 1;
            // the flip happened exactly because the step would have left the
            // major axis
            match before_dir {
                Direction::Decreasing => assert!(before_x - step < -a),
                Direction::Increasing => assert!(before_x + step > a),
            }
        } else {
            match before_dir {
                Direction::Decreasing => assert!(before_x - step >= -a),
                Direction::Increasing => assert!(before_x + step <= a),
            }
        }
    }
    assert!(flips >= 2);
}

#[test]
fn geometry_never_changes_across_ticks() {
    let mut p = body(100_000, 300_000, 400_000, 1_000_000);
    let initial = p;
    for _ in 0..3_000 {
        p.tick();
        assert_eq!(p.radius, initial.radius);
        assert_eq!(p.semi_major_axis, initial.semi_major_axis);
        assert_eq!(p.semi_minor_axis, initial.semi_minor_axis);
        assert_eq!(p.eccentricity, initial.eccentricity);
        assert_eq!(p.rotation_cos, initial.rotation_cos);
        assert_eq!(p.rotation_sin, initial.rotation_sin);
        assert_eq!(p.translation_x, initial.translation_x);
        assert_eq!(p.translation_y, initial.translation_y);
    }
}

#[test]
fn full_loop_returns_near_start_with_even_flips() {
    let mut p = body(100_000, 200_000, 500_000, 1_500_000);
    let a = p.semi_major_axis;
    let mut flips = 0;
    let mut ticks = 0;
    while flips < 2 && ticks < 100_000 {
        let before_dir = p.direction;
        p.tick();
        ticks += 1;
        if p.direction != before_dir {
            flips += 1;
        }
    }
    // a full loop reverses direction exactly twice and brings the body back
    // near its starting phase (a, 0), heading the starting way again
    assert_eq!(flips, 2);
    assert_eq!(p.direction, Direction::Decreasing);
    assert!(p.standard_x > a - 2 * STEP_INIT);
    assert!(p.standard_x <= a);
    assert!(p.standard_y.abs() < STEP_TOLERANCE);
}

#[test]
fn per_tick_y_displacement_is_within_tolerance() {
    let mut p = body(100_000, 200_000, 500_000, 1_500_000);
    for _ in 0..2_000 {
        let before_y = p.standard_y;
        p.tick();
        assert!((p.standard_y - before_y).abs() < STEP_TOLERANCE);
    }
}

#[test]
fn two_body_system_buffer_layout() {
    // Bodies (0, 0, 1.0, 0.1) and (0.2, 0.5, 1.5, 0.2): six buffer slots,
    // the first triple [radius, x, y] of the first body.
    let configs = vec![
        BodyConfig { initial_x: 0, initial_y: 0, semi_major_axis: 1_000_000, radius: 100_000 },
        BodyConfig {
            initial_x: 200_000,
            initial_y: 500_000,
            semi_major_axis: 1_500_000,
            radius: 200_000,
        },
    ];
    let system = System::new(&configs).expect("both bodies are valid");
    let buffer = system.planets_coordinates();
    assert_eq!(buffer.len(), 6);
    assert_eq!(buffer[0], 100_000);
    assert_eq!(buffer[1], 0);
    assert_eq!(buffer[2], 0);
    assert_eq!(buffer[3], 200_000);
    assert_eq!(buffer[4], 200_000);
    assert_eq!(buffer[5], 500_000);
    assert_eq!(system.initial_planet_data(), vec![
        100_000, 0, 0, 200_000, 200_000, 500_000,
    ]);
}

#[test]
fn system_construction_fails_on_first_invalid_body() {
    let configs = vec![
        BodyConfig { initial_x: 0, initial_y: 0, semi_major_axis: 1_000_000, radius: 100_000 },
        BodyConfig {
            initial_x: 1_500_000,
            initial_y: 0,
            semi_major_axis: 1_500_000,
            radius: 200_000,
        },
    ];
    let err = System::new(&configs).expect_err("second body's perihelion reaches its axis");
    assert_eq!(err.index, 1);

    let configs = vec![
        BodyConfig {
            initial_x: 1_000_000,
            initial_y: 0,
            semi_major_axis: 1_000_000,
            radius: 100_000,
        },
    ];
    let err = System::new(&configs).expect_err("perihelion equal to the axis");
    assert_eq!(err.index, 0);
}

#[test]
fn empty_system_has_empty_buffer() {
    let configs: Vec<BodyConfig> = vec![];
    let mut system = System::new(&configs).expect("nothing to reject");
    assert_eq!(system.planets_coordinates().len(), 0);
    assert_eq!(system.tick().len(), 0);
}

#[test]
fn one_tick_moves_the_buffer_within_the_step_worst_case() {
    let configs = vec![BodyConfig {
        initial_x: 200_000,
        initial_y: 500_000,
        semi_major_axis: 1_500_000,
        radius: 200_000,
    }];
    let mut system = System::new(&configs).expect("valid body");
    let before = system.initial_planet_data();
    let after = system.tick().clone();
    // worst case of the step policy: the x-step plus the y-tolerance, and a
    // rounding increment from each transform
    let worst_case = STEP_INIT + STEP_TOLERANCE + 2;
    assert_eq!(after.len(), 3);
    assert_eq!(after[0], before[0]);
    assert!((after[1] - before[1]).abs() <= worst_case);
    assert!((after[2] - before[2]).abs() <= worst_case);
    assert!(after[1] != before[1] || after[2] != before[2]);
}

#[test]
fn system_tick_matches_individual_bodies() {
    let configs = vec![
        BodyConfig {
            initial_x: 300_000,
            initial_y: 400_000,
            semi_major_axis: 1_000_000,
            radius: 100_000,
        },
        BodyConfig {
            initial_x: 200_000,
            initial_y: 500_000,
            semi_major_axis: 1_500_000,
            radius: 200_000,
        },
    ];
    let mut system = System::new(&configs).expect("valid bodies");
    let mut solo_a = body(100_000, 300_000, 400_000, 1_000_000);
    let mut solo_b = body(200_000, 200_000, 500_000, 1_500_000);
    for _ in 0..100 {
        let (ax, ay) = solo_a.tick();
        let (bx, by) = solo_b.tick();
        let buffer = system.tick();
        assert_eq!(buffer[1], ax);
        assert_eq!(buffer[2], ay);
        assert_eq!(buffer[4], bx);
        assert_eq!(buffer[5], by);
    }
}

#[test]
fn degenerate_line_orbit_ticks_along_the_axis() {
    // perihelion zero: the minor axis is zero, so the body slides along the
    // rotated major axis with y pinned to the translation's line
    let mut p = body(100_000, 0, 0, 1_000_000);
    for _ in 0..100 {
        p.tick();
        assert_eq!(p.standard_y, 0);
        assert!(-p.semi_major_axis <= p.standard_x && p.standard_x <= p.semi_major_axis);
    }
}

#[test]
fn largest_coordinates_construct_and_tick() {
    let mut p = body(100_000, 999_999_999, 0, 1_000_000_000);
    for _ in 0..10 {
        p.tick();
        assert!(-p.semi_major_axis <= p.standard_x && p.standard_x <= p.semi_major_axis);
    }
}

#[test]
fn axis_smaller_than_step_candidate_stays_in_bounds() {
    // the semi-major axis is smaller than the first step candidate: the
    // step is capped by the axis, so even this orbit never overshoots
    let mut p = body(1_000, 2_000, 0, 5_000);
    for _ in 0..100 {
        p.tick();
        assert!(p.standard_x.abs() <= p.semi_major_axis);
        assert!(p.standard_y.abs() <= p.semi_minor_axis);
    }
}

#[test]
fn bytestream_reports_offset_and_size() {
    let stream = ByteStream::new(4_096, 24);
    assert_eq!(stream.offset(), 4_096);
    assert_eq!(stream.size(), 24);
}
