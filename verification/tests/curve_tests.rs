use fevm_fan_curve::curve::{lerp_curve, CurvePoint};

fn curve_of(points: &[(i64, i32)]) -> Vec<CurvePoint> {
    points.iter().map(|&(temp_mc, duty)| CurvePoint { temp_mc, duty }).collect()
}

fn cpu_curve() -> Vec<CurvePoint> {
    curve_of(&[(40_000, 20), (55_000, 35), (65_000, 55), (75_000, 75), (85_000, 100)])
}

#[test]
fn midpoint_rounds_half_away_from_zero() {
    // 47.5 degrees is halfway from (40, 20) to (55, 35): 27.5, rounded to 28.
    assert_eq!(lerp_curve(47_500, &cpu_curve()), 28);
}

#[test]
fn at_or_below_first_point_gives_first_duty() {
    let curve = cpu_curve();
    for t in [i64::MIN, -5_000, 0, 39_999, 40_000] {
        assert_eq!(lerp_curve(t, &curve), 20);
    }
}

#[test]
fn at_or_above_last_point_gives_last_duty() {
    let curve = cpu_curve();
    for t in [85_000, 85_001, 120_000, i64::MAX] {
        assert_eq!(lerp_curve(t, &curve), 100);
    }
}

#[test]
fn control_points_are_exact() {
    let curve = cpu_curve();
    for p in &curve {
        assert_eq!(lerp_curve(p.temp_mc, &curve), p.duty);
    }
}

#[test]
fn interpolated_values() {
    let curve = cpu_curve();
    assert_eq!(lerp_curve(40_001, &curve), 20);
    assert_eq!(lerp_curve(41_000, &curve), 21);
    assert_eq!(lerp_curve(50_000, &curve), 30);
    assert_eq!(lerp_curve(60_000, &curve), 45);
    assert_eq!(lerp_curve(70_000, &curve), 65);
    // 75 + 0.5 * 25 = 87.5
    assert_eq!(lerp_curve(80_000, &curve), 88);
    // 20 + 7.499 = 27.499
    assert_eq!(lerp_curve(47_499, &curve), 27);
}

#[test]
fn duty_never_falls_as_temperature_rises() {
    let curve = cpu_curve();
    let mut last = lerp_curve(30_000, &curve);
    let mut t = 30_000;
    while t <= 95_000 {
        let duty = lerp_curve(t, &curve);
        assert!(duty >= last, "duty fell at {t}");
        assert!((20..=100).contains(&duty));
        last = duty;
        t += 125;
    }
}

#[test]
fn halves_round_away_from_zero_on_falling_and_negative_segments() {
    // 10 - 2.5 = 7.5
    assert_eq!(lerp_curve(1, &curve_of(&[(0, 10), (2, 5)])), 8);
    // -10 + 2.5 = -7.5
    assert_eq!(lerp_curve(1, &curve_of(&[(0, -10), (2, -5)])), -8);
    // -1 + 1.5 = 0.5
    assert_eq!(lerp_curve(1, &curve_of(&[(0, -1), (2, 2)])), 1);
    // 1 - 1.5 = -0.5
    assert_eq!(lerp_curve(1, &curve_of(&[(0, 1), (2, -2)])), -1);
}

#[test]
fn single_point_curve_is_constant() {
    let curve = curve_of(&[(50_000, 42)]);
    for t in [i64::MIN, 49_999, 50_000, 50_001, i64::MAX] {
        assert_eq!(lerp_curve(t, &curve), 42);
    }
}

#[test]
fn first_segment_that_holds_the_temperature_decides() {
    let curve = curve_of(&[(40_000, 20), (60_000, 30), (50_000, 35), (70_000, 50)]);
    // 55 lies in (40, 60) and in (50, 70); the first gives 20 + 0.75 * 10 = 27.5.
    assert_eq!(lerp_curve(55_000, &curve), 28);
}

#[test]
fn first_point_decides_before_last_on_a_falling_curve() {
    let curve = curve_of(&[(50_000, 20), (40_000, 30)]);
    assert_eq!(lerp_curve(45_000, &curve), 20);
    assert_eq!(lerp_curve(55_000, &curve), 30);
}

#[test]
fn extreme_points_do_not_overflow() {
    let curve = curve_of(&[(i64::MIN, i32::MIN), (i64::MAX, i32::MAX)]);
    assert_eq!(lerp_curve(0, &curve), 0);
    assert_eq!(lerp_curve(-1, &curve), -1);
    assert_eq!(lerp_curve(1 << 62, &curve), 1_073_741_823);
    assert_eq!(lerp_curve(-(1 << 62), &curve), -1_073_741_824);
    assert_eq!(lerp_curve(i64::MAX - 1, &curve), i32::MAX);
    assert_eq!(lerp_curve(i64::MIN + 1, &curve), i32::MIN);
}
