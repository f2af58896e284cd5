use hachi::daemon::{clamp_charge_limit, FanCurve, FanPoint, PowerProfile};

#[test]
fn test_power_profile_cycle() {
    let mut profile = PowerProfile::Quiet;

    profile = profile.cycle_next();
    assert_eq!(profile, PowerProfile::Balanced);

    profile = profile.cycle_next();
    assert_eq!(profile, PowerProfile::Performance);

    profile = profile.cycle_next();
    assert_eq!(profile, PowerProfile::Quiet);
}

#[test]
fn test_power_profile_conversion() {
    assert_eq!(PowerProfile::from_u32(0), PowerProfile::Balanced);
    assert_eq!(PowerProfile::from_u32(1), PowerProfile::Performance);
    assert_eq!(PowerProfile::from_u32(3), PowerProfile::Quiet);
    assert_eq!(PowerProfile::from_u32(99), PowerProfile::Balanced); // Fallback

    assert_eq!(PowerProfile::Balanced.to_u32(), 0);
    assert_eq!(PowerProfile::Performance.to_u32(), 1);
    assert_eq!(PowerProfile::Quiet.to_u32(), 3);
}

#[test]
fn test_fan_curve_default() {
    let curve = FanCurve::default_curve();
    assert!(!curve.enabled);
    assert_eq!(curve.cpu_curve.len(), 8);
    assert_eq!(curve.gpu_curve.len(), 8);

    // Check first and last points
    assert_eq!(curve.cpu_curve[0], FanPoint { temp: 30, speed: 0 });
    assert_eq!(curve.cpu_curve[7], FanPoint { temp: 100, speed: 100 });
}

#[test]
fn test_fan_point_validity() {
    let point = FanPoint { temp: 30, speed: 0 };
    // Just ensuring type structure is correct, deeper logic validation
    // depends on where we enforce limits (currently primarily UI)
    assert_eq!(point.temp, 30);
    assert_eq!(point.speed, 0);
}

#[test]
fn wire_round_trip_on_live_codes() {
    for code in [0u32, 1, 3] {
        assert_eq!(PowerProfile::from_u32(code).to_u32(), code);
    }
    // Every other sampled code falls back to Balanced.
    for code in [2u32, 4, 5, 42, 255, 1000, u32::MAX] {
        assert_eq!(PowerProfile::from_u32(code), PowerProfile::Balanced);
    }
}

#[test]
fn from_u8_matches_from_u32() {
    for v in 0u8..=255 {
        assert_eq!(PowerProfile::from_u8(v), PowerProfile::from_u32(v as u32));
    }
    assert_eq!(PowerProfile::Quiet.to_u8(), 3);
}

#[test]
fn cycle_has_period_three_from_every_profile() {
    for p in [
        PowerProfile::Quiet,
        PowerProfile::Balanced,
        PowerProfile::Performance,
    ] {
        let three = p.cycle_next().cycle_next().cycle_next();
        assert_eq!(three, p);
        assert_ne!(p.cycle_next(), p);
    }
}

#[test]
fn charge_limit_clamp() {
    assert_eq!(clamp_charge_limit(10), 20);
    assert_eq!(clamp_charge_limit(150), 100);
    assert_eq!(clamp_charge_limit(55), 55);
    assert_eq!(clamp_charge_limit(0), 20);
    assert_eq!(clamp_charge_limit(20), 20);
    assert_eq!(clamp_charge_limit(100), 100);
    assert_eq!(clamp_charge_limit(255), 100);
    for n in 0u8..=255 {
        let c = clamp_charge_limit(n);
        assert!((20..=100).contains(&c));
    }
}

#[test]
fn default_curve_spans_thermal_range() {
    let curve = FanCurve::default_curve();
    assert_eq!(curve.gpu_curve[0], FanPoint { temp: 30, speed: 0 });
    assert_eq!(curve.gpu_curve[7], FanPoint { temp: 100, speed: 100 });
    // Both channels carry the same eight points.
    for i in 0..8 {
        assert_eq!(curve.cpu_curve[i], curve.gpu_curve[i]);
    }
    // Conventionally monotonic in both coordinates.
    for w in curve.cpu_curve.windows(2) {
        assert!(w[0].temp < w[1].temp);
        assert!(w[0].speed <= w[1].speed);
    }
}

#[test]
fn profile_names() {
    assert_eq!(PowerProfile::Quiet.as_str(), "Quiet");
    assert_eq!(PowerProfile::Balanced.as_str(), "Balanced");
    assert_eq!(PowerProfile::Performance.as_str(), "Performance");
}

#[test]
fn default_profile_is_balanced() {
    assert_eq!(PowerProfile::default(), PowerProfile::Balanced);
}
