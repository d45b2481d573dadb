use biomecalculator::classifier::Planet;
use biomecalculator::float_bits;
use ordered_float::OrderedFloat;
use std::cmp::Ordering;

const SAMPLES: [f64; 14] = [
    0.0,
    -0.0,
    1.0,
    -1.0,
    1.5,
    -3.25,
    1e300,
    -1e300,
    5e-324,
    -5e-324,
    f64::INFINITY,
    f64::NEG_INFINITY,
    f64::NAN,
    f64::MAX,
];

#[test]
fn bit_classification_matches_std() {
    for v in SAMPLES {
        let b = v.to_bits();
        assert_eq!(float_bits::is_nan(b), v.is_nan(), "is_nan for {v}");
        assert_eq!(float_bits::is_infinite(b), v.is_infinite(), "is_infinite for {v}");
        assert_eq!(float_bits::is_finite(b), v.is_finite(), "is_finite for {v}");
    }
    // A NaN with a different payload is still a NaN.
    let odd_nan: u64 = 0x7ff800000000beef;
    assert!(f64::from_bits(odd_nan).is_nan());
    assert!(float_bits::is_nan(odd_nan));
}

#[test]
fn bit_comparison_matches_std() {
    for a in SAMPLES {
        for b in SAMPLES {
            assert_eq!(
                float_bits::float_lt(a.to_bits(), b.to_bits()),
                a < b,
                "float_lt for {a} < {b}"
            );
        }
    }
}

/// The tolerant comparison, computed directly on doubles.
fn sorta_equal_f64(a: f64, b: f64) -> bool {
    if a.is_finite() && b.is_finite() {
        !(a < b || a > b)
    } else if a.is_nan() && b.is_nan() {
        true
    } else if a.is_infinite() && b.is_infinite() {
        true
    } else {
        false
    }
}

#[test]
fn sorta_equal_matches_double_semantics() {
    for a in SAMPLES {
        for b in SAMPLES {
            assert_eq!(
                float_bits::sorta_equal(a.to_bits(), b.to_bits()),
                sorta_equal_f64(a, b),
                "sorta_equal for {a}, {b}"
            );
        }
    }
}

#[test]
fn total_cmp_matches_ordered_float() {
    for a in SAMPLES {
        for b in SAMPLES {
            assert_eq!(
                float_bits::total_cmp(a.to_bits(), b.to_bits()),
                OrderedFloat(a).cmp(&OrderedFloat(b)),
                "total_cmp for {a}, {b}"
            );
        }
    }
}

#[test]
fn earth_parameters() {
    let earth = Planet::earth();
    assert_eq!(f64::from_bits(earth.mass_kg), 5.972e24);
    assert_eq!(f64::from_bits(earth.mean_radius_km), 6.371e3);
    assert_eq!(f64::from_bits(earth.toa_solar_flux_Wpm2), 1373.);
    assert_eq!(f64::from_bits(earth.axis_tilt_deg), 23.);
    assert_eq!(f64::from_bits(earth.mean_surface_pressure_kPa), 101.3);
    assert!(!earth.tidal_lock);
    assert!(!earth.exoplanet);
}

#[test]
fn with_builders_replace_one_field() {
    let earth = Planet::earth();
    let heavy = earth.with_mass(1.0e25f64.to_bits());
    assert_eq!(f64::from_bits(heavy.mass_kg), 1.0e25);
    assert_eq!(heavy.mean_radius_km, earth.mean_radius_km);
    assert_eq!(heavy.mean_surface_pressure_kPa, earth.mean_surface_pressure_kPa);
    let wide = earth.with_radius(7.0e3f64.to_bits());
    assert_eq!(f64::from_bits(wide.mean_radius_km), 7.0e3);
    assert_eq!(wide.mass_kg, earth.mass_kg);
    let bright = earth.with_toa_solar_flux(2000f64.to_bits());
    assert_eq!(f64::from_bits(bright.toa_solar_flux_Wpm2), 2000.);
    let tilted = earth.with_axis_tilt(45f64.to_bits());
    assert_eq!(f64::from_bits(tilted.axis_tilt_deg), 45.);
    assert_eq!(tilted.toa_solar_flux_Wpm2, earth.toa_solar_flux_Wpm2);
    let locked = earth.with_tidal_lock(true);
    assert!(locked.tidal_lock);
    assert!(!locked.exoplanet);
    let thick = earth.with_surface_pressure(200f64.to_bits());
    assert_eq!(f64::from_bits(thick.mean_surface_pressure_kPa), 200.);
    let exo = earth.with_exoplanet_biomes(true);
    assert!(exo.exoplanet);
    assert!(!exo.tidal_lock);
    assert_eq!(exo.mass_kg, earth.mass_kg);
}

#[test]
fn planet_equality_merges_nan_and_infinity() {
    let earth = Planet::earth();
    // Two different NaN payloads in the same field compare equal.
    let a = earth.with_mass(f64::NAN.to_bits());
    let b = earth.with_mass(0x7ff800000000beef);
    assert!(f64::from_bits(b.mass_kg).is_nan());
    assert_eq!(a, b);
    // +Inf and -Inf in the same field compare equal (deliberate merge).
    let pos = earth.with_axis_tilt(f64::INFINITY.to_bits());
    let neg = earth.with_axis_tilt(f64::NEG_INFINITY.to_bits());
    assert_eq!(pos, neg);
    // +0.0 and -0.0 compare equal.
    let zp = earth.with_axis_tilt(0.0f64.to_bits());
    let zn = earth.with_axis_tilt((-0.0f64).to_bits());
    assert_eq!(zp, zn);
    // But NaN against a finite value, or a changed finite value, differs.
    assert_ne!(a, earth);
    assert_ne!(earth.with_mass(1.0e25f64.to_bits()), earth);
    assert_ne!(earth.with_tidal_lock(true), earth);
    // And a NaN field does not break equality of the untouched fields.
    assert_eq!(a, a);
}

/// The planet ordering computed directly over OrderedFloat: field by
/// field, booleans cast to 0.0 / 1.0, in the order mass, radius, flux,
/// pressure, tilt, tidal lock, exoplanet.
fn planet_cmp_f64(a: &Planet, b: &Planet) -> Ordering {
    let to_array = |p: &Planet| {
        [
            f64::from_bits(p.mass_kg),
            f64::from_bits(p.mean_radius_km),
            f64::from_bits(p.toa_solar_flux_Wpm2),
            f64::from_bits(p.mean_surface_pressure_kPa),
            f64::from_bits(p.axis_tilt_deg),
            p.tidal_lock as i64 as f64,
            p.exoplanet as i64 as f64,
        ]
    };
    let xs = to_array(a);
    let ys = to_array(b);
    for i in 0..7 {
        let c = OrderedFloat(xs[i]).cmp(&OrderedFloat(ys[i]));
        if c != Ordering::Equal {
            return c;
        }
    }
    Ordering::Equal
}

#[test]
fn planet_ordering_matches_ordered_float() {
    let earth = Planet::earth();
    let planets = [
        earth,
        earth.with_mass(1.0e25f64.to_bits()),
        earth.with_mass(f64::NAN.to_bits()),
        earth.with_mass(f64::INFINITY.to_bits()),
        earth.with_mass(f64::NEG_INFINITY.to_bits()),
        earth.with_radius(1.0e3f64.to_bits()),
        earth.with_toa_solar_flux((-0.0f64).to_bits()),
        earth.with_toa_solar_flux(0.0f64.to_bits()),
        earth.with_axis_tilt((-23f64).to_bits()),
        earth.with_surface_pressure(5f64.to_bits()),
        earth.with_tidal_lock(true),
        earth.with_exoplanet_biomes(true),
    ];
    for a in &planets {
        for b in &planets {
            assert_eq!(
                a.partial_cmp(b),
                Some(planet_cmp_f64(a, b)),
                "ordering mismatch"
            );
        }
    }
}
