use biomecalculator::Biome;
use biomecalculator::classifier::{
    classify_biome, classify_biome_on_planet, classify_biome_on_planet_surface,
    AstronomicalExtremes, ClimateProfile, ExoplanetExtremes, Planet,
};

/// The empirical boiling point of water (degrees C) at the given pressure,
/// as the classifier's floating-point front end computes it.
fn boiling_point(pressure_kpa: f64) -> f64 {
    let x = (pressure_kpa * 10.).ln();
    let x2 = x * x;
    let x3 = x2 * x;
    let lp = 0.051769 * x3 + 0.65545 * x2 + 10.387 * x - 10.619;
    let hp = 0.47092 * x3 - 8.2481 * x2 + 75.520 * x - 183.98;
    if pressure_kpa < 101.3 {
        lp
    } else {
        hp
    }
}

/// Builds the threshold-comparison profile for one cell from raw
/// floating-point measurements, the way the classifier's front end does.
/// The nearest-reference-point land class is supplied by the caller.
fn profile(
    mean_solar_flux_wpm2: f64,
    pressure_kpa: f64,
    altitude_m: f64,
    mean_temp_c: f64,
    temp_var_c: f64,
    annual_precip_mm: f64,
    nearest_land_class: Biome,
) -> ClimateProfile {
    let benthic_solar_flux = mean_solar_flux_wpm2 * 10f64.powf(0.013333 * altitude_m);
    let boiling_point_c = boiling_point(pressure_kpa);
    ClimateProfile {
        land: altitude_m > 0.,
        extreme_rainfall: annual_precip_mm > 6000.,
        nearest_land_class,
        high_temp_variation: temp_var_c > 6.0,
        photic_sea_floor: benthic_solar_flux >= 35.,
        below_wave_base: altitude_m < -6.,
        temperate_water: mean_temp_c > 5. && mean_temp_c < 20.,
        tropical_water: mean_temp_c >= 20. && mean_temp_c < 30.,
        above_deep_ocean_floor: altitude_m > -200.,
        arid: annual_precip_mm < 110.,
        warm: mean_temp_c > 15.,
        cool: mean_temp_c <= 15.,
        reaches_boiling: mean_temp_c >= boiling_point_c,
        below_boiling: mean_temp_c < boiling_point_c,
        permanent_frost: mean_temp_c + temp_var_c < 0.,
    }
}

fn quiet_extremes() -> ExoplanetExtremes {
    ExoplanetExtremes {
        star_temperature: false,
        supercritical_pressure: false,
        magma_temperature: false,
        submerged: false,
        atmosphere_lost: false,
        cryogen_window: false,
        receives_precipitation: false,
        outside_goldilocks_band: false,
    }
}

fn quiet_astro() -> AstronomicalExtremes {
    AstronomicalExtremes {
        black_hole_density: false,
        neutron_star_density: false,
        stellar_mass: false,
    }
}

#[test]
fn deep_ocean_boundary_case() {
    // A literal regression case representative of deep-ocean
    // classification.
    let p = profile(245.56, 101.3, -541.4, -0.761, 1.70, 251.82, Biome::Unknown);
    let biome = classify_biome(&p);
    assert_eq!(biome, Biome::DeepOcean);
    assert_eq!(biome.bcode(), 16);
}

#[test]
fn classification_is_repeatable() {
    // Pseudo-random profiles (simple linear-congruential bits): the same
    // inputs must always produce the same output.
    let mut state: u64 = 0x243f6a8885a308d3;
    for _ in 0..200 {
        state = state.wrapping_mul(6364136223846793005).wrapping_add(1442695040888963407);
        let bits = state;
        let flag = |i: u32| (bits >> i) & 1 == 1;
        let classes = [
            Biome::Wetland,
            Biome::Jungle,
            Biome::SeasonalForest,
            Biome::NeedleleafForest,
            Biome::Grassland,
            Biome::DesertShrubland,
            Biome::Tundra,
            Biome::Barren,
            Biome::SandSea,
        ];
        let p = ClimateProfile {
            land: flag(0),
            extreme_rainfall: flag(1),
            nearest_land_class: classes[(bits >> 32) as usize % classes.len()],
            high_temp_variation: flag(2),
            photic_sea_floor: flag(3),
            below_wave_base: flag(4),
            temperate_water: flag(5),
            tropical_water: flag(6),
            above_deep_ocean_floor: flag(7),
            arid: flag(8),
            warm: flag(9),
            cool: flag(10),
            reaches_boiling: flag(11),
            below_boiling: flag(12),
            permanent_frost: flag(13),
        };
        assert_eq!(classify_biome(&p), classify_biome(&p));
    }
}

#[test]
fn boiling_land_beats_extreme_rainfall() {
    // Mean temperature above the boiling point on land with wetland-grade
    // rainfall: Moonscape must win over Wetland.
    let p = profile(500., 101.3, 100., 120., 5., 7000., Biome::Unknown);
    assert!(p.extreme_rainfall);
    assert!(p.reaches_boiling);
    let biome = classify_biome(&p);
    assert_eq!(biome, Biome::Moonscape);
    assert_ne!(biome, Biome::Wetland);
}

#[test]
fn ice_beats_ocean_and_boiling_sea() {
    // A frozen sea cell is IceSheet no matter what the ocean rules said.
    let shallow = profile(100., 101.3, -50., -10., 5., 500., Biome::Unknown);
    assert!(!shallow.land && shallow.permanent_frost && shallow.below_boiling);
    assert_eq!(classify_biome(&shallow), Biome::IceSheet);
    let deep = profile(100., 101.3, -2000., -10., 5., 500., Biome::Unknown);
    assert_eq!(classify_biome(&deep), Biome::IceSheet);
    let photic = profile(5000., 101.3, -20., -10., 5., 500., Biome::Unknown);
    assert_eq!(classify_biome(&photic), Biome::IceSheet);
}

#[test]
fn land_sea_and_override_branches() {
    // Land: wetland rain, nearest class, jungle-to-grassland, aridity.
    let wet = profile(500., 101.3, 100., 20., 3., 6500., Biome::Grassland);
    assert_eq!(classify_biome(&wet), Biome::Wetland);
    let jungle = profile(700., 101.3, 100., 25., 3., 3000., Biome::Jungle);
    assert_eq!(classify_biome(&jungle), Biome::Jungle);
    let varied_jungle = profile(700., 101.3, 100., 25., 8., 3000., Biome::Jungle);
    assert_eq!(classify_biome(&varied_jungle), Biome::Grassland);
    let hot_arid = profile(700., 101.3, 100., 25., 8., 50., Biome::Barren);
    assert_eq!(classify_biome(&hot_arid), Biome::SandSea);
    let cool_arid = profile(700., 101.3, 100., 10., 8., 50., Biome::Grassland);
    assert_eq!(classify_biome(&cool_arid), Biome::Barren);
    // Sea: photic bands and depth split.
    let sea_forest = profile(500., 101.3, -20., 12., 2., 500., Biome::Unknown);
    assert_eq!(classify_biome(&sea_forest), Biome::SeaForest);
    let reef = profile(500., 101.3, -20., 25., 2., 500., Biome::Unknown);
    assert_eq!(classify_biome(&reef), Biome::TropicalReef);
    let rocky = profile(500., 101.3, -3., 25., 2., 500., Biome::Unknown);
    assert_eq!(classify_biome(&rocky), Biome::RockyShallows);
    let shallow = profile(100., 101.3, -150., 10., 2., 500., Biome::Unknown);
    assert_eq!(classify_biome(&shallow), Biome::ShallowOcean);
    let boiling = profile(100., 101.3, -150., 150., 2., 500., Biome::Unknown);
    assert_eq!(classify_biome(&boiling), Biome::BoilingSea);
}

#[test]
fn non_exoplanet_matches_earthlike() {
    // With the exoplanet flag off, the surface classification must ignore
    // every exoplanet-only branch and match classify_biome exactly.
    let planet = Planet::earth();
    assert!(!planet.exoplanet);
    let loud = ExoplanetExtremes {
        star_temperature: true,
        supercritical_pressure: true,
        magma_temperature: true,
        submerged: true,
        atmosphere_lost: true,
        cryogen_window: true,
        receives_precipitation: true,
        outside_goldilocks_band: true,
    };
    let cases = [
        profile(245.56, 101.3, -541.4, -0.761, 1.70, 251.82, Biome::Unknown),
        profile(700., 101.3, 100., 25., 3., 3000., Biome::Jungle),
        profile(100., 101.3, -50., -10., 5., 500., Biome::Unknown),
    ];
    for p in cases {
        assert_eq!(
            classify_biome_on_planet_surface(&planet, false, &loud, &p),
            classify_biome(&p)
        );
    }
}

#[test]
fn exoplanet_extremes_in_order() {
    let planet = Planet::earth().with_exoplanet_biomes(true);
    assert!(planet.exoplanet);
    let climate = profile(245.56, 101.3, -541.4, -0.761, 1.70, 251.82, Biome::Unknown);

    let mut ex = quiet_extremes();
    ex.star_temperature = true;
    ex.supercritical_pressure = true;
    assert_eq!(
        classify_biome_on_planet_surface(&planet, false, &ex, &climate),
        Biome::Star
    );

    ex.star_temperature = false;
    assert_eq!(
        classify_biome_on_planet_surface(&planet, false, &ex, &climate),
        Biome::GasGiant
    );

    let mut magma = quiet_extremes();
    magma.magma_temperature = true;
    magma.submerged = true;
    assert_eq!(
        classify_biome_on_planet_surface(&planet, false, &magma, &climate),
        Biome::MagmaSea
    );
    magma.submerged = false;
    assert_eq!(
        classify_biome_on_planet_surface(&planet, false, &magma, &climate),
        Biome::Moonscape
    );

    let mut lost = quiet_extremes();
    lost.atmosphere_lost = true;
    assert_eq!(
        classify_biome_on_planet_surface(&planet, false, &lost, &climate),
        Biome::Moonscape
    );

    let mut cryo = quiet_extremes();
    cryo.cryogen_window = true;
    cryo.submerged = true;
    assert_eq!(
        classify_biome_on_planet_surface(&planet, false, &cryo, &climate),
        Biome::CryogenSea
    );
    cryo.submerged = false;
    cryo.receives_precipitation = true;
    assert_eq!(
        classify_biome_on_planet_surface(&planet, false, &cryo, &climate),
        Biome::IceSheet
    );
    cryo.receives_precipitation = false;
    assert_eq!(
        classify_biome_on_planet_surface(&planet, false, &cryo, &climate),
        Biome::Moonscape
    );

    let mut thin = quiet_extremes();
    thin.outside_goldilocks_band = true;
    assert_eq!(
        classify_biome_on_planet_surface(&planet, false, &thin, &climate),
        Biome::Moonscape
    );

    let calm = quiet_extremes();
    assert_eq!(
        classify_biome_on_planet_surface(&planet, false, &calm, &climate),
        Biome::DeepOcean
    );
}

#[test]
fn indeterminate_inputs_give_unknown() {
    let planet = Planet::earth().with_exoplanet_biomes(true);
    let climate = profile(245.56, 101.3, -541.4, -0.761, 1.70, 251.82, Biome::Unknown);
    let mut ex = quiet_extremes();
    ex.star_temperature = true;
    assert_eq!(
        classify_biome_on_planet_surface(&planet, true, &ex, &climate),
        Biome::Unknown
    );
    assert_eq!(
        classify_biome_on_planet(&planet, &quiet_astro(), true, &ex, &climate),
        Biome::Unknown
    );
}

#[test]
fn astronomical_extremes_in_order() {
    let planet = Planet::earth().with_exoplanet_biomes(true);
    let climate = profile(245.56, 101.3, -541.4, -0.761, 1.70, 251.82, Biome::Unknown);
    let calm = quiet_extremes();

    let mut astro = quiet_astro();
    astro.black_hole_density = true;
    astro.neutron_star_density = true;
    astro.stellar_mass = true;
    assert_eq!(
        classify_biome_on_planet(&planet, &astro, false, &calm, &climate),
        Biome::EventHorizon
    );
    astro.black_hole_density = false;
    assert_eq!(
        classify_biome_on_planet(&planet, &astro, false, &calm, &climate),
        Biome::NeutronStar
    );
    astro.neutron_star_density = false;
    assert_eq!(
        classify_biome_on_planet(&planet, &astro, false, &calm, &climate),
        Biome::Star
    );
    astro.stellar_mass = false;
    assert_eq!(
        classify_biome_on_planet(&planet, &astro, false, &calm, &climate),
        Biome::DeepOcean
    );

    // Without the exoplanet flag the astronomical screens are ignored.
    let tame = Planet::earth();
    let loud = AstronomicalExtremes {
        black_hole_density: true,
        neutron_star_density: true,
        stellar_mass: true,
    };
    assert_eq!(
        classify_biome_on_planet(&tame, &loud, false, &calm, &climate),
        Biome::DeepOcean
    );
}
