//! Biome classification.
//!
//! The classifier is a layered decision procedure: an Earth-like stage
//! (land/sea split, nearest-reference-point land class, extreme and ice
//! overrides), an exoplanet stage that screens for non-goldilocks surface
//! conditions, and a planetary stage that screens for astronomical bodies
//! (black holes, neutron stars, stars) before handing over to the surface
//! stages.
//!
//! All raw measurements are `f64` quantities, which stay outside this
//! library; each stage receives the outcomes of the floating-point
//! threshold comparisons as a profile struct, and this module proves that
//! the decision layering — which rule wins over which — is exactly the
//! specified one. The `Planet` value type carries its floating-point
//! parameters as IEEE 754 bit patterns (`f64::to_bits`), which is enough to
//! state and prove its tolerant equality and its total ordering.

use vstd::prelude::*;
use core::cmp::Ordering;
use crate::Biome;
use crate::float_bits;

verus! {

/// Planetary parameters for exoplanet biome calculation.
///
/// Every `f64` parameter is stored as its IEEE 754 bit pattern
/// (`f64::to_bits`), a lossless encoding chosen so that the comparison
/// rules below can be verified.
#[allow(non_snake_case)]
#[derive(Copy, Clone, Hash, Debug)]
pub struct Planet {
    /// The mass of the planet in kilograms, as an `f64` bit pattern
    /// (eg the Earth has a mass of 5.972e24 kg)
    pub mass_kg: u64,
    /// The average radius of the planet in kilometers, as an `f64` bit
    /// pattern (eg the Earth has a mean radius of 6.371e3 km)
    pub mean_radius_km: u64,
    /// Top-of-atmosphere solar flux in watts per square meter, as an `f64`
    /// bit pattern (eg 1373 W/m2 for Earth's orbit around the sun)
    pub toa_solar_flux_Wpm2: u64,
    /// The planet's rotational axis tilt in degrees, as an `f64` bit
    /// pattern (eg the Earth has a tilt of about 23 degrees)
    pub axis_tilt_deg: u64,
    /// Set to `true` for a tidally locked planet (one side always faces
    /// its host star), `false` otherwise
    pub tidal_lock: bool,
    /// Atmospheric pressure at "sea-level" in kilopascals, as an `f64` bit
    /// pattern (eg 101.3 kPa on Earth)
    pub mean_surface_pressure_kPa: u64,
    /// If `true`, this enables the exotic exoplanet "biome" calculations
    /// such as gas giants and stars. If `false`, the classifier chooses
    /// the best biological biome for the given parameters.
    pub exoplanet: bool,
}

/// The tolerant equality on planets: boolean fields must match exactly and
/// each pair of floating-point fields must be "sorta equal" (equal as
/// doubles, both NaN, or both infinite of either sign).
pub open spec fn planet_eq(a: Planet, b: Planet) -> bool {
    &&& a.tidal_lock == b.tidal_lock
    &&& a.exoplanet == b.exoplanet
    &&& float_bits::sorta_equal_bits(a.mass_kg, b.mass_kg)
    &&& float_bits::sorta_equal_bits(a.mean_radius_km, b.mean_radius_km)
    &&& float_bits::sorta_equal_bits(a.toa_solar_flux_Wpm2, b.toa_solar_flux_Wpm2)
    &&& float_bits::sorta_equal_bits(a.axis_tilt_deg, b.axis_tilt_deg)
    &&& float_bits::sorta_equal_bits(a.mean_surface_pressure_kPa, b.mean_surface_pressure_kPa)
}

/// The ordering of a boolean field, compared as the doubles 0.0 and 1.0.
pub open spec fn bool_cmp(a: bool, b: bool) -> Ordering {
    if a == b {
        Ordering::Equal
    } else if b {
        Ordering::Less
    } else {
        Ordering::Greater
    }
}

/// The total order on planets: field by field in the order mass, radius,
/// solar flux, surface pressure, axis tilt, tidal lock, exoplanet, each
/// floating-point field under the NaN-merging total order on doubles.
pub open spec fn planet_cmp(a: Planet, b: Planet) -> Ordering {
    if float_bits::total_cmp_bits(a.mass_kg, b.mass_kg) != Ordering::Equal {
        float_bits::total_cmp_bits(a.mass_kg, b.mass_kg)
    } else if float_bits::total_cmp_bits(a.mean_radius_km, b.mean_radius_km) != Ordering::Equal {
        float_bits::total_cmp_bits(a.mean_radius_km, b.mean_radius_km)
    } else if float_bits::total_cmp_bits(a.toa_solar_flux_Wpm2, b.toa_solar_flux_Wpm2)
        != Ordering::Equal {
        float_bits::total_cmp_bits(a.toa_solar_flux_Wpm2, b.toa_solar_flux_Wpm2)
    } else if float_bits::total_cmp_bits(a.mean_surface_pressure_kPa, b.mean_surface_pressure_kPa)
        != Ordering::Equal {
        float_bits::total_cmp_bits(a.mean_surface_pressure_kPa, b.mean_surface_pressure_kPa)
    } else if float_bits::total_cmp_bits(a.axis_tilt_deg, b.axis_tilt_deg) != Ordering::Equal {
        float_bits::total_cmp_bits(a.axis_tilt_deg, b.axis_tilt_deg)
    } else if bool_cmp(a.tidal_lock, b.tidal_lock) != Ordering::Equal {
        bool_cmp(a.tidal_lock, b.tidal_lock)
    } else {
        bool_cmp(a.exoplanet, b.exoplanet)
    }
}

impl Planet {
    /// The Earth's parameters (a useful starting point): mass 5.972e24 kg,
    /// mean radius 6371 km, top-of-atmosphere flux 1373 W/m2, axis tilt
    /// 23 degrees, surface pressure 101.3 kPa, not tidally locked, not an
    /// exoplanet.
    pub fn earth() -> (r: Planet)
        ensures
            r.mass_kg == 0x4513c27b13272fb6u64,
            r.mean_radius_km == 0x40b8e30000000000u64,
            r.toa_solar_flux_Wpm2 == 0x4095740000000000u64,
            r.axis_tilt_deg == 0x4037000000000000u64,
            r.mean_surface_pressure_kPa == 0x4059533333333333u64,
            !r.tidal_lock,
            !r.exoplanet,
    {
        Planet {
            mass_kg: 0x4513c27b13272fb6,  // 5.972e24
            mean_radius_km: 0x40b8e30000000000,  // 6.371e3
            toa_solar_flux_Wpm2: 0x4095740000000000,  // 1373.0
            axis_tilt_deg: 0x4037000000000000,  // 23.0
            tidal_lock: false,
            mean_surface_pressure_kPa: 0x4059533333333333,  // 101.3
            exoplanet: false,
        }
    }

    /// Derive a new planet with identical parameters to this struct,
    /// except for the newly specified mass (an `f64` bit pattern, in kg)
    pub fn with_mass(&self, mass_kg: u64) -> (r: Planet)
        ensures
            r.mass_kg == mass_kg,
            r.mean_radius_km == self.mean_radius_km,
            r.toa_solar_flux_Wpm2 == self.toa_solar_flux_Wpm2,
            r.axis_tilt_deg == self.axis_tilt_deg,
            r.tidal_lock == self.tidal_lock,
            r.mean_surface_pressure_kPa == self.mean_surface_pressure_kPa,
            r.exoplanet == self.exoplanet,
    {
        Planet {
            mass_kg,
            mean_radius_km: self.mean_radius_km,
            toa_solar_flux_Wpm2: self.toa_solar_flux_Wpm2,
            axis_tilt_deg: self.axis_tilt_deg,
            tidal_lock: self.tidal_lock,
            mean_surface_pressure_kPa: self.mean_surface_pressure_kPa,
            exoplanet: self.exoplanet,
        }
    }

    /// Derive a new planet with identical parameters to this struct,
    /// except for the newly specified radius (an `f64` bit pattern, in km)
    pub fn with_radius(&self, radius_km: u64) -> (r: Planet)
        ensures
            r.mass_kg == self.mass_kg,
            r.mean_radius_km == radius_km,
            r.toa_solar_flux_Wpm2 == self.toa_solar_flux_Wpm2,
            r.axis_tilt_deg == self.axis_tilt_deg,
            r.tidal_lock == self.tidal_lock,
            r.mean_surface_pressure_kPa == self.mean_surface_pressure_kPa,
            r.exoplanet == self.exoplanet,
    {
        Planet {
            mass_kg: self.mass_kg,
            mean_radius_km: radius_km,
            toa_solar_flux_Wpm2: self.toa_solar_flux_Wpm2,
            axis_tilt_deg: self.axis_tilt_deg,
            tidal_lock: self.tidal_lock,
            mean_surface_pressure_kPa: self.mean_surface_pressure_kPa,
            exoplanet: self.exoplanet,
        }
    }

    /// Derive a new planet with identical parameters to this struct,
    /// except for the newly specified top-of-atmosphere solar flux (an
    /// `f64` bit pattern, in watts per square meter)
    #[allow(non_snake_case)]
    pub fn with_toa_solar_flux(&self, toa_solar_flux_Wpm2: u64) -> (r: Planet)
        ensures
            r.mass_kg == self.mass_kg,
            r.mean_radius_km == self.mean_radius_km,
            r.toa_solar_flux_Wpm2 == toa_solar_flux_Wpm2,
            r.axis_tilt_deg == self.axis_tilt_deg,
            r.tidal_lock == self.tidal_lock,
            r.mean_surface_pressure_kPa == self.mean_surface_pressure_kPa,
            r.exoplanet == self.exoplanet,
    {
        Planet {
            mass_kg: self.mass_kg,
            mean_radius_km: self.mean_radius_km,
            toa_solar_flux_Wpm2,
            axis_tilt_deg: self.axis_tilt_deg,
            tidal_lock: self.tidal_lock,
            mean_surface_pressure_kPa: self.mean_surface_pressure_kPa,
            exoplanet: self.exoplanet,
        }
    }

    /// Derive a new planet with identical parameters to this struct,
    /// except for the newly specified axis tilt (an `f64` bit pattern, in
    /// degrees)
    pub fn with_axis_tilt(&self, axis_tilt_deg: u64) -> (r: Planet)
        ensures
            r.mass_kg == self.mass_kg,
            r.mean_radius_km == self.mean_radius_km,
            r.toa_solar_flux_Wpm2 == self.toa_solar_flux_Wpm2,
            r.axis_tilt_deg == axis_tilt_deg,
            r.tidal_lock == self.tidal_lock,
            r.mean_surface_pressure_kPa == self.mean_surface_pressure_kPa,
            r.exoplanet == self.exoplanet,
    {
        Planet {
            mass_kg: self.mass_kg,
            mean_radius_km: self.mean_radius_km,
            toa_solar_flux_Wpm2: self.toa_solar_flux_Wpm2,
            axis_tilt_deg,
            tidal_lock: self.tidal_lock,
            mean_surface_pressure_kPa: self.mean_surface_pressure_kPa,
            exoplanet: self.exoplanet,
        }
    }

    /// Derive a new planet with identical parameters to this struct,
    /// except for the newly specified tidal lock flag
    pub fn with_tidal_lock(&self, tidal_lock: bool) -> (r: Planet)
        ensures
            r.mass_kg == self.mass_kg,
            r.mean_radius_km == self.mean_radius_km,
            r.toa_solar_flux_Wpm2 == self.toa_solar_flux_Wpm2,
            r.axis_tilt_deg == self.axis_tilt_deg,
            r.tidal_lock == tidal_lock,
            r.mean_surface_pressure_kPa == self.mean_surface_pressure_kPa,
            r.exoplanet == self.exoplanet,
    {
        Planet {
            mass_kg: self.mass_kg,
            mean_radius_km: self.mean_radius_km,
            toa_solar_flux_Wpm2: self.toa_solar_flux_Wpm2,
            axis_tilt_deg: self.axis_tilt_deg,
            tidal_lock,
            mean_surface_pressure_kPa: self.mean_surface_pressure_kPa,
            exoplanet: self.exoplanet,
        }
    }

    /// Derive a new planet with identical parameters to this struct,
    /// except for the newly specified surface pressure (an `f64` bit
    /// pattern, in kPa)
    #[allow(non_snake_case)]
    pub fn with_surface_pressure(&self, mean_surface_pressure_kPa: u64) -> (r: Planet)
        ensures
            r.mass_kg == self.mass_kg,
            r.mean_radius_km == self.mean_radius_km,
            r.toa_solar_flux_Wpm2 == self.toa_solar_flux_Wpm2,
            r.axis_tilt_deg == self.axis_tilt_deg,
            r.tidal_lock == self.tidal_lock,
            r.mean_surface_pressure_kPa == mean_surface_pressure_kPa,
            r.exoplanet == self.exoplanet,
    {
        Planet {
            mass_kg: self.mass_kg,
            mean_radius_km: self.mean_radius_km,
            toa_solar_flux_Wpm2: self.toa_solar_flux_Wpm2,
            axis_tilt_deg: self.axis_tilt_deg,
            tidal_lock: self.tidal_lock,
            mean_surface_pressure_kPa,
            exoplanet: self.exoplanet,
        }
    }

    /// Derive a new planet with identical parameters to this struct,
    /// except for the newly specified exoplanet flag
    pub fn with_exoplanet_biomes(&self, use_exoplanet: bool) -> (r: Planet)
        ensures
            r.mass_kg == self.mass_kg,
            r.mean_radius_km == self.mean_radius_km,
            r.toa_solar_flux_Wpm2 == self.toa_solar_flux_Wpm2,
            r.axis_tilt_deg == self.axis_tilt_deg,
            r.tidal_lock == self.tidal_lock,
            r.mean_surface_pressure_kPa == self.mean_surface_pressure_kPa,
            r.exoplanet == use_exoplanet,
    {
        Planet {
            mass_kg: self.mass_kg,
            mean_radius_km: self.mean_radius_km,
            toa_solar_flux_Wpm2: self.toa_solar_flux_Wpm2,
            axis_tilt_deg: self.axis_tilt_deg,
            tidal_lock: self.tidal_lock,
            mean_surface_pressure_kPa: self.mean_surface_pressure_kPa,
            exoplanet: use_exoplanet,
        }
    }
}

impl PartialEq for Planet {
    fn eq(&self, other: &Planet) -> (r: bool) {
        self.tidal_lock == other.tidal_lock && self.exoplanet == other.exoplanet
            && float_bits::sorta_equal(self.mass_kg, other.mass_kg)
            && float_bits::sorta_equal(self.mean_radius_km, other.mean_radius_km)
            && float_bits::sorta_equal(self.toa_solar_flux_Wpm2, other.toa_solar_flux_Wpm2)
            && float_bits::sorta_equal(self.axis_tilt_deg, other.axis_tilt_deg)
            && float_bits::sorta_equal(
                self.mean_surface_pressure_kPa,
                other.mean_surface_pressure_kPa,
            )
    }
}

impl vstd::std_specs::cmp::PartialEqSpecImpl for Planet {
    open spec fn obeys_eq_spec() -> bool {
        true
    }

    open spec fn eq_spec(&self, other: &Planet) -> bool {
        planet_eq(*self, *other)
    }
}

impl Eq for Planet {}

impl PartialOrd for Planet {
    fn partial_cmp(&self, other: &Planet) -> (r: Option<Ordering>) {
        let c0 = float_bits::total_cmp(self.mass_kg, other.mass_kg);
        if !matches!(c0, Ordering::Equal) {
            return Some(c0);
        }
        let c1 = float_bits::total_cmp(self.mean_radius_km, other.mean_radius_km);
        if !matches!(c1, Ordering::Equal) {
            return Some(c1);
        }
        let c2 = float_bits::total_cmp(self.toa_solar_flux_Wpm2, other.toa_solar_flux_Wpm2);
        if !matches!(c2, Ordering::Equal) {
            return Some(c2);
        }
        let c3 = float_bits::total_cmp(
            self.mean_surface_pressure_kPa,
            other.mean_surface_pressure_kPa,
        );
        if !matches!(c3, Ordering::Equal) {
            return Some(c3);
        }
        let c4 = float_bits::total_cmp(self.axis_tilt_deg, other.axis_tilt_deg);
        if !matches!(c4, Ordering::Equal) {
            return Some(c4);
        }
        if self.tidal_lock != other.tidal_lock {
            if other.tidal_lock {
                return Some(Ordering::Less);
            } else {
                return Some(Ordering::Greater);
            }
        }
        if self.exoplanet != other.exoplanet {
            if other.exoplanet {
                return Some(Ordering::Less);
            } else {
                return Some(Ordering::Greater);
            }
        }
        Some(Ordering::Equal)
    }
}

impl vstd::std_specs::cmp::PartialOrdSpecImpl for Planet {
    open spec fn obeys_partial_cmp_spec() -> bool {
        true
    }

    open spec fn partial_cmp_spec(&self, other: &Planet) -> Option<Ordering> {
        Some(planet_cmp(*self, *other))
    }
}

/// A floating-point field pair that is bitwise identical, both NaN, or
/// both infinite (of either sign) passes the tolerant field comparison.
pub open spec fn fields_merge(a: u64, b: u64) -> bool {
    ||| a == b
    ||| (float_bits::is_nan_bits(a) && float_bits::is_nan_bits(b))
    ||| (float_bits::is_infinite_bits(a) && float_bits::is_infinite_bits(b))
}

/// Planets whose floating-point fields differ only by NaN versus NaN, or
/// by an infinity versus an infinity of the other sign, still compare
/// equal: the tolerant equality deliberately merges those values.
pub proof fn lemma_planet_eq_merges_nan_and_infinity(a: Planet, b: Planet)
    requires
        a.tidal_lock == b.tidal_lock,
        a.exoplanet == b.exoplanet,
        fields_merge(a.mass_kg, b.mass_kg),
        fields_merge(a.mean_radius_km, b.mean_radius_km),
        fields_merge(a.toa_solar_flux_Wpm2, b.toa_solar_flux_Wpm2),
        fields_merge(a.axis_tilt_deg, b.axis_tilt_deg),
        fields_merge(a.mean_surface_pressure_kPa, b.mean_surface_pressure_kPa),
    ensures
        planet_eq(a, b),
{
    lemma_fields_merge_sorta_equal(a.mass_kg, b.mass_kg);
    lemma_fields_merge_sorta_equal(a.mean_radius_km, b.mean_radius_km);
    lemma_fields_merge_sorta_equal(a.toa_solar_flux_Wpm2, b.toa_solar_flux_Wpm2);
    lemma_fields_merge_sorta_equal(a.axis_tilt_deg, b.axis_tilt_deg);
    lemma_fields_merge_sorta_equal(a.mean_surface_pressure_kPa, b.mean_surface_pressure_kPa);
}

/// Merged field pairs are tolerantly equal.
pub proof fn lemma_fields_merge_sorta_equal(a: u64, b: u64)
    requires
        fields_merge(a, b),
    ensures
        float_bits::sorta_equal_bits(a, b),
{
    if a == b {
        float_bits::lemma_sorta_equal_reflexive(a);
    } else if float_bits::is_nan_bits(a) && float_bits::is_nan_bits(b) {
        float_bits::lemma_sorta_equal_nan(a, b);
    } else {
        float_bits::lemma_sorta_equal_infinite(a, b);
    }
}

/// The outcomes of comparing one terrain cell's environmental measurements
/// against the Earth-like classifier's fixed thresholds.
///
/// Each field records one floating-point comparison of the measured
/// quantities (solar flux in W/m2, pressure in kPa, altitude in m, mean
/// temperature and temperature variation in degrees C, annual
/// precipitation in mm). NaN measurements make every comparison false, so
/// an indeterminate cell simply leaves all flags down. The fields are
/// deliberately independent — for example `warm` and `cool` are two
/// separate comparisons, not one another's negation — because that is how
/// the thresholds are consulted.
#[derive(Copy, Clone, Debug)]
pub struct ClimateProfile {
    /// `altitude_m > 0`: the cell is dry land rather than sea floor.
    pub land: bool,
    /// `annual_precip_mm > 6000`: so much rain that land is wetland
    /// regardless of the reference-point classes.
    pub extreme_rainfall: bool,
    /// The terrestrial class owning the reference point nearest to the
    /// normalized (solar flux, mean temperature, temperature variation,
    /// sqrt precipitation) coordinates: one of Wetland, Jungle,
    /// SeasonalForest, NeedleleafForest, Grassland, DesertShrubland,
    /// Tundra, Barren or SandSea — or Unknown when no distance compared
    /// below the search's starting sentinel (NaN coordinates).
    pub nearest_land_class: Biome,
    /// `temp_var_C > 6`: too much seasonal variation for jungle.
    pub high_temp_variation: bool,
    /// benthic solar flux `>= 35` W/m2: the sea floor lies in the photic
    /// zone (benthic flux is the surface flux attenuated by depth).
    pub photic_sea_floor: bool,
    /// `altitude_m < -6`: below the wave disruption depth, where corals,
    /// seagrasses and kelps can grow.
    pub below_wave_base: bool,
    /// `5 < mean_temp_C < 20`: temperate water.
    pub temperate_water: bool,
    /// `20 <= mean_temp_C < 30`: tropical water.
    pub tropical_water: bool,
    /// `altitude_m > -200`: above the depth that separates shallow ocean
    /// from deep ocean.
    pub above_deep_ocean_floor: bool,
    /// `annual_precip_mm < 110`: too dry for vegetated land classes.
    pub arid: bool,
    /// `mean_temp_C > 15`: arid land hot enough for sand sea.
    pub warm: bool,
    /// `mean_temp_C <= 15`: arid land cool enough for barren rock.
    pub cool: bool,
    /// `mean_temp_C >= boiling point of water at the cell's pressure`.
    pub reaches_boiling: bool,
    /// `mean_temp_C < boiling point of water at the cell's pressure`.
    pub below_boiling: bool,
    /// `mean_temp_C + temp_var_C < 0`: never comes above freezing.
    pub permanent_frost: bool,
}

/// The Earth-like classification decision for a profile of threshold
/// comparisons, layer by layer: a land/sea working biome first, then the
/// extreme overrides (aridity, then boiling), then the ice override, each
/// layer replacing the result of the one before it.
pub open spec fn classify_biome_of(p: ClimateProfile) -> Biome {
    let working = if p.land {
        let wet = if p.extreme_rainfall {
            Biome::Wetland
        } else {
            p.nearest_land_class
        };
        if wet == Biome::Jungle && p.high_temp_variation {
            Biome::Grassland
        } else {
            wet
        }
    } else {
        if p.photic_sea_floor {
            if p.temperate_water && p.below_wave_base {
                Biome::SeaForest
            } else if p.tropical_water && p.below_wave_base {
                Biome::TropicalReef
            } else {
                Biome::RockyShallows
            }
        } else if p.above_deep_ocean_floor {
            Biome::ShallowOcean
        } else {
            Biome::DeepOcean
        }
    };
    let extreme = if p.land {
        let dry = if p.arid {
            if p.warm {
                Biome::SandSea
            } else if p.cool {
                Biome::Barren
            } else {
                working
            }
        } else {
            working
        };
        if p.reaches_boiling {
            Biome::Moonscape
        } else {
            dry
        }
    } else {
        if p.reaches_boiling {
            Biome::BoilingSea
        } else {
            working
        }
    };
    if p.below_boiling && p.permanent_frost {
        Biome::IceSheet
    } else {
        extreme
    }
}

/// Predicts the biome for a given set of environmental parameters (does
/// not take into account planetary parameters such as extreme gravity),
/// assuming an Earth-like planet.
///
/// The caller measures the environment in floating point and hands over
/// the threshold comparisons as a [`ClimateProfile`]; this function makes
/// the classification decision, which is exactly [`classify_biome_of`].
pub fn classify_biome(profile: &ClimateProfile) -> (r: Biome)
    ensures
        r == classify_biome_of(*profile),
{
    let mut biome_code: Biome = Biome::Unknown;
    if profile.land {
        if profile.extreme_rainfall {
            biome_code = Biome::Wetland;
        } else {
            biome_code = profile.nearest_land_class;
        }
        if biome_code == Biome::Jungle && profile.high_temp_variation {
            // too much variation for jungle, actually grassland
            biome_code = Biome::Grassland;
        }
    } else {
        if profile.photic_sea_floor {
            // sea floor in photic zone
            if profile.temperate_water && profile.below_wave_base {
                biome_code = Biome::SeaForest;
            } else if profile.tropical_water && profile.below_wave_base {
                biome_code = Biome::TropicalReef;
            } else {
                biome_code = Biome::RockyShallows;
            }
        } else if profile.above_deep_ocean_floor {
            biome_code = Biome::ShallowOcean;
        } else {
            biome_code = Biome::DeepOcean;
        }
    }
    if profile.land {
        if profile.arid {
            if profile.warm {
                biome_code = Biome::SandSea;
            } else if profile.cool {
                biome_code = Biome::Barren;
            }
        }
        if profile.reaches_boiling {
            biome_code = Biome::Moonscape;
        }
    } else {
        if profile.reaches_boiling {
            biome_code = Biome::BoilingSea;
        }
    }
    if profile.below_boiling && profile.permanent_frost {
        biome_code = Biome::IceSheet;
    }
    biome_code
}

/// The outcomes of the exoplanet extreme-condition comparisons that screen
/// a planet surface before the Earth-like classification runs.
///
/// `pressure_kPa` below is the dry-altitude pressure derived from the
/// planet's surface pressure, the altitude clamped to sea level and the
/// mean temperature; the boiling point is taken at that derived pressure.
#[derive(Copy, Clone, Debug)]
pub struct ExoplanetExtremes {
    /// `mean_temp_C > 2230` (the boiling point of quartz): as hot as a
    /// star's surface.
    pub star_temperature: bool,
    /// `pressure_kPa > 22000` (water's supercritical pressure): an
    /// atmosphere thick enough to call the planet a gas giant.
    pub supercritical_pressure: bool,
    /// `mean_temp_C > 1000` (the melting point of pyroxene): molten rock.
    pub magma_temperature: bool,
    /// `altitude_m <= 0`: at or below sea level.
    pub submerged: bool,
    /// `pressure_kPa < vapor pressure` (Magnus formula at the hottest
    /// excursion `mean_temp_C + temp_var_C`) or
    /// `mean_temp_C - temp_var_C > boiling point`: not enough atmosphere
    /// to retain a liquid or gas envelope.
    pub atmosphere_lost: bool,
    /// `-210 < mean_temp_C < -147` and `pressure_kPa < 3400` and
    /// `pressure_kPa > 1.6298e9 * exp(0.08898 * mean_temp_C)`: the window
    /// in which nitrogen is liquid.
    pub cryogen_window: bool,
    /// `annual_precip_mm > 0`: some precipitation falls.
    pub receives_precipitation: bool,
    /// the planet's mean surface pressure lies outside `[4, 3350]` kPa:
    /// outside the goldilocks band for Earth-like liquid-water geography.
    pub outside_goldilocks_band: bool,
}

/// The surface classification decision: indeterminate inputs give
/// `Unknown`; on an exoplanet the extreme screens are consulted in order
/// (star heat, gas-giant pressure, magma heat, lost atmosphere, cryogen
/// window, goldilocks band), the first match deciding; otherwise — and
/// always on a non-exoplanet — the Earth-like decision applies.
pub open spec fn classify_on_surface_of(
    indeterminate: bool,
    exoplanet: bool,
    ex: ExoplanetExtremes,
    climate: ClimateProfile,
) -> Biome {
    if indeterminate {
        Biome::Unknown
    } else if exoplanet && ex.star_temperature {
        Biome::Star
    } else if exoplanet && ex.supercritical_pressure {
        Biome::GasGiant
    } else if exoplanet && ex.magma_temperature {
        if ex.submerged {
            Biome::MagmaSea
        } else {
            Biome::Moonscape
        }
    } else if exoplanet && ex.atmosphere_lost {
        Biome::Moonscape
    } else if exoplanet && ex.cryogen_window {
        if ex.submerged {
            Biome::CryogenSea
        } else if ex.receives_precipitation {
            Biome::IceSheet
        } else {
            Biome::Moonscape
        }
    } else if exoplanet && ex.outside_goldilocks_band {
        Biome::Moonscape
    } else {
        classify_biome_of(climate)
    }
}

/// Predicts the biome for a given set of environmental and planetary
/// parameters.
///
/// The caller derives the surface pressure at altitude, the boiling point
/// and the vapor pressure in floating point and hands over the threshold
/// comparisons; `indeterminate` reports whether any numeric input (or the
/// derived surface gravity) was NaN, in which case the result is
/// `Unknown`. On an exoplanet the extreme screens run first; otherwise
/// the decision is exactly the Earth-like one on `climate`, whose
/// profile must be taken at the derived pressure.
pub fn classify_biome_on_planet_surface(
    planet: &Planet,
    indeterminate: bool,
    extremes: &ExoplanetExtremes,
    climate: &ClimateProfile,
) -> (r: Biome)
    ensures
        r == classify_on_surface_of(indeterminate, planet.exoplanet, *extremes, *climate),
{
    if indeterminate {
        return Biome::Unknown;
    }
    if planet.exoplanet {
        // try to detect extreme conditions of a non-goldilocks-zone planet
        if extremes.star_temperature {
            return Biome::Star;
        }
        if extremes.supercritical_pressure {
            return Biome::GasGiant;
        }
        if extremes.magma_temperature {
            if extremes.submerged {
                return Biome::MagmaSea;
            } else {
                return Biome::Moonscape;
            }
        }
        if extremes.atmosphere_lost {
            return Biome::Moonscape;
        }
        if extremes.cryogen_window {
            if extremes.submerged {
                return Biome::CryogenSea;
            } else if extremes.receives_precipitation {
                return Biome::IceSheet;
            } else {
                return Biome::Moonscape;
            }
        }
        if extremes.outside_goldilocks_band {
            return Biome::Moonscape;
        }
    }
    classify_biome(climate)
}

/// The outcomes of the astronomical-body comparisons made from a planet's
/// bulk properties before any surface classification.
#[derive(Copy, Clone, Debug)]
pub struct AstronomicalExtremes {
    /// bulk density `> 2e16` t/m3 (above the densest neutron star):
    /// a black hole. Density is the planet's mass over the volume of a
    /// sphere of its radius plus the cell's altitude.
    pub black_hole_density: bool,
    /// bulk density `>= 1e14` t/m3: a neutron star.
    pub neutron_star_density: bool,
    /// `mass_kg >= 1.2819e29` (the smallest red dwarf): massive enough to
    /// ignite fusion.
    pub stellar_mass: bool,
}

/// The planet-level decision: on an exoplanet the astronomical screens
/// decide first (black hole, then neutron star, then star by mass);
/// otherwise the surface decision applies.
pub open spec fn classify_on_planet_of(
    exoplanet: bool,
    astro: AstronomicalExtremes,
    indeterminate: bool,
    ex: ExoplanetExtremes,
    climate: ClimateProfile,
) -> Biome {
    if exoplanet && astro.black_hole_density {
        Biome::EventHorizon
    } else if exoplanet && astro.neutron_star_density {
        Biome::NeutronStar
    } else if exoplanet && astro.stellar_mass {
        Biome::Star
    } else {
        classify_on_surface_of(indeterminate, exoplanet, ex, climate)
    }
}

/// Predicts the biome for a given set of environmental and planetary
/// parameters, when the mean solar flux has been calculated from the
/// latitude and longitude.
///
/// The caller derives the bulk density, the geometric solar flux and the
/// pressure at altitude in floating point and hands over the threshold
/// comparisons; the `climate` profile must be taken at that derived flux
/// and pressure. On an exoplanet the astronomical screens run before the
/// surface stage.
pub fn classify_biome_on_planet(
    planet: &Planet,
    astro: &AstronomicalExtremes,
    indeterminate: bool,
    extremes: &ExoplanetExtremes,
    climate: &ClimateProfile,
) -> (r: Biome)
    ensures
        r == classify_on_planet_of(
            planet.exoplanet,
            *astro,
            indeterminate,
            *extremes,
            *climate,
        ),
{
    if planet.exoplanet {
        // try to detect extreme conditions of a non-goldilocks-zone planet
        if astro.black_hole_density {
            return Biome::EventHorizon;
        }
        if astro.neutron_star_density {
            return Biome::NeutronStar;
        }
        if astro.stellar_mass {
            return Biome::Star;
        }
    }
    classify_biome_on_planet_surface(planet, indeterminate, extremes, climate)
}

/// Extreme heat beats rainfall: on land at or above the boiling point the
/// result is Moonscape, never Wetland, however extreme the rainfall.
pub proof fn lemma_boiling_overrides_wetland(p: ClimateProfile)
    requires
        p.land,
        p.extreme_rainfall,
        p.reaches_boiling,
        !p.below_boiling,
    ensures
        classify_biome_of(p) == Biome::Moonscape,
{
}

/// Ice beats everything: wherever the temperature stays below boiling and
/// never comes above freezing, the result is IceSheet, whatever the other
/// comparisons say.
pub proof fn lemma_ice_overrides_all(p: ClimateProfile)
    requires
        p.below_boiling,
        p.permanent_frost,
    ensures
        classify_biome_of(p) == Biome::IceSheet,
{
}

/// On a planet without the exoplanet flag the surface decision ignores
/// every exoplanet screen and matches the Earth-like decision exactly,
/// whenever the inputs are determinate.
pub proof fn lemma_non_exoplanet_matches_earthlike(
    ex: ExoplanetExtremes,
    climate: ClimateProfile,
)
    ensures
        classify_on_surface_of(false, false, ex, climate) == classify_biome_of(climate),
{
}

/// On a planet without the exoplanet flag the planet-level decision also
/// ignores the astronomical screens and reduces to the surface decision.
pub proof fn lemma_non_exoplanet_ignores_astronomical(
    astro: AstronomicalExtremes,
    indeterminate: bool,
    ex: ExoplanetExtremes,
    climate: ClimateProfile,
)
    ensures
        classify_on_planet_of(false, astro, indeterminate, ex, climate)
            == classify_on_surface_of(indeterminate, false, ex, climate),
{
}

} // verus!
