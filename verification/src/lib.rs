//! Biome catalog and classifier for the Plantabyte biome system.
//!
//! The crate provides the closed `Biome` enumeration with its 7-bit code
//! mapping and descriptive metadata, a `classifier` module with the layered
//! decision procedure that picks a biome from environmental threshold
//! comparisons, and a `Planet` value type whose floating-point fields are
//! carried as IEEE 754 bit patterns so that their equality and ordering
//! rules can be stated and proved exactly.

use vstd::prelude::*;

pub mod classifier;
pub mod float_bits;

verus! {

/// All biomes of the Plantabyte classification system.
///
/// Each biome is identified by a 7-bit code (`0yyyxxxx`: three category
/// bits, four index bits) returned by [`Biome::bcode`]; `Unknown` has code 0
/// and also stands for any unrecognized code when decoding.
#[derive(Copy, Clone, PartialEq, Eq, Structural, Hash, Debug)]
pub enum Biome {
    /// Represents an absence of data or unsupported biome code
    Unknown,
    /// (Terrestrial Biome) Permanent wetland habitat
    Wetland,
    /// (Terrestrial Biome) Tropical rainforest
    Jungle,
    /// (Terrestrial Biome) Deciduous broadleaf forest
    SeasonalForest,
    /// (Terrestrial Biome) Boreal, alpine, and taiga evergreen forests
    NeedleleafForest,
    /// (Terrestrial Biome) Grasslands, prairies, plains, and savannahs
    Grassland,
    /// (Terrestrial Biome) Deserts with sparse vegetation
    DesertShrubland,
    /// (Terrestrial Biome) Habitat that is too cold for forests to grow
    Tundra,
    /// (Aquatic Biome) Lakes and rivers
    Freshwater,
    /// (Aquatic Biome) Kelp forests and seagrass meadows
    SeaForest,
    /// (Aquatic Biome) Coral reefs
    TropicalReef,
    /// (Aquatic Biome) Shallow marine habitat with sparse flora
    RockyShallows,
    /// (Aquatic Biome) Deep ocean (no light reaches the seafloor)
    DeepOcean,
    /// (Aquatic Biome) Shallow ocean (sunlight may reach the seafloor)
    ShallowOcean,
    /// (Extremophile Biome) Desert with virtually no vegetation
    Barren,
    /// (Extremophile Biome) Sand dunes with virtually no vegetation
    SandSea,
    /// (Extremophile Biome) Permanent ice
    IceSheet,
    /// (Extremophile Biome) Water body so hot that it boils
    BoilingSea,
    /// (Astronomical Biome) Completely inhospitable rock and dust
    Moonscape,
    /// (Astronomical Biome) Permanently molten lava
    MagmaSea,
    /// (Astronomical Biome) Bodies of liquid nitrogen or other cryogenic liquid
    CryogenSea,
    /// (Astronomical Biome) "Surface" of a gas giant
    GasGiant,
    /// (Astronomical Biome) Surface of a star
    Star,
    /// (Astronomical Biome) Surface of a neutron star
    NeutronStar,
    /// (Astronomical Biome) "Surface" of a black hole
    EventHorizon,
    /// (Artificial Biome) Agriculture land (eg crop fields and pastures)
    Farmland,
    /// (Artificial Biome) Cities and other artificial landscapes
    Urban,
    /// (Artificial Biome) Abandoned or destroyed urban areas
    Ruins,
    /// (Artificial Biome) Land too polluted to support terrestrial life
    PollutedWasteland,
    /// (Artificial Biome) Water too polluted to support aquatic life
    PollutedWastewater,
    /// (Fantasy Biome) Permanently dark habitat with glowing flora
    Bioluminescent,
    /// (Fantasy Biome) Dead (or undead) land
    Dead,
    /// (Fantasy Biome) Magical paradise
    MagicGarden,
    /// (Fantasy Biome) Elemental phenomena (floating rock, unmeltable ice, etc)
    ElementalChaos,
    /// (Fantasy Biome) Living landscape, such as an ocean-sized amoeba
    Ooze,
}

/// The 7-bit Plantabyte code of each biome (`0yyyxxxx`: category bits `yyy`,
/// index bits `xxxx`).
pub open spec fn bcode_of(b: Biome) -> u8 {
    match b {
        Biome::Unknown => 0,
        Biome::Wetland => 1,
        Biome::Jungle => 2,
        Biome::SeasonalForest => 3,
        Biome::NeedleleafForest => 4,
        Biome::Grassland => 5,
        Biome::DesertShrubland => 6,
        Biome::Tundra => 7,
        Biome::Barren => 8,
        Biome::SandSea => 9,
        Biome::DeepOcean => 16,
        Biome::Freshwater => 17,
        Biome::SeaForest => 18,
        Biome::TropicalReef => 19,
        Biome::RockyShallows => 20,
        Biome::ShallowOcean => 21,
        Biome::IceSheet => 22,
        Biome::BoilingSea => 23,
        Biome::Farmland => 32,
        Biome::Urban => 33,
        Biome::Ruins => 34,
        Biome::PollutedWasteland => 35,
        Biome::PollutedWastewater => 36,
        Biome::Moonscape => 64,
        Biome::MagmaSea => 65,
        Biome::CryogenSea => 66,
        Biome::GasGiant => 67,
        Biome::Star => 68,
        Biome::NeutronStar => 69,
        Biome::EventHorizon => 70,
        Biome::Bioluminescent => 112,
        Biome::Dead => 113,
        Biome::MagicGarden => 114,
        Biome::ElementalChaos => 115,
        Biome::Ooze => 116,
    }
}

/// Decoding of a byte to a biome: the 35 known codes map to their biome,
/// every other byte maps to `Unknown`.
pub open spec fn biome_of_bcode(code: u8) -> Biome {
    match code {
        0u8 => Biome::Unknown,
        1u8 => Biome::Wetland,
        2u8 => Biome::Jungle,
        3u8 => Biome::SeasonalForest,
        4u8 => Biome::NeedleleafForest,
        5u8 => Biome::Grassland,
        6u8 => Biome::DesertShrubland,
        7u8 => Biome::Tundra,
        8u8 => Biome::Barren,
        9u8 => Biome::SandSea,
        16u8 => Biome::DeepOcean,
        17u8 => Biome::Freshwater,
        18u8 => Biome::SeaForest,
        19u8 => Biome::TropicalReef,
        20u8 => Biome::RockyShallows,
        21u8 => Biome::ShallowOcean,
        22u8 => Biome::IceSheet,
        23u8 => Biome::BoilingSea,
        32u8 => Biome::Farmland,
        33u8 => Biome::Urban,
        34u8 => Biome::Ruins,
        35u8 => Biome::PollutedWasteland,
        36u8 => Biome::PollutedWastewater,
        64u8 => Biome::Moonscape,
        65u8 => Biome::MagmaSea,
        66u8 => Biome::CryogenSea,
        67u8 => Biome::GasGiant,
        68u8 => Biome::Star,
        69u8 => Biome::NeutronStar,
        70u8 => Biome::EventHorizon,
        112u8 => Biome::Bioluminescent,
        113u8 => Biome::Dead,
        114u8 => Biome::MagicGarden,
        115u8 => Biome::ElementalChaos,
        116u8 => Biome::Ooze,
        _ => Biome::Unknown,
    }
}

impl Biome {
    /// Returns the Plantabyte biome code for this biome.
    pub fn bcode(&self) -> (r: u8)
        ensures
            r == bcode_of(*self),
    {
        match *self {
            Biome::Unknown => 0,
            Biome::Wetland => 1,
            Biome::Jungle => 2,
            Biome::SeasonalForest => 3,
            Biome::NeedleleafForest => 4,
            Biome::Grassland => 5,
            Biome::DesertShrubland => 6,
            Biome::Tundra => 7,
            Biome::Barren => 8,
            Biome::SandSea => 9,
            Biome::DeepOcean => 16,
            Biome::Freshwater => 17,
            Biome::SeaForest => 18,
            Biome::TropicalReef => 19,
            Biome::RockyShallows => 20,
            Biome::ShallowOcean => 21,
            Biome::IceSheet => 22,
            Biome::BoilingSea => 23,
            Biome::Farmland => 32,
            Biome::Urban => 33,
            Biome::Ruins => 34,
            Biome::PollutedWasteland => 35,
            Biome::PollutedWastewater => 36,
            Biome::Moonscape => 64,
            Biome::MagmaSea => 65,
            Biome::CryogenSea => 66,
            Biome::GasGiant => 67,
            Biome::Star => 68,
            Biome::NeutronStar => 69,
            Biome::EventHorizon => 70,
            Biome::Bioluminescent => 112,
            Biome::Dead => 113,
            Biome::MagicGarden => 114,
            Biome::ElementalChaos => 115,
            Biome::Ooze => 116,
        }
    }
}

/// The fixed order in which [`Biome::values`] enumerates the biomes.
pub open spec fn all_biomes() -> Seq<Biome> {
    seq![
        Biome::Unknown,
        Biome::Wetland,
        Biome::Jungle,
        Biome::SeasonalForest,
        Biome::NeedleleafForest,
        Biome::Grassland,
        Biome::DesertShrubland,
        Biome::Tundra,
        Biome::Freshwater,
        Biome::SeaForest,
        Biome::TropicalReef,
        Biome::RockyShallows,
        Biome::DeepOcean,
        Biome::ShallowOcean,
        Biome::Barren,
        Biome::SandSea,
        Biome::IceSheet,
        Biome::BoilingSea,
        Biome::Moonscape,
        Biome::MagmaSea,
        Biome::CryogenSea,
        Biome::GasGiant,
        Biome::Star,
        Biome::NeutronStar,
        Biome::EventHorizon,
        Biome::Farmland,
        Biome::Urban,
        Biome::Ruins,
        Biome::PollutedWasteland,
        Biome::PollutedWastewater,
        Biome::Bioluminescent,
        Biome::Dead,
        Biome::MagicGarden,
        Biome::ElementalChaos,
        Biome::Ooze,
    ]
}

impl Biome {
    /// The number of biome variants.
    pub const VARIANT_COUNT: usize = 35;

    /// Returns all enum variants in their fixed catalog order (useful for
    /// iteration over the biome types).
    pub fn values() -> (r: Vec<Biome>)
        ensures
            r@ == all_biomes(),
            r@.len() == 35,
            forall|i: int, j: int|
                0 <= i < r@.len() && 0 <= j < r@.len() && i != j ==> r@[i] != r@[j],
    {
        let mut v: Vec<Biome> = Vec::new();
        v.push(Biome::Unknown);
        v.push(Biome::Wetland);
        v.push(Biome::Jungle);
        v.push(Biome::SeasonalForest);
        v.push(Biome::NeedleleafForest);
        v.push(Biome::Grassland);
        v.push(Biome::DesertShrubland);
        v.push(Biome::Tundra);
        v.push(Biome::Freshwater);
        v.push(Biome::SeaForest);
        v.push(Biome::TropicalReef);
        v.push(Biome::RockyShallows);
        v.push(Biome::DeepOcean);
        v.push(Biome::ShallowOcean);
        v.push(Biome::Barren);
        v.push(Biome::SandSea);
        v.push(Biome::IceSheet);
        v.push(Biome::BoilingSea);
        v.push(Biome::Moonscape);
        v.push(Biome::MagmaSea);
        v.push(Biome::CryogenSea);
        v.push(Biome::GasGiant);
        v.push(Biome::Star);
        v.push(Biome::NeutronStar);
        v.push(Biome::EventHorizon);
        v.push(Biome::Farmland);
        v.push(Biome::Urban);
        v.push(Biome::Ruins);
        v.push(Biome::PollutedWasteland);
        v.push(Biome::PollutedWastewater);
        v.push(Biome::Bioluminescent);
        v.push(Biome::Dead);
        v.push(Biome::MagicGarden);
        v.push(Biome::ElementalChaos);
        v.push(Biome::Ooze);
        proof {
            assert(v@ =~= all_biomes());
            assert forall|i: int, j: int|
                0 <= i < v@.len() && 0 <= j < v@.len() && i != j implies v@[i] != v@[j] by {
                lemma_all_biomes_distinct(i, j);
            }
        }
        v
    }
}

/// The stable identifier string of each biome.
pub open spec fn enum_name_of(b: Biome) -> Seq<char> {
    match b {
        Biome::Unknown => "Unknown"@,
        Biome::Wetland => "Wetland"@,
        Biome::Jungle => "Jungle"@,
        Biome::SeasonalForest => "SeasonalForest"@,
        Biome::NeedleleafForest => "NeedleleafForest"@,
        Biome::Grassland => "Grassland"@,
        Biome::DesertShrubland => "DesertShrubland"@,
        Biome::Tundra => "Tundra"@,
        Biome::Freshwater => "Freshwater"@,
        Biome::SeaForest => "SeaForest"@,
        Biome::TropicalReef => "TropicalReef"@,
        Biome::RockyShallows => "RockyShallows"@,
        Biome::DeepOcean => "DeepOcean"@,
        Biome::ShallowOcean => "ShallowOcean"@,
        Biome::Barren => "Barren"@,
        Biome::SandSea => "SandSea"@,
        Biome::IceSheet => "IceSheet"@,
        Biome::BoilingSea => "BoilingSea"@,
        Biome::Moonscape => "Moonscape"@,
        Biome::MagmaSea => "MagmaSea"@,
        Biome::CryogenSea => "CryogenSea"@,
        Biome::GasGiant => "GasGiant"@,
        Biome::Star => "Star"@,
        Biome::NeutronStar => "NeutronStar"@,
        Biome::EventHorizon => "EventHorizon"@,
        Biome::Farmland => "Farmland"@,
        Biome::Urban => "Urban"@,
        Biome::Ruins => "Ruins"@,
        Biome::PollutedWasteland => "PollutedWasteland"@,
        Biome::PollutedWastewater => "PollutedWastewater"@,
        Biome::Bioluminescent => "Bioluminescent"@,
        Biome::Dead => "Dead"@,
        Biome::MagicGarden => "MagicGarden"@,
        Biome::ElementalChaos => "ElementalChaos"@,
        Biome::Ooze => "Ooze"@,
    }
}

/// The US English name of each biome for a non-scientist audience.
pub open spec fn common_name_of(b: Biome) -> Seq<char> {
    match b {
        Biome::Unknown => "unknown"@,
        Biome::Wetland => "swamp"@,
        Biome::Jungle => "jungle"@,
        Biome::SeasonalForest => "deciduous forest"@,
        Biome::NeedleleafForest => "evergreen forest"@,
        Biome::Grassland => "grassland"@,
        Biome::DesertShrubland => "desert"@,
        Biome::Tundra => "tundra"@,
        Biome::Freshwater => "freshwater"@,
        Biome::SeaForest => "seaweed forest"@,
        Biome::TropicalReef => "coral reef"@,
        Biome::RockyShallows => "rocky shallows"@,
        Biome::DeepOcean => "ocean"@,
        Biome::ShallowOcean => "shallow ocean"@,
        Biome::Barren => "barren"@,
        Biome::SandSea => "sand dunes"@,
        Biome::IceSheet => "ice sheet"@,
        Biome::BoilingSea => "boiling sea"@,
        Biome::Moonscape => "moonscape"@,
        Biome::MagmaSea => "magma sea"@,
        Biome::CryogenSea => "cryogen sea"@,
        Biome::GasGiant => "gas giant"@,
        Biome::Star => "star"@,
        Biome::NeutronStar => "neutron star"@,
        Biome::EventHorizon => "black hole"@,
        Biome::Farmland => "farmland"@,
        Biome::Urban => "urban"@,
        Biome::Ruins => "ruins"@,
        Biome::PollutedWasteland => "toxic wasteland"@,
        Biome::PollutedWastewater => "toxic water"@,
        Biome::Bioluminescent => "permanent night"@,
        Biome::Dead => "dead land"@,
        Biome::MagicGarden => "magic garden"@,
        Biome::ElementalChaos => "elemental chaos"@,
        Biome::Ooze => "ooze"@,
    }
}

/// The US English name of each biome for a scientist audience.
pub open spec fn technical_name_of(b: Biome) -> Seq<char> {
    match b {
        Biome::Unknown => "unknown"@,
        Biome::Wetland => "wetland"@,
        Biome::Jungle => "tropical rainforest"@,
        Biome::SeasonalForest => "temperate forest"@,
        Biome::NeedleleafForest => "needleleaf forest"@,
        Biome::Grassland => "grassland"@,
        Biome::DesertShrubland => "xeric shrubland"@,
        Biome::Tundra => "tundra"@,
        Biome::Freshwater => "freshwater"@,
        Biome::SeaForest => "marine forest"@,
        Biome::TropicalReef => "tropical reef"@,
        Biome::RockyShallows => "rocky shallows"@,
        Biome::DeepOcean => "deep ocean"@,
        Biome::ShallowOcean => "shallow ocean"@,
        Biome::Barren => "barren"@,
        Biome::SandSea => "eolian sand"@,
        Biome::IceSheet => "ice sheet"@,
        Biome::BoilingSea => "hydrothermal sea"@,
        Biome::Moonscape => "regolith"@,
        Biome::MagmaSea => "lava sea"@,
        Biome::CryogenSea => "cryogen sea"@,
        Biome::GasGiant => "gas giant"@,
        Biome::Star => "star"@,
        Biome::NeutronStar => "neutron star"@,
        Biome::EventHorizon => "event horizon"@,
        Biome::Farmland => "farmland"@,
        Biome::Urban => "urban"@,
        Biome::Ruins => "ruins"@,
        Biome::PollutedWasteland => "industrial barrens"@,
        Biome::PollutedWastewater => "hypoxic water"@,
        Biome::Bioluminescent => "bioluminescent flora"@,
        Biome::Dead => "dead land"@,
        Biome::MagicGarden => "magic garden"@,
        Biome::ElementalChaos => "elemental chaos"@,
        Biome::Ooze => "giant slime"@,
    }
}

/// The unicode glyph symbolizing each biome (not unique per biome).
pub open spec fn icon_of(b: Biome) -> Seq<char> {
    match b {
        Biome::Unknown => "?"@,
        Biome::Wetland => "w"@,
        Biome::Jungle => "T"@,
        Biome::SeasonalForest => "t"@,
        Biome::NeedleleafForest => "^"@,
        Biome::Grassland => "\""@,
        Biome::DesertShrubland => "'"@,
        Biome::Tundra => "="@,
        Biome::Freshwater => "~"@,
        Biome::SeaForest => "~"@,
        Biome::TropicalReef => "~"@,
        Biome::RockyShallows => "~"@,
        Biome::DeepOcean => "≈"@,
        Biome::ShallowOcean => "~"@,
        Biome::Barren => "."@,
        Biome::SandSea => "-"@,
        Biome::IceSheet => "*"@,
        Biome::BoilingSea => "≀"@,
        Biome::Moonscape => "_"@,
        Biome::MagmaSea => "£"@,
        Biome::CryogenSea => "¢"@,
        Biome::GasGiant => "§"@,
        Biome::Star => "☼"@,
        Biome::NeutronStar => "@"@,
        Biome::EventHorizon => "Ø"@,
        Biome::Farmland => "±"@,
        Biome::Urban => "Π"@,
        Biome::Ruins => "λ"@,
        Biome::PollutedWasteland => "☢"@,
        Biome::PollutedWastewater => "☣"@,
        Biome::Bioluminescent => "☾"@,
        Biome::Dead => "☠"@,
        Biome::MagicGarden => "☥"@,
        Biome::ElementalChaos => "☆"@,
        Biome::Ooze => "⚇"@,
    }
}

/// The RGB map color of each biome (not unique per biome).
pub open spec fn map_color_of(b: Biome) -> (u8, u8, u8) {
    match b {
        Biome::Unknown => (127u8, 127u8, 127u8),
        Biome::Wetland => (0u8, 192u8, 118u8),
        Biome::Jungle => (0u8, 192u8, 0u8),
        Biome::SeasonalForest => (78u8, 192u8, 0u8),
        Biome::NeedleleafForest => (27u8, 113u8, 68u8),
        Biome::Grassland => (184u8, 255u8, 55u8),
        Biome::DesertShrubland => (255u8, 197u8, 57u8),
        Biome::Tundra => (130u8, 221u8, 142u8),
        Biome::Freshwater => (0u8, 255u8, 255u8),
        Biome::SeaForest => (85u8, 190u8, 190u8),
        Biome::TropicalReef => (70u8, 218u8, 248u8),
        Biome::RockyShallows => (85u8, 114u8, 191u8),
        Biome::DeepOcean => (42u8, 82u8, 190u8),
        Biome::ShallowOcean => (0u8, 134u8, 176u8),
        Biome::Barren => (192u8, 162u8, 138u8),
        Biome::SandSea => (255u8, 255u8, 127u8),
        Biome::IceSheet => (255u8, 255u8, 255u8),
        Biome::BoilingSea => (125u8, 164u8, 176u8),
        Biome::Moonscape => (155u8, 155u8, 155u8),
        Biome::MagmaSea => (115u8, 0u8, 0u8),
        Biome::CryogenSea => (184u8, 236u8, 255u8),
        Biome::GasGiant => (255u8, 207u8, 161u8),
        Biome::Star => (255u8, 255u8, 177u8),
        Biome::NeutronStar => (113u8, 113u8, 78u8),
        Biome::EventHorizon => (0u8, 0u8, 0u8),
        Biome::Farmland => (122u8, 170u8, 98u8),
        Biome::Urban => (100u8, 100u8, 100u8),
        Biome::Ruins => (120u8, 134u8, 113u8),
        Biome::PollutedWasteland => (255u8, 255u8, 0u8),
        Biome::PollutedWastewater => (172u8, 255u8, 0u8),
        Biome::Bioluminescent => (46u8, 32u8, 128u8),
        Biome::Dead => (60u8, 60u8, 60u8),
        Biome::MagicGarden => (55u8, 255u8, 0u8),
        Biome::ElementalChaos => (255u8, 110u8, 244u8),
        Biome::Ooze => (136u8, 60u8, 196u8),
    }
}

/// The catalog entry of one biome: the constant data associated with the
/// enum variant.
pub struct BiomeEnumData {
    /// The 7-bit Plantabyte biome code
    pub biome_code: u8,
    /// The stable identifier string (breaking-change-sensitive)
    pub enum_name: &'static str,
    /// The lay-person's name (not breaking-change-sensitive)
    pub common_name: &'static str,
    /// The scientist's name (not breaking-change-sensitive)
    pub technical_name: &'static str,
    /// A single unicode glyph representing the biome
    pub icon: &'static str,
    /// An RGB color for drawing the biome on a map
    pub map_color: (u8, u8, u8),
}

/// For a given biome, returns the catalog entry holding the constant data
/// for that enum variant.
fn get_data(biome: &Biome) -> (r: BiomeEnumData)
    ensures
        r.biome_code == bcode_of(*biome),
        r.enum_name@ == enum_name_of(*biome),
        r.common_name@ == common_name_of(*biome),
        r.technical_name@ == technical_name_of(*biome),
        r.icon@ == icon_of(*biome),
        r.map_color == map_color_of(*biome),
{
    match *biome {
        Biome::Unknown => BiomeEnumData {
            biome_code: 0,
            enum_name: "Unknown",
            common_name: "unknown",
            technical_name: "unknown",
            icon: "?",
            map_color: (127, 127, 127),
        },
        Biome::Wetland => BiomeEnumData {
            biome_code: 1,
            enum_name: "Wetland",
            common_name: "swamp",
            technical_name: "wetland",
            icon: "w",
            map_color: (0, 192, 118),
        },
        Biome::Jungle => BiomeEnumData {
            biome_code: 2,
            enum_name: "Jungle",
            common_name: "jungle",
            technical_name: "tropical rainforest",
            icon: "T",
            map_color: (0, 192, 0),
        },
        Biome::SeasonalForest => BiomeEnumData {
            biome_code: 3,
            enum_name: "SeasonalForest",
            common_name: "deciduous forest",
            technical_name: "temperate forest",
            icon: "t",
            map_color: (78, 192, 0),
        },
        Biome::NeedleleafForest => BiomeEnumData {
            biome_code: 4,
            enum_name: "NeedleleafForest",
            common_name: "evergreen forest",
            technical_name: "needleleaf forest",
            icon: "^",
            map_color: (27, 113, 68),
        },
        Biome::Grassland => BiomeEnumData {
            biome_code: 5,
            enum_name: "Grassland",
            common_name: "grassland",
            technical_name: "grassland",
            icon: "\"",
            map_color: (184, 255, 55),
        },
        Biome::DesertShrubland => BiomeEnumData {
            biome_code: 6,
            enum_name: "DesertShrubland",
            common_name: "desert",
            technical_name: "xeric shrubland",
            icon: "'",
            map_color: (255, 197, 57),
        },
        Biome::Tundra => BiomeEnumData {
            biome_code: 7,
            enum_name: "Tundra",
            common_name: "tundra",
            technical_name: "tundra",
            icon: "=",
            map_color: (130, 221, 142),
        },
        Biome::Freshwater => BiomeEnumData {
            biome_code: 17,
            enum_name: "Freshwater",
            common_name: "freshwater",
            technical_name: "freshwater",
            icon: "~",
            map_color: (0, 255, 255),
        },
        Biome::SeaForest => BiomeEnumData {
            biome_code: 18,
            enum_name: "SeaForest",
            common_name: "seaweed forest",
            technical_name: "marine forest",
            icon: "~",
            map_color: (85, 190, 190),
        },
        Biome::TropicalReef => BiomeEnumData {
            biome_code: 19,
            enum_name: "TropicalReef",
            common_name: "coral reef",
            technical_name: "tropical reef",
            icon: "~",
            map_color: (70, 218, 248),
        },
        Biome::RockyShallows => BiomeEnumData {
            biome_code: 20,
            enum_name: "RockyShallows",
            common_name: "rocky shallows",
            technical_name: "rocky shallows",
            icon: "~",
            map_color: (85, 114, 191),
        },
        Biome::DeepOcean => BiomeEnumData {
            biome_code: 16,
            enum_name: "DeepOcean",
            common_name: "ocean",
            technical_name: "deep ocean",
            icon: "≈",
            map_color: (42, 82, 190),
        },
        Biome::ShallowOcean => BiomeEnumData {
            biome_code: 21,
            enum_name: "ShallowOcean",
            common_name: "shallow ocean",
            technical_name: "shallow ocean",
            icon: "~",
            map_color: (0, 134, 176),
        },
        Biome::Barren => BiomeEnumData {
            biome_code: 8,
            enum_name: "Barren",
            common_name: "barren",
            technical_name: "barren",
            icon: ".",
            map_color: (192, 162, 138),
        },
        Biome::SandSea => BiomeEnumData {
            biome_code: 9,
            enum_name: "SandSea",
            common_name: "sand dunes",
            technical_name: "eolian sand",
            icon: "-",
            map_color: (255, 255, 127),
        },
        Biome::IceSheet => BiomeEnumData {
            biome_code: 22,
            enum_name: "IceSheet",
            common_name: "ice sheet",
            technical_name: "ice sheet",
            icon: "*",
            map_color: (255, 255, 255),
        },
        Biome::BoilingSea => BiomeEnumData {
            biome_code: 23,
            enum_name: "BoilingSea",
            common_name: "boiling sea",
            technical_name: "hydrothermal sea",
            icon: "≀",
            map_color: (125, 164, 176),
        },
        Biome::Moonscape => BiomeEnumData {
            biome_code: 64,
            enum_name: "Moonscape",
            common_name: "moonscape",
            technical_name: "regolith",
            icon: "_",
            map_color: (155, 155, 155),
        },
        Biome::MagmaSea => BiomeEnumData {
            biome_code: 65,
            enum_name: "MagmaSea",
            common_name: "magma sea",
            technical_name: "lava sea",
            icon: "£",
            map_color: (115, 0, 0),
        },
        Biome::CryogenSea => BiomeEnumData {
            biome_code: 66,
            enum_name: "CryogenSea",
            common_name: "cryogen sea",
            technical_name: "cryogen sea",
            icon: "¢",
            map_color: (184, 236, 255),
        },
        Biome::GasGiant => BiomeEnumData {
            biome_code: 67,
            enum_name: "GasGiant",
            common_name: "gas giant",
            technical_name: "gas giant",
            icon: "§",
            map_color: (255, 207, 161),
        },
        Biome::Star => BiomeEnumData {
            biome_code: 68,
            enum_name: "Star",
            common_name: "star",
            technical_name: "star",
            icon: "☼",
            map_color: (255, 255, 177),
        },
        Biome::NeutronStar => BiomeEnumData {
            biome_code: 69,
            enum_name: "NeutronStar",
            common_name: "neutron star",
            technical_name: "neutron star",
            icon: "@",
            map_color: (113, 113, 78),
        },
        Biome::EventHorizon => BiomeEnumData {
            biome_code: 70,
            enum_name: "EventHorizon",
            common_name: "black hole",
            technical_name: "event horizon",
            icon: "Ø",
            map_color: (0, 0, 0),
        },
        Biome::Farmland => BiomeEnumData {
            biome_code: 32,
            enum_name: "Farmland",
            common_name: "farmland",
            technical_name: "farmland",
            icon: "±",
            map_color: (122, 170, 98),
        },
        Biome::Urban => BiomeEnumData {
            biome_code: 33,
            enum_name: "Urban",
            common_name: "urban",
            technical_name: "urban",
            icon: "Π",
            map_color: (100, 100, 100),
        },
        Biome::Ruins => BiomeEnumData {
            biome_code: 34,
            enum_name: "Ruins",
            common_name: "ruins",
            technical_name: "ruins",
            icon: "λ",
            map_color: (120, 134, 113),
        },
        Biome::PollutedWasteland => BiomeEnumData {
            biome_code: 35,
            enum_name: "PollutedWasteland",
            common_name: "toxic wasteland",
            technical_name: "industrial barrens",
            icon: "☢",
            map_color: (255, 255, 0),
        },
        Biome::PollutedWastewater => BiomeEnumData {
            biome_code: 36,
            enum_name: "PollutedWastewater",
            common_name: "toxic water",
            technical_name: "hypoxic water",
            icon: "☣",
            map_color: (172, 255, 0),
        },
        Biome::Bioluminescent => BiomeEnumData {
            biome_code: 112,
            enum_name: "Bioluminescent",
            common_name: "permanent night",
            technical_name: "bioluminescent flora",
            icon: "☾",
            map_color: (46, 32, 128),
        },
        Biome::Dead => BiomeEnumData {
            biome_code: 113,
            enum_name: "Dead",
            common_name: "dead land",
            technical_name: "dead land",
            icon: "☠",
            map_color: (60, 60, 60),
        },
        Biome::MagicGarden => BiomeEnumData {
            biome_code: 114,
            enum_name: "MagicGarden",
            common_name: "magic garden",
            technical_name: "magic garden",
            icon: "☥",
            map_color: (55, 255, 0),
        },
        Biome::ElementalChaos => BiomeEnumData {
            biome_code: 115,
            enum_name: "ElementalChaos",
            common_name: "elemental chaos",
            technical_name: "elemental chaos",
            icon: "☆",
            map_color: (255, 110, 244),
        },
        Biome::Ooze => BiomeEnumData {
            biome_code: 116,
            enum_name: "Ooze",
            common_name: "ooze",
            technical_name: "giant slime",
            icon: "⚇",
            map_color: (136, 60, 196),
        },
    }
}

impl Biome {
    /// Returns the Plantabyte biome enum name for this biome (intended
    /// for debugging). For user-facing apps, either use this as the key
    /// for i18n localization or use `common_name()` or `technical_name()`
    /// instead.
    pub fn name(&self) -> (r: &'static str)
        ensures
            r@ == enum_name_of(*self),
    {
        get_data(self).enum_name
    }

    /// Returns the US English name of this biome for a non-scientist
    /// audience
    pub fn common_name(&self) -> (r: &'static str)
        ensures
            r@ == common_name_of(*self),
    {
        get_data(self).common_name
    }

    /// Returns the US English name of this biome for a scientist audience
    pub fn technical_name(&self) -> (r: &'static str)
        ensures
            r@ == technical_name_of(*self),
    {
        get_data(self).technical_name
    }

    /// Returns a unicode glyph to use as a symbol to represent this biome
    /// (not guaranteed to be unique to each biome)
    pub fn icon(&self) -> (r: &'static str)
        ensures
            r@ == icon_of(*self),
    {
        get_data(self).icon
    }

    /// Returns an RGB tuple for use in colorizing a map (map colors not
    /// guaranteed to be unique to each biome)
    pub fn map_color(&self) -> (r: (u8, u8, u8))
        ensures
            r == map_color_of(*self),
    {
        get_data(self).map_color
    }
}

impl From<u8> for Biome {
    /// Converts from Plantabyte biome code (as u8) to the corresponding
    /// Biome enum; unrecognized codes give `Unknown`
    fn from(bcode: u8) -> (r: Biome) {
        match bcode {
            0u8 => Biome::Unknown,
            1u8 => Biome::Wetland,
            2u8 => Biome::Jungle,
            3u8 => Biome::SeasonalForest,
            4u8 => Biome::NeedleleafForest,
            5u8 => Biome::Grassland,
            6u8 => Biome::DesertShrubland,
            7u8 => Biome::Tundra,
            8u8 => Biome::Barren,
            9u8 => Biome::SandSea,
            16u8 => Biome::DeepOcean,
            17u8 => Biome::Freshwater,
            18u8 => Biome::SeaForest,
            19u8 => Biome::TropicalReef,
            20u8 => Biome::RockyShallows,
            21u8 => Biome::ShallowOcean,
            22u8 => Biome::IceSheet,
            23u8 => Biome::BoilingSea,
            32u8 => Biome::Farmland,
            33u8 => Biome::Urban,
            34u8 => Biome::Ruins,
            35u8 => Biome::PollutedWasteland,
            36u8 => Biome::PollutedWastewater,
            64u8 => Biome::Moonscape,
            65u8 => Biome::MagmaSea,
            66u8 => Biome::CryogenSea,
            67u8 => Biome::GasGiant,
            68u8 => Biome::Star,
            69u8 => Biome::NeutronStar,
            70u8 => Biome::EventHorizon,
            112u8 => Biome::Bioluminescent,
            113u8 => Biome::Dead,
            114u8 => Biome::MagicGarden,
            115u8 => Biome::ElementalChaos,
            116u8 => Biome::Ooze,
            _ => Biome::Unknown,
        }
    }
}

impl vstd::std_specs::convert::FromSpecImpl<u8> for Biome {
    open spec fn obeys_from_spec() -> bool {
        true
    }

    open spec fn from_spec(v: u8) -> Biome {
        biome_of_bcode(v)
    }
}

impl From<u16> for Biome {
    /// Converts from Plantabyte biome code (as u16) to the corresponding
    /// Biome enum; out-of-range or unrecognized codes give `Unknown`
    fn from(bcode: u16) -> (r: Biome) {
        if bcode < 256 {
            Biome::from(bcode as u8)
        } else {
            Biome::Unknown
        }
    }
}

impl vstd::std_specs::convert::FromSpecImpl<u16> for Biome {
    open spec fn obeys_from_spec() -> bool {
        true
    }

    open spec fn from_spec(v: u16) -> Biome {
        if v < 256 {
            biome_of_bcode(v as u8)
        } else {
            Biome::Unknown
        }
    }
}

impl From<u32> for Biome {
    /// Converts from Plantabyte biome code (as u32) to the corresponding
    /// Biome enum; out-of-range or unrecognized codes give `Unknown`
    fn from(bcode: u32) -> (r: Biome) {
        if bcode < 256 {
            Biome::from(bcode as u8)
        } else {
            Biome::Unknown
        }
    }
}

impl vstd::std_specs::convert::FromSpecImpl<u32> for Biome {
    open spec fn obeys_from_spec() -> bool {
        true
    }

    open spec fn from_spec(v: u32) -> Biome {
        if v < 256 {
            biome_of_bcode(v as u8)
        } else {
            Biome::Unknown
        }
    }
}

impl From<u64> for Biome {
    /// Converts from Plantabyte biome code (as u64) to the corresponding
    /// Biome enum; out-of-range or unrecognized codes give `Unknown`
    fn from(bcode: u64) -> (r: Biome) {
        if bcode < 256 {
            Biome::from(bcode as u8)
        } else {
            Biome::Unknown
        }
    }
}

impl vstd::std_specs::convert::FromSpecImpl<u64> for Biome {
    open spec fn obeys_from_spec() -> bool {
        true
    }

    open spec fn from_spec(v: u64) -> Biome {
        if v < 256 {
            biome_of_bcode(v as u8)
        } else {
            Biome::Unknown
        }
    }
}

impl From<i16> for Biome {
    /// Converts from Plantabyte biome code (as i16) to the corresponding
    /// Biome enum; non-positive, out-of-range or unrecognized codes give
    /// `Unknown`
    fn from(bcode: i16) -> (r: Biome) {
        if bcode > 0 && bcode < 256 {
            Biome::from(bcode as u8)
        } else {
            Biome::Unknown
        }
    }
}

impl vstd::std_specs::convert::FromSpecImpl<i16> for Biome {
    open spec fn obeys_from_spec() -> bool {
        true
    }

    open spec fn from_spec(v: i16) -> Biome {
        if 0 < v < 256 {
            biome_of_bcode(v as u8)
        } else {
            Biome::Unknown
        }
    }
}

impl From<i32> for Biome {
    /// Converts from Plantabyte biome code (as i32) to the corresponding
    /// Biome enum; non-positive, out-of-range or unrecognized codes give
    /// `Unknown`
    fn from(bcode: i32) -> (r: Biome) {
        if bcode > 0 && bcode < 256 {
            Biome::from(bcode as u8)
        } else {
            Biome::Unknown
        }
    }
}

impl vstd::std_specs::convert::FromSpecImpl<i32> for Biome {
    open spec fn obeys_from_spec() -> bool {
        true
    }

    open spec fn from_spec(v: i32) -> Biome {
        if 0 < v < 256 {
            biome_of_bcode(v as u8)
        } else {
            Biome::Unknown
        }
    }
}

impl From<i64> for Biome {
    /// Converts from Plantabyte biome code (as i64) to the corresponding
    /// Biome enum; non-positive, out-of-range or unrecognized codes give
    /// `Unknown`
    fn from(bcode: i64) -> (r: Biome) {
        if bcode > 0 && bcode < 256 {
            Biome::from(bcode as u8)
        } else {
            Biome::Unknown
        }
    }
}

impl vstd::std_specs::convert::FromSpecImpl<i64> for Biome {
    open spec fn obeys_from_spec() -> bool {
        true
    }

    open spec fn from_spec(v: i64) -> Biome {
        if 0 < v < 256 {
            biome_of_bcode(v as u8)
        } else {
            Biome::Unknown
        }
    }
}

impl From<&Biome> for u8 {
    /// Converts from a Biome enum reference to the corresponding
    /// Plantabyte biome code
    fn from(b: &Biome) -> (r: u8) {
        b.bcode()
    }
}

impl vstd::std_specs::convert::FromSpecImpl<&Biome> for u8 {
    open spec fn obeys_from_spec() -> bool {
        true
    }

    open spec fn from_spec(v: &Biome) -> u8 {
        bcode_of(*v)
    }
}

impl From<Biome> for u8 {
    /// Converts from Biome enum to the corresponding Plantabyte biome code
    fn from(b: Biome) -> (r: u8) {
        b.bcode()
    }
}

impl vstd::std_specs::convert::FromSpecImpl<Biome> for u8 {
    open spec fn obeys_from_spec() -> bool {
        true
    }

    open spec fn from_spec(v: Biome) -> u8 {
        bcode_of(v)
    }
}

/// The catalog order lists every biome exactly once: entries at different
/// positions are different biomes.
pub proof fn lemma_all_biomes_distinct(i: int, j: int)
    requires
        0 <= i < all_biomes().len(),
        0 <= j < all_biomes().len(),
        i != j,
    ensures
        all_biomes()[i] != all_biomes()[j],
{
}

/// The catalog order is complete: every biome appears in it.
pub proof fn lemma_all_biomes_complete(b: Biome)
    ensures
        all_biomes().contains(b),
{
    match b {
        Biome::Unknown => assert(all_biomes()[0] == Biome::Unknown),
        Biome::Wetland => assert(all_biomes()[1] == Biome::Wetland),
        Biome::Jungle => assert(all_biomes()[2] == Biome::Jungle),
        Biome::SeasonalForest => assert(all_biomes()[3] == Biome::SeasonalForest),
        Biome::NeedleleafForest => assert(all_biomes()[4] == Biome::NeedleleafForest),
        Biome::Grassland => assert(all_biomes()[5] == Biome::Grassland),
        Biome::DesertShrubland => assert(all_biomes()[6] == Biome::DesertShrubland),
        Biome::Tundra => assert(all_biomes()[7] == Biome::Tundra),
        Biome::Freshwater => assert(all_biomes()[8] == Biome::Freshwater),
        Biome::SeaForest => assert(all_biomes()[9] == Biome::SeaForest),
        Biome::TropicalReef => assert(all_biomes()[10] == Biome::TropicalReef),
        Biome::RockyShallows => assert(all_biomes()[11] == Biome::RockyShallows),
        Biome::DeepOcean => assert(all_biomes()[12] == Biome::DeepOcean),
        Biome::ShallowOcean => assert(all_biomes()[13] == Biome::ShallowOcean),
        Biome::Barren => assert(all_biomes()[14] == Biome::Barren),
        Biome::SandSea => assert(all_biomes()[15] == Biome::SandSea),
        Biome::IceSheet => assert(all_biomes()[16] == Biome::IceSheet),
        Biome::BoilingSea => assert(all_biomes()[17] == Biome::BoilingSea),
        Biome::Moonscape => assert(all_biomes()[18] == Biome::Moonscape),
        Biome::MagmaSea => assert(all_biomes()[19] == Biome::MagmaSea),
        Biome::CryogenSea => assert(all_biomes()[20] == Biome::CryogenSea),
        Biome::GasGiant => assert(all_biomes()[21] == Biome::GasGiant),
        Biome::Star => assert(all_biomes()[22] == Biome::Star),
        Biome::NeutronStar => assert(all_biomes()[23] == Biome::NeutronStar),
        Biome::EventHorizon => assert(all_biomes()[24] == Biome::EventHorizon),
        Biome::Farmland => assert(all_biomes()[25] == Biome::Farmland),
        Biome::Urban => assert(all_biomes()[26] == Biome::Urban),
        Biome::Ruins => assert(all_biomes()[27] == Biome::Ruins),
        Biome::PollutedWasteland => assert(all_biomes()[28] == Biome::PollutedWasteland),
        Biome::PollutedWastewater => assert(all_biomes()[29] == Biome::PollutedWastewater),
        Biome::Bioluminescent => assert(all_biomes()[30] == Biome::Bioluminescent),
        Biome::Dead => assert(all_biomes()[31] == Biome::Dead),
        Biome::MagicGarden => assert(all_biomes()[32] == Biome::MagicGarden),
        Biome::ElementalChaos => assert(all_biomes()[33] == Biome::ElementalChaos),
        Biome::Ooze => assert(all_biomes()[34] == Biome::Ooze),
    }
}

/// Encoding then decoding is the identity on every biome, and decoding
/// always returns a biome whose code round-trips (the code of the decoded
/// biome re-decodes to the same biome).
pub proof fn lemma_bcode_round_trip(b: Biome)
    ensures
        biome_of_bcode(bcode_of(b)) == b,
        bcode_of(biome_of_bcode(bcode_of(b))) == bcode_of(b),
{
}

/// Any byte that decodes to a known biome is exactly that biome's code;
/// every other byte decodes to `Unknown`.
pub proof fn lemma_decode_total(code: u8)
    ensures
        biome_of_bcode(code) == Biome::Unknown || bcode_of(biome_of_bcode(code)) == code,
{
}

/// Whether some biome other than `Unknown` carries this code.
pub open spec fn is_known_bcode(code: u8) -> bool {
    exists|b: Biome| b != Biome::Unknown && bcode_of(b) == code
}

/// Every byte that is not among the 35 known codes decodes to `Unknown`.
pub proof fn lemma_unknown_codes_decode_to_unknown(code: u8)
    requires
        !is_known_bcode(code),
    ensures
        biome_of_bcode(code) == Biome::Unknown,
{
    if biome_of_bcode(code) != Biome::Unknown {
        let b = biome_of_bcode(code);
        lemma_decode_total(code);
        assert(b != Biome::Unknown && bcode_of(b) == code);
        assert(is_known_bcode(code));
    }
}

/// Every biome code is a 7-bit value: three category bits and four index
/// bits under a clear top bit.
pub proof fn lemma_bcode_is_7_bit(b: Biome)
    ensures
        bcode_of(b) < 128,
{
}

/// The code mapping is injective: two biomes with the same code are the
/// same biome.
pub proof fn lemma_bcode_unique(a: Biome, b: Biome)
    requires
        bcode_of(a) == bcode_of(b),
    ensures
        a == b,
{
    lemma_bcode_round_trip(a);
    lemma_bcode_round_trip(b);
}

} // verus!
