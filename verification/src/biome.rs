//! Biome classification: maps a blended noise sample to exactly one terrain
//! category, and fixes each category's tile texture, z-order, water flag and
//! decoration tuning. Samples are carried in ten-thousandths, so a sample of
//! `3100` stands for a noise value of `0.31`.

use vstd::prelude::*;

verus! {

/// Lower end of the normal-water band (`0.23`), in ten-thousandths.
pub const NORMAL_WATER_LO: i64 = 2_300;

/// Boundary between normal and deep water (`0.31`), in ten-thousandths.
pub const DEEP_WATER_LO: i64 = 3_100;

/// Boundary between deep water and sand (`0.36`), in ten-thousandths.
pub const SAND_LO: i64 = 3_600;

/// Boundary between sand and low grass (`0.50`), in ten-thousandths.
pub const GRASS_LOW_LO: i64 = 5_000;

/// Boundary between the two grass bands (`0.64`), in ten-thousandths.
pub const GRASS_HIGH_LO: i64 = 6_400;

/// Terrain category of one grid cell. The two grass bands render the same
/// tile and are kept apart only so that decoration density can be tuned per
/// band.
#[derive(Clone, Copy, PartialEq, Eq, Structural, Debug)]
pub enum BiomeCategory {
    Base,
    NormalWater,
    DeepWater,
    Sand,
    GrassLow,
    GrassHigh,
}

/// Water animation family of a tile; `Dry` for land tiles.
#[derive(Clone, Copy, PartialEq, Eq, Structural, Debug)]
pub enum WaterVariant {
    Dry,
    Normal,
    Deep,
}

/// The deep-water band `[0.31, 0.36)`.
pub open spec fn in_deep_water_range(s: int) -> bool {
    DEEP_WATER_LO <= s < SAND_LO
}

/// The normal-water band `[0.23, 0.31)`.
pub open spec fn in_normal_water_range(s: int) -> bool {
    NORMAL_WATER_LO <= s < DEEP_WATER_LO
}

/// The sand band `[0.36, 0.50)`.
pub open spec fn in_sand_range(s: int) -> bool {
    SAND_LO <= s < GRASS_LOW_LO
}

/// The lower grass band `[0.50, 0.64)`.
pub open spec fn in_grass_low_range(s: int) -> bool {
    GRASS_LOW_LO <= s < GRASS_HIGH_LO
}

/// The upper grass band `[0.64, +inf)`.
pub open spec fn in_grass_high_range(s: int) -> bool {
    s >= GRASS_HIGH_LO
}

/// The base band `(-inf, 0.23)`.
pub open spec fn in_base_range(s: int) -> bool {
    s < NORMAL_WATER_LO
}

/// The category whose band holds the sample.
pub open spec fn classify_spec(s: int) -> BiomeCategory {
    if in_deep_water_range(s) {
        BiomeCategory::DeepWater
    } else if in_normal_water_range(s) {
        BiomeCategory::NormalWater
    } else if in_sand_range(s) {
        BiomeCategory::Sand
    } else if in_grass_low_range(s) {
        BiomeCategory::GrassLow
    } else if in_grass_high_range(s) {
        BiomeCategory::GrassHigh
    } else {
        BiomeCategory::Base
    }
}

/// Classifies a blended noise sample (in ten-thousandths) into its terrain
/// category.
pub fn classify(sample: i64) -> (c: BiomeCategory)
    ensures
        c == classify_spec(sample as int),
{
    if sample >= DEEP_WATER_LO && sample < SAND_LO {
        BiomeCategory::DeepWater
    } else if sample >= NORMAL_WATER_LO && sample < DEEP_WATER_LO {
        BiomeCategory::NormalWater
    } else if sample >= SAND_LO && sample < GRASS_LOW_LO {
        BiomeCategory::Sand
    } else if sample >= GRASS_LOW_LO && sample < GRASS_HIGH_LO {
        BiomeCategory::GrassLow
    } else if sample >= GRASS_HIGH_LO {
        BiomeCategory::GrassHigh
    } else {
        BiomeCategory::Base
    }
}

/// The six bands partition the whole sample line: every sample falls in at
/// least one band, and the classifier picks a category exactly when the
/// sample lies in that category's band — so no sample matches two bands.
pub proof fn lemma_classification_partition(s: int)
    ensures
        in_deep_water_range(s) || in_normal_water_range(s) || in_sand_range(s) || in_grass_low_range(
            s,
        ) || in_grass_high_range(s) || in_base_range(s),
        classify_spec(s) == BiomeCategory::DeepWater <==> in_deep_water_range(s),
        classify_spec(s) == BiomeCategory::NormalWater <==> in_normal_water_range(s),
        classify_spec(s) == BiomeCategory::Sand <==> in_sand_range(s),
        classify_spec(s) == BiomeCategory::GrassLow <==> in_grass_low_range(s),
        classify_spec(s) == BiomeCategory::GrassHigh <==> in_grass_high_range(s),
        classify_spec(s) == BiomeCategory::Base <==> in_base_range(s),
{
}

/// Index of the category's tile in the terrain (or water) atlas.
pub open spec fn tile_texture_spec(c: BiomeCategory) -> u32 {
    match c {
        BiomeCategory::DeepWater => 0,
        BiomeCategory::NormalWater => 4,
        BiomeCategory::Sand => 1,
        BiomeCategory::GrassLow => 2,
        BiomeCategory::GrassHigh => 2,
        BiomeCategory::Base => 0,
    }
}

/// Whether the category is one of the two water bands.
pub open spec fn is_water_spec(c: BiomeCategory) -> bool {
    c == BiomeCategory::DeepWater || c == BiomeCategory::NormalWater
}

/// Water animation family of the category.
pub open spec fn water_variant_spec(c: BiomeCategory) -> WaterVariant {
    match c {
        BiomeCategory::DeepWater => WaterVariant::Deep,
        BiomeCategory::NormalWater => WaterVariant::Normal,
        _ => WaterVariant::Dry,
    }
}

/// Threshold a uniform draw in `[0, 10000)` must exceed for the cell to get a
/// decoration: the base band decorates at three in ten, every other band at
/// two in ten.
pub open spec fn deco_threshold_spec(c: BiomeCategory) -> u32 {
    if c == BiomeCategory::Base {
        7_000
    } else {
        8_000
    }
}

/// First decoration variant available to the category.
pub open spec fn deco_variant_lo_spec(c: BiomeCategory) -> u32 {
    match c {
        BiomeCategory::DeepWater => 0,
        BiomeCategory::NormalWater => 0,
        BiomeCategory::Sand => 4,
        BiomeCategory::Base => 4,
        BiomeCategory::GrassLow => 14,
        BiomeCategory::GrassHigh => 14,
    }
}

/// Number of decoration variants available to the category: water cells draw
/// from `{0, 1, 2}`, sand and base from `{4, ..., 13}`, grass from `{14, 15}`.
pub open spec fn deco_variant_span_spec(c: BiomeCategory) -> u32 {
    match c {
        BiomeCategory::DeepWater => 3,
        BiomeCategory::NormalWater => 3,
        BiomeCategory::Sand => 10,
        BiomeCategory::Base => 10,
        BiomeCategory::GrassLow => 2,
        BiomeCategory::GrassHigh => 2,
    }
}

/// Runtime view of `deco_threshold_spec`.
pub fn deco_threshold(c: BiomeCategory) -> (t: u32)
    ensures
        t == deco_threshold_spec(c),
{
    match c {
        BiomeCategory::Base => 7_000,
        _ => 8_000,
    }
}

/// Runtime view of `deco_variant_lo_spec`.
pub fn deco_variant_lo(c: BiomeCategory) -> (lo: u32)
    ensures
        lo == deco_variant_lo_spec(c),
{
    match c {
        BiomeCategory::DeepWater => 0,
        BiomeCategory::NormalWater => 0,
        BiomeCategory::Sand => 4,
        BiomeCategory::Base => 4,
        BiomeCategory::GrassLow => 14,
        BiomeCategory::GrassHigh => 14,
    }
}

/// Runtime view of `deco_variant_span_spec`.
pub fn deco_variant_span(c: BiomeCategory) -> (span: u32)
    ensures
        span == deco_variant_span_spec(c),
{
    match c {
        BiomeCategory::DeepWater => 3,
        BiomeCategory::NormalWater => 3,
        BiomeCategory::Sand => 10,
        BiomeCategory::Base => 10,
        BiomeCategory::GrassLow => 2,
        BiomeCategory::GrassHigh => 2,
    }
}

/// Next animation frame of a water tile: normal water cycles through frames
/// `0..4`, deep water through `4..8`, and land tiles do not animate.
pub open spec fn water_frame_spec(v: WaterVariant, index: int) -> int {
    match v {
        WaterVariant::Normal => (index + 1) % 4,
        WaterVariant::Deep => (index + 1) % 4 + 4,
        WaterVariant::Dry => index,
    }
}

/// Advances a water tile's texture index by one animation step.
pub fn advance_water_frame(v: WaterVariant, index: u32) -> (next: u32)
    ensures
        next == water_frame_spec(v, index as int),
{
    match v {
        WaterVariant::Normal => (index % 4 + 1) % 4,
        WaterVariant::Deep => (index % 4 + 1) % 4 + 4,
        WaterVariant::Dry => index,
    }
}

} // verus!
