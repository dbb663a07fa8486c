//! World generation: walks the grid in row-major order, classifies each
//! cell's blended noise sample, emits exactly one tile per cell, and rolls a
//! seed-determined decoration chance per cell. The whole output is a function
//! of the samples, the extents and the seed, so a fixed seed reproduces the
//! world byte for byte.
//!
//! The row-major walk reaches every cell exactly once by construction
//! (`lemma_cell_coverage` proves it), so no visited-set guards the loop; a
//! reimplementation with non-sequential iteration would need one back.

use vstd::prelude::*;

use crate::biome::{
    classify, classify_spec, deco_threshold, deco_threshold_spec, deco_variant_lo,
    deco_variant_lo_spec, deco_variant_span, deco_variant_span_spec, is_water_spec,
    tile_texture_spec, water_variant_spec, BiomeCategory, WaterVariant,
};
use crate::rng::{lcg_draw_spec, lcg_next_spec, SimRng};

verus! {

/// Resolution of a decoration roll: a draw in `[0, 10000)` stands for a
/// uniform value in `[0, 1)` at four decimal places.
pub const ROLL_SPAN: u32 = 10_000;

/// A grid coordinate: `row` in `[0, rows)`, `col` in `[0, cols)`.
#[derive(Clone, Copy, PartialEq, Eq, Structural, Debug)]
pub struct GridCell {
    pub row: usize,
    pub col: usize,
}

/// One terrain tile, placed at exactly one grid cell.
#[derive(Clone, Copy, PartialEq, Eq, Structural, Debug)]
pub struct Tile {
    pub position: GridCell,
    pub category: BiomeCategory,
    pub texture_index: u32,
    pub layer: i32,
    pub is_water: bool,
    pub water_variant: WaterVariant,
}

/// One decoration, sharing its cell with the tile there but drawn above it.
#[derive(Clone, Copy, PartialEq, Eq, Structural, Debug)]
pub struct Decoration {
    pub position: GridCell,
    pub variant_index: u32,
    pub layer: i32,
}

/// The cell that flat row-major index `i` stands for.
pub open spec fn cell_of(i: int, cols: int) -> GridCell {
    GridCell { row: (i / cols) as usize, col: (i % cols) as usize }
}

/// The tile the generator owes to flat index `i`.
pub open spec fn tile_spec(samples: Seq<i64>, cols: int, i: int) -> Tile {
    let c = classify_spec(samples[i] as int);
    Tile {
        position: cell_of(i, cols),
        category: c,
        texture_index: tile_texture_spec(c),
        layer: -1i32,
        is_water: is_water_spec(c),
        water_variant: water_variant_spec(c),
    }
}

/// Whether the cell whose roll starts at generator state `s` gets a
/// decoration.
pub open spec fn cell_decorated(s: u64, c: BiomeCategory) -> bool {
    lcg_draw_spec(s, ROLL_SPAN) > deco_threshold_spec(c)
}

/// The decoration variant drawn for such a cell (the draw after the roll).
pub open spec fn cell_variant(s: u64, c: BiomeCategory) -> u32 {
    (deco_variant_lo_spec(c) + lcg_draw_spec(lcg_next_spec(s), deco_variant_span_spec(c))) as u32
}

/// Generator state left behind after one cell: one advance for the roll, and
/// one more when the roll granted a decoration.
pub open spec fn cell_rng_after(s: u64, c: BiomeCategory) -> u64 {
    if cell_decorated(s, c) {
        lcg_next_spec(lcg_next_spec(s))
    } else {
        lcg_next_spec(s)
    }
}

/// Decorations emitted from flat index `i` to the end of the grid, starting
/// from generator state `s`.
pub open spec fn decos_from(samples: Seq<i64>, cols: int, i: int, s: u64) -> Seq<Decoration>
    decreases samples.len() - i,
{
    if i < 0 || i >= samples.len() {
        Seq::empty()
    } else {
        let c = classify_spec(samples[i] as int);
        let rest = decos_from(samples, cols, i + 1, cell_rng_after(s, c));
        if cell_decorated(s, c) {
            seq![
                Decoration { position: cell_of(i, cols), variant_index: cell_variant(s, c), layer: 0 },
            ] + rest
        } else {
            rest
        }
    }
}

/// Generation is deterministic: any two results that satisfy
/// `generate_world`'s contract for the same samples, extents and seed are
/// equal, tile for tile and decoration for decoration. A fixed seed and
/// fixed extents therefore reproduce the world byte for byte across
/// invocations.
pub proof fn lemma_world_deterministic(
    samples: Seq<i64>,
    cols: int,
    seed: u64,
    first: (Seq<Tile>, Seq<Decoration>),
    second: (Seq<Tile>, Seq<Decoration>),
)
    requires
        first.0.len() == samples.len(),
        forall|i: int| 0 <= i < samples.len() ==> first.0[i] == tile_spec(samples, cols, i),
        first.1 == decos_from(samples, cols, 0, seed),
        second.0.len() == samples.len(),
        forall|i: int| 0 <= i < samples.len() ==> second.0[i] == tile_spec(samples, cols, i),
        second.1 == decos_from(samples, cols, 0, seed),
    ensures
        first.0 == second.0,
        first.1 == second.1,
{
    assert(first.0 =~= second.0);
}

/// Every grid cell of the extents is covered by exactly one flat index:
/// distinct indices name distinct cells, each index lands inside the extents,
/// and every cell of the extents is named by an index. With
/// `generate_world`'s postcondition this puts every `GridCell` of
/// `[0, rows) x [0, cols)` in exactly one tile record.
pub proof fn lemma_cell_coverage(rows: int, cols: int)
    requires
        0 <= rows,
        0 <= cols,
        rows * cols <= usize::MAX,
    ensures
        forall|i: int, j: int|
            0 <= i < rows * cols && 0 <= j < rows * cols && i != j ==> cell_of(i, cols)
                != cell_of(j, cols),
        forall|i: int|
            0 <= i < rows * cols ==> (#[trigger] cell_of(i, cols)).row < rows && cell_of(
                i,
                cols,
            ).col < cols,
        forall|r: int, c: int|
            0 <= r < rows && 0 <= c < cols ==> 0 <= #[trigger] (r * cols + c) < rows * cols
                && cell_of(r * cols + c, cols) == (GridCell { row: r as usize, col: c as usize }),
{
    assert forall|i: int| 0 <= i < rows * cols implies (#[trigger] cell_of(i, cols)).row < rows
        && cell_of(i, cols).col < cols by {
        if cols == 0 {
            assert(rows * cols == 0);
        } else {
            vstd::arithmetic::mul::lemma_mul_is_commutative(rows, cols);
            vstd::arithmetic::div_mod::lemma_multiply_divide_lt(i, cols, rows);
            vstd::arithmetic::div_mod::lemma_remainder_upper(i, cols);
            vstd::arithmetic::div_mod::lemma_remainder_lower(i, cols);
            vstd::arithmetic::div_mod::lemma_div_pos_is_pos(i, cols);
            assert(0 <= i / cols < rows);
            assert(0 <= i % cols < cols);
        }
    }
    assert forall|i: int, j: int|
        0 <= i < rows * cols && 0 <= j < rows * cols && i != j implies cell_of(i, cols)
        != cell_of(j, cols) by {
        if cols == 0 {
            assert(rows * cols == 0);
        } else {
            vstd::arithmetic::mul::lemma_mul_is_commutative(rows, cols);
            vstd::arithmetic::div_mod::lemma_fundamental_div_mod(i, cols);
            vstd::arithmetic::div_mod::lemma_fundamental_div_mod(j, cols);
            vstd::arithmetic::div_mod::lemma_remainder_upper(i, cols);
            vstd::arithmetic::div_mod::lemma_remainder_lower(i, cols);
            vstd::arithmetic::div_mod::lemma_remainder_upper(j, cols);
            vstd::arithmetic::div_mod::lemma_remainder_lower(j, cols);
            vstd::arithmetic::div_mod::lemma_div_pos_is_pos(i, cols);
            vstd::arithmetic::div_mod::lemma_div_pos_is_pos(j, cols);
            vstd::arithmetic::div_mod::lemma_multiply_divide_lt(i, cols, rows);
            vstd::arithmetic::div_mod::lemma_multiply_divide_lt(j, cols, rows);
            if i / cols == j / cols && i % cols == j % cols {
                assert(i == cols * (i / cols) + i % cols);
                assert(j == cols * (j / cols) + j % cols);
                assert(i == j);
            }
        }
    }
    assert forall|r: int, c: int| 0 <= r < rows && 0 <= c < cols implies 0 <= #[trigger] (r * cols
        + c) < rows * cols && cell_of(r * cols + c, cols) == (GridCell {
        row: r as usize,
        col: c as usize,
    }) by {
        vstd::arithmetic::mul::lemma_mul_inequality(r, rows - 1, cols);
        assert(r * cols <= (rows - 1) * cols);
        assert((rows - 1) * cols == rows * cols - cols) by (nonlinear_arith);
        vstd::arithmetic::mul::lemma_mul_nonnegative(r, cols);
        assert(0 <= r * cols + c < rows * cols);
        vstd::arithmetic::div_mod::lemma_fundamental_div_mod_converse_div(r * cols + c, cols, r, c);
        vstd::arithmetic::div_mod::lemma_fundamental_div_mod_converse_mod(r * cols + c, cols, r, c);
        assert((r * cols + c) / cols == r);
        assert((r * cols + c) % cols == c);
    }
}

/// Builds the tile a category owes to a cell: terrain sits at z-order `-1`,
/// water tiles carry their animation family.
fn make_tile(row: usize, col: usize, c: BiomeCategory) -> (t: Tile)
    ensures
        t == (Tile {
            position: GridCell { row, col },
            category: c,
            texture_index: tile_texture_spec(c),
            layer: -1i32,
            is_water: is_water_spec(c),
            water_variant: water_variant_spec(c),
        }),
{
    let texture_index: u32 = match c {
        BiomeCategory::DeepWater => 0,
        BiomeCategory::NormalWater => 4,
        BiomeCategory::Sand => 1,
        BiomeCategory::GrassLow => 2,
        BiomeCategory::GrassHigh => 2,
        BiomeCategory::Base => 0,
    };
    let is_water: bool = match c {
        BiomeCategory::DeepWater => true,
        BiomeCategory::NormalWater => true,
        _ => false,
    };
    let water_variant: WaterVariant = match c {
        BiomeCategory::DeepWater => WaterVariant::Deep,
        BiomeCategory::NormalWater => WaterVariant::Normal,
        _ => WaterVariant::Dry,
    };
    Tile { position: GridCell { row, col }, category: c, texture_index, layer: -1i32, is_water, water_variant }
}

/// Generates the whole map from one sample per cell (row-major, `rows * cols`
/// of them, in ten-thousandths) and a seed for the decoration rolls.
///
/// The result is pinned down completely by the inputs: every cell gets
/// exactly the tile its sample classifies to, and the decoration sequence is
/// the one the seeded generator dictates. Equal inputs therefore give equal
/// worlds.
pub fn generate_world(samples: &Vec<i64>, rows: usize, cols: usize, seed: u64) -> (world: (
    Vec<Tile>,
    Vec<Decoration>,
))
    requires
        samples@.len() == rows * cols,
        rows <= 100_000,
        cols <= 100_000,
    ensures
        world.0@.len() == samples@.len(),
        forall|i: int|
            0 <= i < samples@.len() ==> world.0@[i] == tile_spec(samples@, cols as int, i),
        world.1@ == decos_from(samples@, cols as int, 0, seed),
{
    let total = samples.len();
    let mut tiles: Vec<Tile> = Vec::new();
    let mut decos: Vec<Decoration> = Vec::new();
    let mut rng = SimRng::seeded(seed);
    let mut i: usize = 0;
    proof {
        assert(decos@ + decos_from(samples@, cols as int, 0, seed) =~= decos_from(
            samples@,
            cols as int,
            0,
            seed,
        ));
    }
    while i < total
        invariant
            total == samples@.len(),
            samples@.len() == rows * cols,
            rows <= 100_000,
            cols <= 100_000,
            i <= total,
            tiles@.len() == i,
            forall|j: int| 0 <= j < i ==> tiles@[j] == tile_spec(samples@, cols as int, j),
            decos_from(samples@, cols as int, 0, seed) == decos@ + decos_from(
                samples@,
                cols as int,
                i as int,
                rng.state,
            ),
        decreases total - i,
    {
        proof {
            if cols == 0 {
                assert(samples@.len() == rows * 0);
            }
        }
        let row = i / cols;
        let col = i % cols;
        let ghost s0 = rng.state;
        let ghost decos_pre = decos@;
        let sample = samples[i];
        let c = classify(sample);
        let roll = rng.next_below(ROLL_SPAN);
        let thr = deco_threshold(c);
        if roll > thr {
            let lo = deco_variant_lo(c);
            let span = deco_variant_span(c);
            let d = rng.next_below(span);
            let deco = Decoration {
                position: GridCell { row, col },
                variant_index: lo + d,
                layer: 0,
            };
            decos.push(deco);
        }
        let tile = make_tile(row, col, c);
        tiles.push(tile);
        proof {
            assert(c == classify_spec(samples@[i as int] as int));
            assert(cell_of(i as int, cols as int) == (GridCell { row, col }));
            let rest = decos_from(samples@, cols as int, i as int + 1, cell_rng_after(s0, c));
            assert(decos_from(samples@, cols as int, i as int, s0) == (if cell_decorated(s0, c) {
                seq![
                    Decoration {
                        position: cell_of(i as int, cols as int),
                        variant_index: cell_variant(s0, c),
                        layer: 0,
                    },
                ] + rest
            } else {
                rest
            }));
            assert(rng.state == cell_rng_after(s0, c));
            assert(decos@ + rest =~= decos_pre + decos_from(samples@, cols as int, i as int, s0));
            assert(tiles@[i as int] == tile_spec(samples@, cols as int, i as int));
        }
        i = i + 1;
    }
    proof {
        assert(decos_from(samples@, cols as int, total as int, rng.state) =~= Seq::<
            Decoration,
        >::empty());
        assert(decos@ + Seq::<Decoration>::empty() =~= decos@);
    }
    (tiles, decos)
}

} // verus!
