use orc_wars::biome::{
    advance_water_frame, classify, deco_threshold, deco_variant_lo, deco_variant_span,
    BiomeCategory, WaterVariant,
};
use orc_wars::geom::grid_to_world;
use orc_wars::rng::SimRng;
use orc_wars::worldgen::generate_world;

#[test]
fn classification_boundaries() {
    // Band edges in ten-thousandths; each boundary belongs to the higher band.
    assert_eq!(classify(-10_000), BiomeCategory::Base);
    assert_eq!(classify(0), BiomeCategory::Base);
    assert_eq!(classify(2_299), BiomeCategory::Base);
    assert_eq!(classify(2_300), BiomeCategory::NormalWater);
    assert_eq!(classify(3_099), BiomeCategory::NormalWater);
    assert_eq!(classify(3_100), BiomeCategory::DeepWater);
    assert_eq!(classify(3_599), BiomeCategory::DeepWater);
    assert_eq!(classify(3_600), BiomeCategory::Sand);
    assert_eq!(classify(4_999), BiomeCategory::Sand);
    assert_eq!(classify(5_000), BiomeCategory::GrassLow);
    assert_eq!(classify(6_399), BiomeCategory::GrassLow);
    assert_eq!(classify(6_400), BiomeCategory::GrassHigh);
    assert_eq!(classify(10_000), BiomeCategory::GrassHigh);
}

#[test]
fn generation_is_deterministic() {
    let samples: Vec<i64> = (0..64).map(|i| (i * 331) % 9_000 - 1_000).collect();
    let first = generate_world(&samples, 8, 8, 0xfeed_beef);
    let second = generate_world(&samples, 8, 8, 0xfeed_beef);
    assert_eq!(first.0, second.0);
    assert_eq!(first.1, second.1);
}

#[test]
fn every_cell_appears_exactly_once() {
    let samples: Vec<i64> = (0..15).map(|i| (i * 977) % 8_000).collect();
    let (tiles, _) = generate_world(&samples, 5, 3, 7);
    assert_eq!(tiles.len(), 15);
    let mut seen = [[false; 3]; 5];
    for t in &tiles {
        assert!(t.position.row < 5 && t.position.col < 3);
        assert!(!seen[t.position.row][t.position.col], "cell appears twice");
        seen[t.position.row][t.position.col] = true;
    }
    for row in &seen {
        for &cell in row {
            assert!(cell, "cell missing");
        }
    }
}

#[test]
fn constant_sand_grid() {
    // A noise field that returns 0.40 everywhere: 16 sand tiles, no water,
    // decorations (if any) drawn from {4, ..., 13} above the tiles.
    let samples: Vec<i64> = vec![4_000; 16];
    let (tiles, decos) = generate_world(&samples, 4, 4, 99);
    assert_eq!(tiles.len(), 16);
    for t in &tiles {
        assert_eq!(t.category, BiomeCategory::Sand);
        assert!(!t.is_water);
        assert_eq!(t.water_variant, WaterVariant::Dry);
        assert_eq!(t.texture_index, 1);
        assert_eq!(t.layer, -1);
    }
    for d in &decos {
        assert!(d.variant_index >= 4 && d.variant_index <= 13);
        assert_eq!(d.layer, 0);
        assert!(d.position.row < 4 && d.position.col < 4);
    }
}

#[test]
fn decorations_follow_the_seeded_rolls() {
    // Replaying the generator's own draws predicts the decoration list.
    let samples: Vec<i64> = vec![4_000; 16];
    let seed = 99;
    let (_, decos) = generate_world(&samples, 4, 4, seed);
    let mut rng = SimRng::seeded(seed);
    let mut expected = Vec::new();
    for i in 0..16usize {
        let c = classify(samples[i]);
        let roll = rng.next_below(10_000);
        if roll > deco_threshold(c) {
            let v = deco_variant_lo(c) + rng.next_below(deco_variant_span(c));
            expected.push((i / 4, i % 4, v));
        }
    }
    assert_eq!(decos.len(), expected.len());
    for (d, (row, col, v)) in decos.iter().zip(expected.iter()) {
        assert_eq!(d.position.row, *row);
        assert_eq!(d.position.col, *col);
        assert_eq!(d.variant_index, *v);
    }
}

#[test]
fn tile_fields_per_category() {
    let samples: Vec<i64> = vec![3_200, 2_500, 4_000, 5_500, 7_000, 1_000];
    let (tiles, _) = generate_world(&samples, 1, 6, 0);
    assert_eq!(tiles[0].category, BiomeCategory::DeepWater);
    assert!(tiles[0].is_water);
    assert_eq!(tiles[0].water_variant, WaterVariant::Deep);
    assert_eq!(tiles[0].texture_index, 0);
    assert_eq!(tiles[1].category, BiomeCategory::NormalWater);
    assert!(tiles[1].is_water);
    assert_eq!(tiles[1].water_variant, WaterVariant::Normal);
    assert_eq!(tiles[1].texture_index, 4);
    assert_eq!(tiles[2].category, BiomeCategory::Sand);
    assert_eq!(tiles[2].texture_index, 1);
    assert_eq!(tiles[3].category, BiomeCategory::GrassLow);
    assert_eq!(tiles[3].texture_index, 2);
    assert_eq!(tiles[4].category, BiomeCategory::GrassHigh);
    assert_eq!(tiles[4].texture_index, 2);
    assert_eq!(tiles[5].category, BiomeCategory::Base);
    assert_eq!(tiles[5].texture_index, 0);
    for t in &tiles {
        assert_eq!(t.layer, -1);
    }
}

#[test]
fn empty_extents_yield_empty_world() {
    let samples: Vec<i64> = Vec::new();
    let (tiles, decos) = generate_world(&samples, 0, 7, 3);
    assert!(tiles.is_empty());
    assert!(decos.is_empty());
    let (tiles2, decos2) = generate_world(&samples, 7, 0, 3);
    assert!(tiles2.is_empty());
    assert!(decos2.is_empty());
}

#[test]
fn water_frames_cycle() {
    // Normal water cycles 0..4, deep water the same four steps shifted by 4.
    assert_eq!(advance_water_frame(WaterVariant::Normal, 0), 1);
    assert_eq!(advance_water_frame(WaterVariant::Normal, 3), 0);
    assert_eq!(advance_water_frame(WaterVariant::Deep, 0), 5);
    assert_eq!(advance_water_frame(WaterVariant::Deep, 7), 4);
    assert_eq!(advance_water_frame(WaterVariant::Dry, 2), 2);
}

#[test]
fn grid_to_world_is_affine() {
    // 32-pixel tiles at map scale 2.50: one grid step is 80 world units,
    // i.e. 8000 hundredths.
    let w = grid_to_world(0, 0, 32, 250);
    assert_eq!((w.x, w.y), (0, 0));
    let w = grid_to_world(1, 0, 32, 250);
    assert_eq!((w.x, w.y), (8_000, 0));
    let w = grid_to_world(249, 100, 32, 250);
    assert_eq!((w.x, w.y), (1_992_000, 800_000));
}

#[test]
fn seeded_rng_reproduces_its_stream() {
    let mut a = SimRng::seeded(42);
    let mut b = SimRng::seeded(42);
    for _ in 0..32 {
        assert_eq!(a.next_below(10_000), b.next_below(10_000));
    }
    let mut c = SimRng::seeded(43);
    let first: Vec<u32> = (0..8).map(|_| SimRng::next_below(&mut c, 10_000)).collect();
    let mut d = SimRng::seeded(42);
    let second: Vec<u32> = (0..8).map(|_| SimRng::next_below(&mut d, 10_000)).collect();
    assert_ne!(first, second);
}
