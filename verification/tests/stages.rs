use artefact::feasible::{dequantized, feasible_bounds};
use artefact::jpeg::{Coefficient, SampFactor};
use artefact::layout::{block_major_index_exec, round_to_block, unboxing_map};
use artefact::upsample::upsample_map;

fn one_block_coef(coefs: Vec<i16>, q: u16) -> Coefficient {
    Coefficient {
        rounded_px_w: 8,
        rounded_px_h: 8,
        rounded_px_count: 64,
        block_w: 1,
        block_h: 1,
        block_count: 1,
        w_samp_factor: SampFactor::One,
        h_samp_factor: SampFactor::One,
        dct_coefs: coefs,
        quant_table: vec![q; 64],
    }
}

#[test]
fn round_to_block_values() {
    assert_eq!(round_to_block(0), 0);
    assert_eq!(round_to_block(1), 8);
    assert_eq!(round_to_block(8), 8);
    assert_eq!(round_to_block(10), 16);
    assert_eq!(round_to_block(65535), 65536);
}

#[test]
fn block_major_index_values() {
    // second block of a two-block row, sample (1, 2) inside the block
    assert_eq!(block_major_index_exec(9, 2, 2, 1), 64 + 2 * 8 + 1);
    assert_eq!(block_major_index_exec(0, 0, 2, 1), 0);
    assert_eq!(block_major_index_exec(15, 7, 2, 1), 127);
}

#[test]
fn unboxing_map_two_blocks() {
    let m = unboxing_map(2, 1);
    assert_eq!(m.len(), 128);
    // raster (0,0) is the first value of block 0
    assert_eq!(m[0], 0);
    // raster (8,0) is the first value of block 1
    assert_eq!(m[8], 64);
    // raster (1,1) is row 1, column 1 of block 0
    assert_eq!(m[16 + 1], 8 + 1);
    // raster (15,7) is the last value of block 1
    assert_eq!(m[127], 127);
    for &j in m.iter() {
        assert!(j < 128);
    }
    // the map is a permutation: rearranging by it loses no sample
    let mut sorted = m.clone();
    sorted.sort();
    for (i, &j) in sorted.iter().enumerate() {
        assert_eq!(i, j);
    }
}

#[test]
fn upsample_map_factor_one_is_identity() {
    let coef = one_block_coef(vec![0i16; 64], 1);
    let m = upsample_map(&coef, 8, 8);
    for (i, &j) in m.iter().enumerate() {
        assert_eq!(i, j);
    }
}

#[test]
fn upsample_map_factor_two() {
    // channel-local grid 4x4, subsampling factor 2, run grid 8x8:
    // every run coordinate reads the channel sample (x/2, y/2)
    let coef = Coefficient {
        rounded_px_w: 4,
        rounded_px_h: 4,
        rounded_px_count: 16,
        block_w: 0,
        block_h: 0,
        block_count: 0,
        w_samp_factor: SampFactor::Two,
        h_samp_factor: SampFactor::Two,
        dct_coefs: vec![],
        quant_table: vec![],
    };
    let m = upsample_map(&coef, 8, 8);
    assert_eq!(m.len(), 64);
    for y in 0..8usize {
        for x in 0..8usize {
            assert_eq!(m[y * 8 + x], (y / 2) * 4 + x / 2);
        }
    }
    // a wider run grid clamps at the channel's last column and row
    let m = upsample_map(&coef, 10, 10);
    assert_eq!(m.len(), 100);
    assert_eq!(m[0 * 10 + 9], 3);
    assert_eq!(m[9 * 10 + 9], 3 * 4 + 3);
    for &j in m.iter() {
        assert!(j < 16);
    }
}

#[test]
fn dequantized_multiplies_by_steps() {
    let mut coefs = vec![0i16; 64];
    coefs[0] = 3;
    coefs[1] = -2;
    coefs[3] = 1;
    let r = dequantized(&one_block_coef(coefs, 16));
    assert_eq!(r.len(), 64);
    assert_eq!(r[0], 48);
    assert_eq!(r[1], -32);
    assert_eq!(r[2], 0);
    assert_eq!(r[3], 16);
}

#[test]
fn feasible_bounds_brackets_reference() {
    // coefficient 3 with step 16: the feasible interval in transform units
    // is [48 - 8, 48 + 8], or [80, 112] in half-units
    let mut coefs = vec![0i16; 64];
    coefs[0] = 3;
    coefs[5] = -1;
    let coef = one_block_coef(coefs, 16);
    let b = feasible_bounds(&coef);
    let r = dequantized(&coef);
    assert_eq!(b.len(), 64);
    assert_eq!(b[0], (80, 112));
    assert_eq!((b[0].0 as f32) / 2.0, 40.0);
    assert_eq!((b[0].1 as f32) / 2.0, 56.0);
    assert_eq!(b[5], (-48, -16));
    for i in 0..64usize {
        assert!(b[i].0 < 2 * (r[i] as i64) && 2 * (r[i] as i64) < b[i].1);
        assert_eq!(b[i].1 - b[i].0, 32);
    }
}
