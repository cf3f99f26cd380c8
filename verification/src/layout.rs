//! Block-grid geometry: rounding pixel dimensions up to the 8-sample block
//! size, and the index correspondence between the raster layout (row-major
//! samples) and the block-major layout (64 consecutive values per 8x8 block).

use vstd::prelude::*;

verus! {

/// `x` rounded up to the next multiple of the block size 8.
pub open spec fn rounded8(x: int) -> int {
    ((x + 7) / 8) * 8
}

pub proof fn lemma_rounded8_bounds(x: int)
    requires
        0 <= x,
    ensures
        x <= rounded8(x) < x + 8,
        rounded8(x) % 8 == 0,
        rounded8(x) / 8 == (x + 7) / 8,
{
    assert(x <= ((x + 7) / 8) * 8 < x + 8) by (nonlinear_arith);
    assert((((x + 7) / 8) * 8) % 8 == 0) by (nonlinear_arith);
    assert((((x + 7) / 8) * 8) / 8 == (x + 7) / 8) by (nonlinear_arith);
}

/// Round a pixel dimension up to the next multiple of 8, with the usual
/// mask trick: adding 7 and clearing the three low bits.
pub fn round_to_block(x: u32) -> (r: u32)
    requires
        x <= 0xFFFF,
    ensures
        r == rounded8(x as int),
{
    let s = x + 7;
    let r = s & !7u32;
    proof {
        assert(s & !7u32 == (s / 8) * 8) by (bit_vector);
    }
    r
}

/// A grid of whole 8x8 blocks holds exactly its pixel count in block-major
/// values: 64 values per block.
pub proof fn lemma_block_grid(w: int, h: int)
    requires
        0 <= w,
        0 <= h,
        w % 8 == 0,
        h % 8 == 0,
    ensures
        (w / 8) * (h / 8) * 64 == w * h,
        (w / 8) * (h / 8) <= w * h,
{
    assert((w / 8) * (h / 8) * 64 == w * h && (w / 8) * (h / 8) <= w * h) by (nonlinear_arith)
        requires
            0 <= w,
            0 <= h,
            w % 8 == 0,
            h % 8 == 0,
    ;
}

/// Index of the raster sample `(x, y)` in a `w`-samples-wide buffer.
pub open spec fn raster_index(x: int, y: int, w: int) -> int {
    y * w + x
}

/// Index of the sample `(x, y)` in the block-major layout of a grid that is
/// `block_w` blocks wide: blocks are stored row by row, 64 values each, and
/// within a block the 8x8 samples are stored row by row.
pub open spec fn block_major_index(x: int, y: int, block_w: int) -> int {
    ((y / 8) * block_w + x / 8) * 64 + (y % 8) * 8 + x % 8
}

pub proof fn lemma_block_major_index_bounds(x: int, y: int, block_w: int, block_h: int)
    requires
        0 <= x < 8 * block_w,
        0 <= y < 8 * block_h,
    ensures
        0 <= block_major_index(x, y, block_w) < 64 * block_w * block_h,
{
    assert(0 <= x / 8 < block_w && 0 <= y / 8 < block_h) by (nonlinear_arith)
        requires
            0 <= x < 8 * block_w,
            0 <= y < 8 * block_h,
    ;
    assert(0 <= ((y / 8) * block_w + x / 8) * 64 + (y % 8) * 8 + x % 8 < 64 * block_w * block_h)
        by (nonlinear_arith)
        requires
            0 <= x / 8 < block_w,
            0 <= y / 8 < block_h,
            0 <= x % 8 < 8,
            0 <= y % 8 < 8,
    ;
}

/// The raster column that block-major index `j` belongs to.
pub open spec fn block_major_x(j: int, block_w: int) -> int {
    8 * ((j / 64) % block_w) + (j % 64) % 8
}

/// The raster row that block-major index `j` belongs to.
pub open spec fn block_major_y(j: int, block_w: int) -> int {
    8 * ((j / 64) / block_w) + (j % 64) / 8
}

/// The two layouts correspond one to one: decomposing the block-major index
/// of any raster sample recovers that sample's coordinates, so rearranging a
/// buffer between the layouts permutes it and loses nothing.
pub proof fn lemma_block_major_round_trip(x: int, y: int, block_w: int)
    requires
        1 <= block_w,
        0 <= x < 8 * block_w,
        0 <= y,
    ensures
        block_major_x(block_major_index(x, y, block_w), block_w) == x,
        block_major_y(block_major_index(x, y, block_w), block_w) == y,
{
    let b = (y / 8) * block_w + x / 8;
    let r = (y % 8) * 8 + x % 8;
    let j = block_major_index(x, y, block_w);
    assert(0 <= x / 8 < block_w && 0 <= b && 0 <= r < 64) by (nonlinear_arith)
        requires
            1 <= block_w,
            0 <= x < 8 * block_w,
            0 <= y,
            b == (y / 8) * block_w + x / 8,
            r == (y % 8) * 8 + x % 8,
    ;
    assert(j / 64 == b && j % 64 == r) by (nonlinear_arith)
        requires
            j == b * 64 + r,
            0 <= b,
            0 <= r < 64,
    ;
    assert(b % block_w == x / 8 && b / block_w == y / 8) by (nonlinear_arith)
        requires
            b == (y / 8) * block_w + x / 8,
            0 <= x / 8 < block_w,
            0 <= y / 8,
    ;
    assert(r / 8 == y % 8 && r % 8 == x % 8) by (nonlinear_arith)
        requires
            r == (y % 8) * 8 + x % 8,
            0 <= y % 8 < 8,
            0 <= x % 8 < 8,
    ;
}

/// The block-major index of raster sample `(x, y)`, as executable code.
pub fn block_major_index_exec(x: usize, y: usize, block_w: usize, block_h: usize) -> (j: usize)
    requires
        1 <= block_w,
        1 <= block_h,
        x < 8 * block_w,
        y < 8 * block_h,
        64 * block_w * block_h <= u32::MAX,
    ensures
        j == block_major_index(x as int, y as int, block_w as int),
        j < 64 * block_w * block_h,
{
    proof {
        lemma_block_major_index_bounds(x as int, y as int, block_w as int, block_h as int);
        assert((y / 8) * block_w + x / 8 < block_w * block_h && ((y / 8) * block_w + x / 8) * 64
            + 63 < 64 * block_w * block_h && (block_w * block_h) * 64 == 64 * block_w * block_h)
            by (nonlinear_arith)
            requires
                0 <= x < 8 * block_w,
                0 <= y < 8 * block_h,
                1 <= block_w,
                1 <= block_h,
        ;
    }
    ((y / 8) * block_w + x / 8) * 64 + (y % 8) * 8 + x % 8
}

/// For every raster index of a grid of `block_w` by `block_h` blocks, the
/// index of the same sample in the block-major layout.
///
/// The result `m` satisfies `m[y*w + x] == block_major_index(x, y, block_w)`
/// for every sample coordinate `(x, y)` of the grid, `w` being the grid's
/// width in samples; rearranging a buffer by it turns a block-major buffer
/// into a raster one, or gathers a raster buffer block by block.
pub fn unboxing_map(block_w: usize, block_h: usize) -> (m: Vec<usize>)
    requires
        1 <= block_w,
        1 <= block_h,
        64 * block_w * block_h <= u32::MAX,
    ensures
        m@.len() == 64 * block_w * block_h,
        forall|x: int, y: int|
            0 <= x < 8 * block_w && 0 <= y < 8 * block_h ==> #[trigger] m@[raster_index(
                x,
                y,
                8 * block_w as int,
            )] == block_major_index(x, y, block_w as int),
        forall|i: int|
            0 <= i < m@.len() ==> #[trigger] m@[i] < 64 * block_w * block_h,
{
    proof {
        assert(8 * block_w <= u32::MAX && 8 * block_h <= u32::MAX && (8 * block_w) * (8 * block_h)
            == 64 * block_w * block_h) by (nonlinear_arith)
            requires
                64 * block_w * block_h <= u32::MAX,
                1 <= block_w,
                1 <= block_h,
        ;
    }
    let w: usize = 8 * block_w;
    let h: usize = 8 * block_h;
    let mut m: Vec<usize> = Vec::new();
    let mut y: usize = 0;
    while y < h
        invariant
            0 <= y <= h,
            w == 8 * block_w,
            h == 8 * block_h,
            1 <= block_w,
            1 <= block_h,
            64 * block_w * block_h <= u32::MAX,
            w * h == 64 * block_w * block_h,
            m@.len() == y * w,
            forall|xx: int, yy: int|
                0 <= xx < w && 0 <= yy < y ==> #[trigger] m@[raster_index(xx, yy, w as int)]
                    == block_major_index(xx, yy, block_w as int),
            forall|i: int| 0 <= i < m@.len() ==> #[trigger] m@[i] < 64 * block_w * block_h,
        decreases h - y,
    {
        let mut x: usize = 0;
        while x < w
            invariant
                0 <= x <= w,
                0 <= y < h,
                w == 8 * block_w,
                h == 8 * block_h,
                1 <= block_w,
                1 <= block_h,
                64 * block_w * block_h <= u32::MAX,
                w * h == 64 * block_w * block_h,
                m@.len() == y * w + x,
                forall|xx: int, yy: int|
                    0 <= xx < w && 0 <= yy < y ==> #[trigger] m@[raster_index(xx, yy, w as int)]
                        == block_major_index(xx, yy, block_w as int),
                forall|xx: int|
                    0 <= xx < x ==> #[trigger] m@[raster_index(xx, y as int, w as int)]
                        == block_major_index(xx, y as int, block_w as int),
                forall|i: int| 0 <= i < m@.len() ==> #[trigger] m@[i] < 64 * block_w * block_h,
            decreases w - x,
        {
            proof {
                assert(y * w + x < w * h && (y * w + x) + 1 == y * w + (x + 1)) by (nonlinear_arith)
                    requires
                        0 <= x < w,
                        0 <= y < h,
                ;
            }
            let j: usize = block_major_index_exec(x, y, block_w, block_h);
            let ghost m0 = m@;
            m.push(j);
            proof {
                assert(raster_index(x as int, y as int, w as int) == m@.len() - 1);
                assert forall|xx: int, yy: int|
                    0 <= xx < w && 0 <= yy < y implies #[trigger] m@[raster_index(xx, yy, w as int)]
                    == block_major_index(xx, yy, block_w as int) by {
                    assert(0 <= yy * w + xx < y * w + x) by (nonlinear_arith)
                        requires
                            0 <= xx < w,
                            0 <= yy < y,
                            0 <= x,
                    ;
                    assert(m@[raster_index(xx, yy, w as int)] == m0[raster_index(xx, yy, w as int)]);
                }
            }
            x = x + 1;
        }
        proof {
            assert(y * w + w == (y + 1) * w) by (nonlinear_arith);
            assert forall|xx: int, yy: int|
                0 <= xx < w && 0 <= yy < y + 1 implies #[trigger] m@[raster_index(
                xx,
                yy,
                w as int,
            )] == block_major_index(xx, yy, block_w as int) by {
                if yy == y {
                    assert(m@[raster_index(xx, y as int, w as int)] == block_major_index(
                        xx,
                        y as int,
                        block_w as int,
                    ));
                }
            }
        }
        y = y + 1;
    }
    proof {
        assert(h * w == w * h) by (nonlinear_arith);
    }
    m
}

} // verus!
