//! Nearest-neighbor upsampling of a subsampled channel onto the run's
//! full-resolution grid: every full-resolution coordinate maps to the
//! channel-local sample found by dividing by the subsampling factor and
//! clamping to the channel's own rounded dimensions.

use vstd::prelude::*;
use crate::jpeg::Coefficient;
use crate::layout::raster_index;

verus! {

/// The channel-local index that full-resolution coordinate `(x, y)` reads:
/// `(x / wf, y / hf)`, each clamped to the channel's last column or row.
pub open spec fn upsample_source_index(x: int, y: int, wf: int, hf: int, cw: int, ch: int) -> int {
    let cx = if x / wf <= cw - 1 {
        x / wf
    } else {
        cw - 1
    };
    let cy = if y / hf <= ch - 1 {
        y / hf
    } else {
        ch - 1
    };
    cy * cw + cx
}

pub proof fn lemma_upsample_source_index_bounds(x: int, y: int, wf: int, hf: int, cw: int, ch: int)
    requires
        0 <= x,
        0 <= y,
        1 <= wf,
        1 <= hf,
        1 <= cw,
        1 <= ch,
    ensures
        0 <= upsample_source_index(x, y, wf, hf, cw, ch) < cw * ch,
{
    assert(0 <= x / wf && 0 <= y / hf) by (nonlinear_arith)
        requires
            0 <= x,
            0 <= y,
            1 <= wf,
            1 <= hf,
    ;
    let cx = if x / wf <= cw - 1 {
        x / wf
    } else {
        cw - 1
    };
    let cy = if y / hf <= ch - 1 {
        y / hf
    } else {
        ch - 1
    };
    assert(0 <= cy * cw + cx < cw * ch) by (nonlinear_arith)
        requires
            0 <= cx <= cw - 1,
            0 <= cy <= ch - 1,
    ;
}

/// For every raster coordinate of the `max_w` by `max_h` run grid, the index
/// of the channel-local sample that initializes it.
///
/// The result `m` satisfies, for every `(x, y)` of the run grid,
/// `m[y*max_w + x] == upsample_source_index(x, y, wf, hf, cw, ch)` with
/// `wf`/`hf` the channel's subsampling factors and `cw`/`ch` its own rounded
/// dimensions: the sample at `(x / wf, y / hf)`, clamped at the channel's
/// upper boundary. Filling a run-sized buffer `b` with
/// `b[i] = channel[m[i]]` upsamples the channel by nearest neighbor.
pub fn upsample_map(coef: &Coefficient, max_w: usize, max_h: usize) -> (m: Vec<usize>)
    requires
        1 <= coef.rounded_px_w,
        1 <= coef.rounded_px_h,
        coef.rounded_px_w * coef.rounded_px_h <= u32::MAX,
        max_w * max_h <= u32::MAX,
    ensures
        m@.len() == max_w * max_h,
        forall|x: int, y: int|
            0 <= x < max_w && 0 <= y < max_h ==> #[trigger] m@[raster_index(x, y, max_w as int)]
                == upsample_source_index(
                x,
                y,
                coef.w_samp_factor.spec_usize(),
                coef.h_samp_factor.spec_usize(),
                coef.rounded_px_w as int,
                coef.rounded_px_h as int,
            ),
        forall|i: int|
            0 <= i < m@.len() ==> #[trigger] m@[i] < coef.rounded_px_w * coef.rounded_px_h,
{
    let wf = coef.w_samp_factor.usize();
    let hf = coef.h_samp_factor.usize();
    let cw = coef.rounded_px_w as usize;
    let ch = coef.rounded_px_h as usize;
    let mut m: Vec<usize> = Vec::new();
    let mut y: usize = 0;
    while y < max_h
        invariant
            0 <= y <= max_h,
            max_w * max_h <= u32::MAX,
            1 <= coef.rounded_px_w,
            1 <= coef.rounded_px_h,
            coef.rounded_px_w * coef.rounded_px_h <= u32::MAX,
            wf == coef.w_samp_factor.spec_usize(),
            hf == coef.h_samp_factor.spec_usize(),
            cw == coef.rounded_px_w,
            ch == coef.rounded_px_h,
            m@.len() == y * max_w,
            forall|xx: int, yy: int|
                0 <= xx < max_w && 0 <= yy < y ==> #[trigger] m@[raster_index(xx, yy, max_w as int)]
                    == upsample_source_index(xx, yy, wf as int, hf as int, cw as int, ch as int),
            forall|i: int|
                0 <= i < m@.len() ==> #[trigger] m@[i] < coef.rounded_px_w * coef.rounded_px_h,
        decreases max_h - y,
    {
        let mut x: usize = 0;
        while x < max_w
            invariant
                0 <= x <= max_w,
                0 <= y < max_h,
                max_w * max_h <= u32::MAX,
                1 <= coef.rounded_px_w,
                1 <= coef.rounded_px_h,
                coef.rounded_px_w * coef.rounded_px_h <= u32::MAX,
                wf == coef.w_samp_factor.spec_usize(),
                hf == coef.h_samp_factor.spec_usize(),
                cw == coef.rounded_px_w,
                ch == coef.rounded_px_h,
                m@.len() == y * max_w + x,
                forall|xx: int, yy: int|
                    0 <= xx < max_w && 0 <= yy < y ==> #[trigger] m@[raster_index(
                        xx,
                        yy,
                        max_w as int,
                    )] == upsample_source_index(xx, yy, wf as int, hf as int, cw as int, ch as int),
                forall|xx: int|
                    0 <= xx < x ==> #[trigger] m@[raster_index(xx, y as int, max_w as int)]
                        == upsample_source_index(
                        xx,
                        y as int,
                        wf as int,
                        hf as int,
                        cw as int,
                        ch as int,
                    ),
                forall|i: int|
                    0 <= i < m@.len() ==> #[trigger] m@[i] < coef.rounded_px_w
                        * coef.rounded_px_h,
            decreases max_w - x,
        {
            proof {
                lemma_upsample_source_index_bounds(
                    x as int,
                    y as int,
                    wf as int,
                    hf as int,
                    cw as int,
                    ch as int,
                );
                assert(y * max_w + x < max_w * max_h && (y * max_w + x) + 1 == y * max_w + (x + 1))
                    by (nonlinear_arith)
                    requires
                        0 <= x < max_w,
                        0 <= y < max_h,
                ;
            }
            let sx = x / wf;
            let cx = if sx <= cw - 1 {
                sx
            } else {
                cw - 1
            };
            let sy = y / hf;
            let cy = if sy <= ch - 1 {
                sy
            } else {
                ch - 1
            };
            let j: usize = cy * cw + cx;
            let ghost m0 = m@;
            m.push(j);
            proof {
                assert(raster_index(x as int, y as int, max_w as int) == m@.len() - 1);
                assert forall|xx: int, yy: int|
                    0 <= xx < max_w && 0 <= yy < y implies #[trigger] m@[raster_index(
                    xx,
                    yy,
                    max_w as int,
                )] == upsample_source_index(xx, yy, wf as int, hf as int, cw as int, ch as int) by {
                    assert(0 <= yy * max_w + xx < y * max_w + x) by (nonlinear_arith)
                        requires
                            0 <= xx < max_w,
                            0 <= yy < y,
                            0 <= x,
                    ;
                    assert(m@[raster_index(xx, yy, max_w as int)] == m0[raster_index(
                        xx,
                        yy,
                        max_w as int,
                    )]);
                }
            }
            x = x + 1;
        }
        proof {
            assert(y * max_w + max_w == (y + 1) * max_w) by (nonlinear_arith);
            assert forall|xx: int, yy: int|
                0 <= xx < max_w && 0 <= yy < y + 1 implies #[trigger] m@[raster_index(
                xx,
                yy,
                max_w as int,
            )] == upsample_source_index(xx, yy, wf as int, hf as int, cw as int, ch as int) by {
                if yy == y {
                    assert(m@[raster_index(xx, y as int, max_w as int)] == upsample_source_index(
                        xx,
                        y as int,
                        wf as int,
                        hf as int,
                        cw as int,
                        ch as int,
                    ));
                }
            }
        }
        y = y + 1;
    }
    proof {
        assert(max_h * max_w == max_w * max_h) by (nonlinear_arith);
    }
    m
}

} // verus!
