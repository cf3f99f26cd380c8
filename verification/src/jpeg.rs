//! Per-channel coefficient records, as the decode collaborator hands them
//! over: block geometry, subsampling factors, quantized transform
//! coefficients, and the quantization table.
//!
//! The decode collaborator (the bitstream decoder and the file reader in
//! front of it) is outside this library; it supplies plain values in a
//! `DecodedImage`, and `Jpeg::from` checks them and derives the rounded
//! block geometry of every channel.

use vstd::prelude::*;
use vstd::string::StringExecFns;
use crate::layout::lemma_block_grid;
use crate::layout::lemma_rounded8_bounds;
use crate::layout::round_to_block;
use crate::layout::rounded8;

verus! {

/// Chroma subsampling factor of a channel relative to the full-resolution
/// sample grid: one channel sample covers this many full-resolution samples
/// along one axis.
#[derive(Debug, Clone)]
pub enum SampFactor {
    One,
    Two,
}

impl SampFactor {
    /// The numeric factor.
    pub open spec fn spec_usize(&self) -> int {
        match self {
            SampFactor::One => 1,
            SampFactor::Two => 2,
        }
    }

    /// The numeric factor, for coordinate arithmetic.
    pub fn usize(&self) -> (r: usize)
        ensures
            r == self.spec_usize(),
            1 <= r <= 2,
    {
        match self {
            SampFactor::One => 1,
            SampFactor::Two => 2,
        }
    }
}

/// Where the compressed image comes from: a file on disk, or a byte buffer
/// already in memory. Resolving a `File` into bytes is I/O and happens
/// outside the library.
#[derive(Debug, Clone)]
pub enum JpegSource {
    File(String),
    Buffer(Vec<u8>),
}

/// One image channel as the decoder hands it over: pixel dimensions before
/// rounding, sampling rates (how many samples this channel contributes per
/// minimum coded unit along each axis), the quantized transform
/// coefficients in block-major order, and the channel's quantization table.
#[derive(Debug, Clone)]
pub struct DecodedComponent {
    pub px_w: u32,
    pub px_h: u32,
    pub w_sampling: u32,
    pub h_sampling: u32,
    pub dct_coefs: Vec<i16>,
    pub quant_table: Vec<u16>,
}

/// A decoded compressed image: its real pixel dimensions and its channels.
#[derive(Debug, Clone)]
pub struct DecodedImage {
    pub real_px_w: u32,
    pub real_px_h: u32,
    pub components: Vec<DecodedComponent>,
}

/// One channel's coefficient record: rounded geometry, subsampling factors,
/// quantized coefficients and quantization steps. The spatial buffer that
/// the optimizer refines is floating point and lives with the caller; the
/// record holds everything the integer side of the pipeline reads.
#[derive(Debug, Clone)]
pub struct Coefficient {
    /// Pixel width rounded up to the next multiple of 8.
    pub rounded_px_w: u32,
    /// Pixel height rounded up to the next multiple of 8.
    pub rounded_px_h: u32,
    pub rounded_px_count: u32,
    /// Width of the block grid: rounded pixel width divided by 8.
    pub block_w: u32,
    /// Height of the block grid: rounded pixel height divided by 8.
    pub block_h: u32,
    pub block_count: u32,
    pub w_samp_factor: SampFactor,
    pub h_samp_factor: SampFactor,
    /// Quantized transform coefficients, block-major, 64 per block.
    pub dct_coefs: Vec<i16>,
    /// The 64 quantization steps, one per frequency position.
    pub quant_table: Vec<u16>,
}

impl Coefficient {
    /// Internal consistency of the record: the rounded dimensions are whole
    /// blocks, the derived counts agree with them, there is one coefficient
    /// per sample, and every quantization step is positive.
    pub open spec fn wf(&self) -> bool {
        &&& 8 <= self.rounded_px_w && self.rounded_px_w % 8 == 0
        &&& 8 <= self.rounded_px_h && self.rounded_px_h % 8 == 0
        &&& self.block_w == self.rounded_px_w / 8
        &&& self.block_h == self.rounded_px_h / 8
        &&& self.block_count == self.block_w * self.block_h
        &&& self.rounded_px_count == self.rounded_px_w * self.rounded_px_h
        &&& 64 * self.block_count == self.rounded_px_count
        &&& self.dct_coefs@.len() == 64 * self.block_count
        &&& self.quant_table@.len() == 64
        &&& forall|j: int| 0 <= j < 64 ==> 1 <= #[trigger] self.quant_table@[j]
    }
}

/// A whole decoded image's coefficient records, one per channel.
#[derive(Debug)]
pub struct Jpeg {
    pub chan_count: u32,
    pub real_px_w: u32,
    pub real_px_h: u32,
    pub coefs: Vec<Coefficient>,
}

/// The largest `w_sampling` among the channels (0 when there are none).
pub open spec fn max_w_sampling(s: Seq<DecodedComponent>) -> int
    decreases s.len(),
{
    if s.len() == 0 {
        0
    } else {
        let rest = max_w_sampling(s.drop_last());
        if s.last().w_sampling as int > rest {
            s.last().w_sampling as int
        } else {
            rest
        }
    }
}

/// The largest `h_sampling` among the channels (0 when there are none).
pub open spec fn max_h_sampling(s: Seq<DecodedComponent>) -> int
    decreases s.len(),
{
    if s.len() == 0 {
        0
    } else {
        let rest = max_h_sampling(s.drop_last());
        if s.last().h_sampling as int > rest {
            s.last().h_sampling as int
        } else {
            rest
        }
    }
}

/// The channel's subsampling ratio along the width: the image's largest
/// sampling rate over the channel's own.
pub open spec fn w_ratio(maxw: int, comp: DecodedComponent) -> int {
    maxw / comp.w_sampling as int
}

/// The channel's subsampling ratio along the height.
pub open spec fn h_ratio(maxh: int, comp: DecodedComponent) -> int {
    maxh / comp.h_sampling as int
}

/// What the decode collaborator guarantees of each channel it hands over:
/// nonempty dimensions within the format's 16-bit limit, a rounded sample
/// count that fits the record's arithmetic, sampling rates of at least one,
/// exactly one coefficient per rounded sample, and positive quantization
/// steps.
pub open spec fn comp_valid(comp: DecodedComponent) -> bool {
    &&& 1 <= comp.px_w <= 0xFFFF
    &&& 1 <= comp.px_h <= 0xFFFF
    &&& rounded8(comp.px_w as int) * rounded8(comp.px_h as int) <= u32::MAX
    &&& 1 <= comp.w_sampling
    &&& 1 <= comp.h_sampling
    &&& comp.dct_coefs@.len() == rounded8(comp.px_w as int) * rounded8(comp.px_h as int)
    &&& forall|j: int| 0 <= j < comp.quant_table@.len() ==> 1 <= #[trigger] comp.quant_table@[j]
}

/// A channel is accepted when both subsampling ratios are 1 or 2 and its
/// quantization table has exactly 64 entries.
pub open spec fn comp_ok(maxw: int, maxh: int, comp: DecodedComponent) -> bool {
    &&& (w_ratio(maxw, comp) == 1 || w_ratio(maxw, comp) == 2)
    &&& (h_ratio(maxh, comp) == 1 || h_ratio(maxh, comp) == 2)
    &&& comp.quant_table@.len() == 64
}

/// The message reported for a rejected channel: the checks run in order,
/// width ratio first, then height ratio, then the quantization table.
pub open spec fn comp_error(maxw: int, maxh: int, comp: DecodedComponent) -> Seq<char> {
    if w_ratio(maxw, comp) != 1 && w_ratio(maxw, comp) != 2 {
        "Invalid horizontal sample factor"@
    } else if h_ratio(maxh, comp) != 1 && h_ratio(maxh, comp) != 2 {
        "Invalid vertical sample factor"@
    } else {
        "Failed to convert quantization table"@
    }
}

/// The coefficient record that `Jpeg::from` owes for an accepted channel:
/// rounded geometry derived from the channel's pixel dimensions, subsampling
/// factors equal to the channel's ratios, and the coefficients and
/// quantization table carried over unchanged.
pub open spec fn coef_matches(k: Coefficient, maxw: int, maxh: int, comp: DecodedComponent) -> bool {
    &&& k.rounded_px_w == rounded8(comp.px_w as int)
    &&& k.rounded_px_h == rounded8(comp.px_h as int)
    &&& k.rounded_px_count == rounded8(comp.px_w as int) * rounded8(comp.px_h as int)
    &&& k.block_w == rounded8(comp.px_w as int) / 8
    &&& k.block_h == rounded8(comp.px_h as int) / 8
    &&& k.w_samp_factor.spec_usize() == w_ratio(maxw, comp)
    &&& k.h_samp_factor.spec_usize() == h_ratio(maxh, comp)
    &&& k.dct_coefs@ == comp.dct_coefs@
    &&& k.quant_table@ == comp.quant_table@
    &&& k.wf()
}

impl Jpeg {
    /// Build the per-channel coefficient records of a decoded image: round
    /// every channel's dimensions up to whole blocks, derive its block grid,
    /// and classify its subsampling ratios. A channel whose ratio along
    /// either axis is neither 1 nor 2, or whose quantization table is not 64
    /// entries long, rejects the whole image with the first such channel's
    /// message.
    pub fn from(img: DecodedImage) -> (r: Result<Jpeg, String>)
        requires
            img.components@.len() <= u32::MAX,
            forall|c: int|
                0 <= c < img.components@.len() ==> comp_valid(#[trigger] img.components@[c]),
        ensures
            match r {
                Ok(jpeg) => {
                    &&& forall|c: int|
                        0 <= c < img.components@.len() ==> comp_ok(
                            max_w_sampling(img.components@),
                            max_h_sampling(img.components@),
                            #[trigger] img.components@[c],
                        )
                    &&& jpeg.chan_count == img.components@.len()
                    &&& jpeg.real_px_w == img.real_px_w
                    &&& jpeg.real_px_h == img.real_px_h
                    &&& jpeg.coefs@.len() == img.components@.len()
                    &&& forall|c: int|
                        0 <= c < img.components@.len() ==> coef_matches(
                            #[trigger] jpeg.coefs@[c],
                            max_w_sampling(img.components@),
                            max_h_sampling(img.components@),
                            img.components@[c],
                        )
                },
                Err(e) => exists|c: int|
                    {
                        &&& 0 <= c < img.components@.len()
                        &&& !comp_ok(
                            max_w_sampling(img.components@),
                            max_h_sampling(img.components@),
                            #[trigger] img.components@[c],
                        )
                        &&& forall|d: int|
                            0 <= d < c ==> comp_ok(
                                max_w_sampling(img.components@),
                                max_h_sampling(img.components@),
                                #[trigger] img.components@[d],
                            )
                        &&& e@ == comp_error(
                            max_w_sampling(img.components@),
                            max_h_sampling(img.components@),
                            img.components@[c],
                        )
                    },
            },
    {
        let ncomp = img.components.len();
        let mut maxw: u32 = 0;
        let mut maxh: u32 = 0;
        let mut i: usize = 0;
        while i < ncomp
            invariant
                0 <= i <= ncomp,
                ncomp == img.components@.len(),
                maxw == max_w_sampling(img.components@.take(i as int)),
                maxh == max_h_sampling(img.components@.take(i as int)),
            decreases ncomp - i,
        {
            proof {
                assert(img.components@.take(i + 1).drop_last() =~= img.components@.take(i as int));
                assert(img.components@.take(i + 1).last() == img.components@[i as int]);
            }
            if img.components[i].w_sampling > maxw {
                maxw = img.components[i].w_sampling;
            }
            if img.components[i].h_sampling > maxh {
                maxh = img.components[i].h_sampling;
            }
            i = i + 1;
        }
        proof {
            assert(img.components@.take(ncomp as int) =~= img.components@);
        }

        let mut coefs: Vec<Coefficient> = Vec::new();
        let mut c: usize = 0;
        while c < ncomp
            invariant
                0 <= c <= ncomp,
                ncomp == img.components@.len(),
                ncomp <= u32::MAX,
                maxw == max_w_sampling(img.components@),
                maxh == max_h_sampling(img.components@),
                forall|d: int|
                    0 <= d < ncomp ==> comp_valid(#[trigger] img.components@[d]),
                coefs@.len() == c,
                forall|d: int|
                    0 <= d < c ==> comp_ok(maxw as int, maxh as int, #[trigger] img.components@[d]),
                forall|d: int|
                    0 <= d < c ==> coef_matches(
                        #[trigger] coefs@[d],
                        maxw as int,
                        maxh as int,
                        img.components@[d],
                    ),
            decreases ncomp - c,
        {
            let comp = &img.components[c];
            let wr = maxw / comp.w_sampling;
            let w_samp_factor = if wr == 1 {
                SampFactor::One
            } else if wr == 2 {
                SampFactor::Two
            } else {
                return Err(String::from_str("Invalid horizontal sample factor"));
            };
            let hr = maxh / comp.h_sampling;
            let h_samp_factor = if hr == 1 {
                SampFactor::One
            } else if hr == 2 {
                SampFactor::Two
            } else {
                return Err(String::from_str("Invalid vertical sample factor"));
            };
            if comp.quant_table.len() != 64 {
                return Err(String::from_str("Failed to convert quantization table"));
            }
            proof {
                lemma_rounded8_bounds(comp.px_w as int);
                lemma_rounded8_bounds(comp.px_h as int);
            }
            let rounded_px_w = round_to_block(comp.px_w);
            let rounded_px_h = round_to_block(comp.px_h);
            proof {
                lemma_block_grid(rounded_px_w as int, rounded_px_h as int);
            }
            let rounded_px_count = rounded_px_w * rounded_px_h;
            let block_w = rounded_px_w / 8;
            let block_h = rounded_px_h / 8;
            let block_count = block_w * block_h;
            let dct_coefs = comp.dct_coefs.clone();
            let quant_table = comp.quant_table.clone();
            proof {
                assert(dct_coefs@ =~= comp.dct_coefs@);
                assert(quant_table@ =~= comp.quant_table@);
            }
            let coef = Coefficient {
                rounded_px_w,
                rounded_px_h,
                rounded_px_count,
                block_w,
                block_h,
                block_count,
                w_samp_factor,
                h_samp_factor,
                dct_coefs,
                quant_table,
            };
            coefs.push(coef);
            c = c + 1;
        }
        Ok(
            Jpeg {
                chan_count: ncomp as u32,
                real_px_w: img.real_px_w,
                real_px_h: img.real_px_h,
                coefs,
            },
        )
    }
}

} // verus!
