//! The fixed frequency-domain reference of a channel, and the hard
//! consistency constraint of the projection stage.
//!
//! Each quantized coefficient `c` with quantization step `q` stands for a
//! true transform value somewhere in the closed interval of half-width
//! `q / 2` around `c * q`. The optimizer's projection clamps every block's
//! transform coefficients back into those intervals after each descent
//! step. To keep the interval endpoints exact they are computed here in
//! half-units: twice the transform value, an integer.

use vstd::prelude::*;
use crate::jpeg::Coefficient;

verus! {

/// The dequantized reference value at block-major position `i`: the decoded
/// coefficient times its frequency's quantization step.
pub open spec fn reference_value(coef: Coefficient, i: int) -> int {
    coef.dct_coefs@[i] * coef.quant_table@[i % 64]
}

/// Lower end of the feasible interval around quantized coefficient `c` with
/// step `q`, in half-units: twice `c*q - q/2`.
pub open spec fn interval_lo(c: int, q: int) -> int {
    2 * c * q - q
}

/// Upper end of the feasible interval, in half-units: twice `c*q + q/2`.
pub open spec fn interval_hi(c: int, q: int) -> int {
    2 * c * q + q
}

/// The feasible interval of every frequency position brackets its own
/// dequantized reference: the reference (in half-units, `2*c*q`) lies
/// strictly inside the interval whenever the quantization step is positive,
/// and the interval's width is exactly twice the step — `c*q - q/2` to
/// `c*q + q/2` in transform units.
pub proof fn lemma_feasible_interval(c: int, q: int)
    requires
        1 <= q,
    ensures
        interval_lo(c, q) < 2 * c * q < interval_hi(c, q),
        interval_hi(c, q) - interval_lo(c, q) == 2 * q,
        interval_lo(c, q) + interval_hi(c, q) == 4 * c * q,
{
    assert((2 * c * q - q) + (2 * c * q + q) == 4 * c * q) by (nonlinear_arith);
}

/// Any value clamped into a feasible interval lands inside it, and a value
/// already inside is left unchanged: the projection moves each coefficient
/// to the nearest feasible point.
pub proof fn lemma_clamp_feasible(v: int, c: int, q: int)
    requires
        1 <= q,
    ensures
        interval_lo(c, q) <= clamp(v, interval_lo(c, q), interval_hi(c, q)) <= interval_hi(c, q),
        interval_lo(c, q) <= v <= interval_hi(c, q) ==> clamp(
            v,
            interval_lo(c, q),
            interval_hi(c, q),
        ) == v,
{
}

/// The dequantized reference is a function of the record alone: any two
/// buffers that meet `dequantized`'s contract for the same record hold the
/// same values, so repeated runs read the same fixed target.
pub proof fn lemma_dequantized_deterministic(coef: Coefficient, r1: Seq<i32>, r2: Seq<i32>)
    requires
        r1.len() == coef.dct_coefs@.len(),
        r2.len() == coef.dct_coefs@.len(),
        forall|i: int| 0 <= i < r1.len() ==> #[trigger] r1[i] == reference_value(coef, i),
        forall|i: int| 0 <= i < r2.len() ==> #[trigger] r2[i] == reference_value(coef, i),
    ensures
        r1 == r2,
{
    assert(r1 =~= r2);
}

/// `v` clamped to the closed interval `[lo, hi]`.
pub open spec fn clamp(v: int, lo: int, hi: int) -> int {
    if v < lo {
        lo
    } else if v > hi {
        hi
    } else {
        v
    }
}

/// The dequantized reference of a whole channel: coefficient times step at
/// every block-major position. This is the fixed target the fidelity term
/// measures distance against, and (inverse-transformed) the baseline the
/// optimizer starts from.
pub fn dequantized(coef: &Coefficient) -> (r: Vec<i32>)
    requires
        coef.wf(),
    ensures
        r@.len() == coef.dct_coefs@.len(),
        forall|i: int| 0 <= i < r@.len() ==> #[trigger] r@[i] == reference_value(*coef, i),
{
    let n = coef.dct_coefs.len();
    let mut r: Vec<i32> = Vec::new();
    let mut i: usize = 0;
    while i < n
        invariant
            0 <= i <= n,
            coef.wf(),
            n == coef.dct_coefs@.len(),
            r@.len() == i,
            forall|k: int| 0 <= k < i ==> #[trigger] r@[k] == reference_value(*coef, k),
        decreases n - i,
    {
        let c = coef.dct_coefs[i];
        let q = coef.quant_table[i % 64];
        proof {
            assert(i16::MIN * u16::MAX <= c * q <= i16::MAX * u16::MAX) by (nonlinear_arith)
                requires
                    i16::MIN <= c <= i16::MAX,
                    0 <= q <= u16::MAX,
            ;
        }
        r.push((c as i32) * (q as i32));
        i = i + 1;
    }
    r
}

/// The feasible interval of every block-major position of a channel, in
/// half-units: entry `i` is `(2*c*q - q, 2*c*q + q)` for that position's
/// coefficient `c` and step `q`. Halving the endpoints gives the closed
/// interval `[c*q - q/2, c*q + q/2]` that the projection stage clamps the
/// corresponding transform coefficient into.
pub fn feasible_bounds(coef: &Coefficient) -> (b: Vec<(i64, i64)>)
    requires
        coef.wf(),
    ensures
        b@.len() == coef.dct_coefs@.len(),
        forall|i: int|
            0 <= i < b@.len() ==> #[trigger] b@[i].0 == interval_lo(
                coef.dct_coefs@[i] as int,
                coef.quant_table@[i % 64] as int,
            ),
        forall|i: int|
            0 <= i < b@.len() ==> #[trigger] b@[i].1 == interval_hi(
                coef.dct_coefs@[i] as int,
                coef.quant_table@[i % 64] as int,
            ),
        forall|i: int|
            0 <= i < b@.len() ==> #[trigger] b@[i].0 < 2 * reference_value(*coef, i) < b@[i].1,
{
    let n = coef.dct_coefs.len();
    let mut b: Vec<(i64, i64)> = Vec::new();
    let mut i: usize = 0;
    while i < n
        invariant
            0 <= i <= n,
            coef.wf(),
            n == coef.dct_coefs@.len(),
            b@.len() == i,
            forall|k: int|
                0 <= k < i ==> #[trigger] b@[k].0 == interval_lo(
                    coef.dct_coefs@[k] as int,
                    coef.quant_table@[k % 64] as int,
                ),
            forall|k: int|
                0 <= k < i ==> #[trigger] b@[k].1 == interval_hi(
                    coef.dct_coefs@[k] as int,
                    coef.quant_table@[k % 64] as int,
                ),
        decreases n - i,
    {
        let c = coef.dct_coefs[i] as i64;
        let q = coef.quant_table[i % 64] as i64;
        proof {
            assert(2 * (i16::MIN * u16::MAX) <= 2 * c * q <= 2 * (i16::MAX * u16::MAX))
                by (nonlinear_arith)
                requires
                    i16::MIN <= c <= i16::MAX,
                    0 <= q <= u16::MAX,
            ;
        }
        let twice: i64 = 2 * c * q;
        b.push((twice - q, twice + q));
        i = i + 1;
    }
    proof {
        assert forall|i: int| 0 <= i < b@.len() implies #[trigger] b@[i].0 < 2 * reference_value(
            *coef,
            i,
        ) < b@[i].1 by {
            let c = coef.dct_coefs@[i] as int;
            let q = coef.quant_table@[i % 64] as int;
            lemma_feasible_interval(c, q);
            assert(2 * (c * q) == 2 * c * q) by (nonlinear_arith);
        }
    }
    b
}

} // verus!
