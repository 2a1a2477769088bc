use vstd::prelude::*;
use crate::raster::{pixel_count, Raster, RasterView, CHANNEL_MAX};

verus! {

/// BT.709 weight of the red channel, in ten-thousandths.
pub const WEIGHT_R: u128 = 2126;

/// BT.709 weight of the green channel, in ten-thousandths.
pub const WEIGHT_G: u128 = 7152;

/// BT.709 weight of the blue channel, in ten-thousandths.
pub const WEIGHT_B: u128 = 722;

/// The sum of the three weights.
pub const WEIGHT_SCALE: u128 = 10000;

/// Largest weighted luma of one pixel: every channel at its maximum.
pub open spec fn pixel_luma_max() -> int {
    (WEIGHT_SCALE as int) * (CHANNEL_MAX as int)
}

/// Weighted luma of pixel `p`, in units of one ten-thousandth of a channel step.
pub open spec fn pixel_luma(d: Seq<u16>, p: int) -> int {
    (WEIGHT_R as int) * (d[3 * p] as int) + (WEIGHT_G as int) * (d[3 * p + 1] as int) + (
    WEIGHT_B as int) * (d[3 * p + 2] as int)
}

/// Sum of the weighted luma of the first `n` pixels.
pub open spec fn luma_total(d: Seq<u16>, n: int) -> int
    decreases n,
{
    if n <= 0 {
        0
    } else {
        luma_total(d, n - 1) + pixel_luma(d, n - 1)
    }
}

/// Average luma as an exact fraction: `numerator / denominator` lies in
/// `[0, 1]`, the mean over all pixels of the channels normalised to `[0, 1]`
/// and weighted by the BT.709 coefficients.
#[derive(Clone, Copy, Debug, PartialEq, Eq, Structural)]
pub struct LumaRatio {
    pub numerator: u128,
    pub denominator: u128,
}

/// Numerator of the average luma of a raster.
pub open spec fn luma_numerator(v: RasterView) -> int {
    luma_total(v.data, pixel_count(v.width, v.height) as int)
}

/// Denominator of the average luma of a raster; one for a raster with no
/// pixels, whose average is zero.
pub open spec fn luma_denominator(v: RasterView) -> int {
    if pixel_count(v.width, v.height) == 0 {
        1
    } else {
        pixel_count(v.width, v.height) * pixel_luma_max()
    }
}

/// The average luma of a raster.
pub open spec fn luma_of(v: RasterView) -> LumaRatio {
    LumaRatio {
        numerator: luma_numerator(v) as u128,
        denominator: luma_denominator(v) as u128,
    }
}

proof fn lemma_luma_total_bound(d: Seq<u16>, n: int)
    requires
        0 <= n,
        3 * n <= d.len(),
    ensures
        0 <= luma_total(d, n) <= n * pixel_luma_max(),
    decreases n,
{
    if n > 0 {
        lemma_luma_total_bound(d, n - 1);
        let p = n - 1;
        assert(0 <= pixel_luma(d, p) <= pixel_luma_max()) by (nonlinear_arith)
            requires
                pixel_luma(d, p) == 2126 * (d[3 * p] as int) + 7152 * (d[3 * p + 1] as int) + 722 * (
                d[3 * p + 2] as int),
                0 <= d[3 * p] <= 65535,
                0 <= d[3 * p + 1] <= 65535,
                0 <= d[3 * p + 2] <= 65535,
                pixel_luma_max() == 655350000,
        ;
        assert(n * pixel_luma_max() == (n - 1) * pixel_luma_max() + pixel_luma_max()) by (nonlinear_arith);
    }
}

/// Average luma of a raster, as an exact fraction.
pub fn average_luma(r: &Raster) -> (l: LumaRatio)
    requires
        r.wf(),
    ensures
        l == luma_of(r@),
        l.numerator as int == luma_numerator(r@),
        l.denominator as int == luma_denominator(r@),
{
    let len: usize = r.data.len();
    let n: usize = len / 3;
    assert(n == pixel_count(r.width, r.height));
    let mut total: u128 = 0;
    let mut p: usize = 0;
    while p < n
        invariant
            r.wf(),
            n == pixel_count(r.width, r.height),
            3 * n == r.data@.len(),
            len == r.data@.len(),
            0 <= p <= n,
            total == luma_total(r.data@, p as int),
        decreases n - p,
    {
        proof {
            lemma_luma_total_bound(r.data@, p as int + 1);
            assert((p as int + 1) * pixel_luma_max() <= 0xffff_ffff_ffff_ffff * pixel_luma_max())
                by (nonlinear_arith)
                requires
                    p + 1 <= 0xffff_ffff_ffff_ffff,
                    pixel_luma_max() >= 0,
            ;
        }
        let red = r.data[3 * p] as u128;
        let green = r.data[3 * p + 1] as u128;
        let blue = r.data[3 * p + 2] as u128;
        total = total + WEIGHT_R * red + WEIGHT_G * green + WEIGHT_B * blue;
        p += 1;
    }
    let denominator: u128 = if n == 0 {
        1
    } else {
        assert((n as int) * pixel_luma_max() <= 0xffff_ffff_ffff_ffff * pixel_luma_max())
            by (nonlinear_arith)
            requires
                n <= 0xffff_ffff_ffff_ffff,
                pixel_luma_max() >= 0,
        ;
        (n as u128) * (WEIGHT_SCALE * (CHANNEL_MAX as u128))
    };
    LumaRatio { numerator: total, denominator }
}

proof fn lemma_luma_total_constant(d: Seq<u16>, n: int, c: u16)
    requires
        0 <= n,
        3 * n <= d.len(),
        forall|k: int| 0 <= k < d.len() ==> d[k] == c,
    ensures
        luma_total(d, n) == n * 10000 * (c as int),
    decreases n,
{
    if n > 0 {
        lemma_luma_total_constant(d, n - 1, c);
        let p = n - 1;
        assert(d[3 * p] == c && d[3 * p + 1] == c && d[3 * p + 2] == c);
        assert(pixel_luma(d, p) == 10000 * (c as int)) by (nonlinear_arith)
            requires
                pixel_luma(d, p) == 2126 * (d[3 * p] as int) + 7152 * (d[3 * p + 1] as int) + 722 * (
                d[3 * p + 2] as int),
                d[3 * p] == c,
                d[3 * p + 1] == c,
                d[3 * p + 2] == c,
        ;
        assert(n * 10000 * (c as int) == (n - 1) * 10000 * (c as int) + 10000 * (c as int))
            by (nonlinear_arith);
    } else {
        assert(n * 10000 * (c as int) == 0) by (nonlinear_arith)
            requires n == 0;
    }
}

/// A raster whose channels are all zero has average luma zero.
pub proof fn lemma_black_luma(v: RasterView)
    requires
        v.wf(),
        forall|k: int| 0 <= k < v.data.len() ==> v.data[k] == 0,
    ensures
        luma_numerator(v) == 0,
        luma_denominator(v) > 0,
{
    lemma_luma_total_constant(v.data, pixel_count(v.width, v.height) as int, 0);
    assert(pixel_count(v.width, v.height) * pixel_luma_max() >= 0) by (nonlinear_arith);
    if pixel_count(v.width, v.height) > 0 {
        assert(pixel_count(v.width, v.height) * pixel_luma_max() > 0) by (nonlinear_arith)
            requires pixel_count(v.width, v.height) > 0, pixel_luma_max() > 0;
    }
}

/// A raster with at least one pixel whose channels all hold the largest
/// value has average luma one.
pub proof fn lemma_white_luma(v: RasterView)
    requires
        v.wf(),
        pixel_count(v.width, v.height) > 0,
        forall|k: int| 0 <= k < v.data.len() ==> v.data[k] == CHANNEL_MAX,
    ensures
        luma_numerator(v) == luma_denominator(v),
        luma_denominator(v) > 0,
{
    let n = pixel_count(v.width, v.height) as int;
    lemma_luma_total_constant(v.data, n, CHANNEL_MAX);
    assert(n * 10000 * 65535 == n * (10000 * 65535)) by (nonlinear_arith);
    assert(n * pixel_luma_max() > 0) by (nonlinear_arith)
        requires n > 0, pixel_luma_max() > 0;
}

/// A raster with no pixels has average luma zero.
pub proof fn lemma_empty_luma(v: RasterView)
    requires
        pixel_count(v.width, v.height) == 0,
    ensures
        luma_numerator(v) == 0,
        luma_denominator(v) == 1,
{
}

} // verus!
