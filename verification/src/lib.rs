//! Conversion of limited-range 8-bit RGB samples to YCbCr with BT.709 luma
//! coefficients. Every quantity is carried as an exact rational with a fixed
//! denominator, so the arithmetic is integer arithmetic throughout and the
//! rounding of each output channel is stated and proved exactly.

use vstd::prelude::*;

verus! {

/// One normalized color component, held exactly as the rational `num / 219`.
///
/// A limited-range 8-bit sample occupies [16, 235]; shifting by the footroom
/// 16 and dividing by the 219 usable steps maps it onto [0, 1]. Holding the
/// numerator keeps the value exact: `num == 0` is 0.0 and `num == 219` is 1.0.
#[derive(Clone, Copy, PartialEq, Eq, Structural, Debug)]
pub struct Normalized {
    /// Numerator of the component over the fixed denominator 219.
    pub num: u8,
}

impl Normalized {
    /// A component is well formed when it lies in [0, 1], that is `num <= 219`.
    pub open spec fn wf(self) -> bool {
        self.num <= 219
    }
}

/// The numerator that the limited-range normalizer assigns: the sample with
/// the footroom 16 subtracted (the denominator 219 is fixed by `Normalized`).
pub open spec fn limited_range_num(value: int) -> int {
    value - 16
}

/// BT.709 luma weights kr = 0.2126, kg = 0.7152, kb = 0.0722, scaled by
/// 10000. Applied to component numerators this is the luma numerator over
/// the denominator 219 * 10000; the weights sum to 10000, so equal
/// components give back the component itself.
pub open spec fn luma_num(r: int, g: int, b: int) -> int {
    2126 * r + 7152 * g + 722 * b
}

/// The nonnegative rational `n / d` rounded to the nearest integer, halves
/// away from zero: floor(n/d + 1/2), written as one euclidean division.
pub open spec fn round_to_nearest(n: int, d: int) -> int
    recommends
        0 <= n,
        0 < d,
{
    (2 * n + d) / (2 * d)
}

/// Luma channel: Y = round(16 + 219 * yp) with yp = luma_num / (219 * 10000).
/// The factor 219 cancels, leaving 16 + round(luma_num / 10000).
pub open spec fn y_of(r: int, g: int, b: int) -> int {
    16 + round_to_nearest(luma_num(r, g, b), 10000)
}

/// Numerator of the blue-difference channel before rounding, over the
/// denominator 219 * 9278: Cb = 128 + 224 * pb with
/// pb = (b/219 - yp) / (2 * (1 - 0.0722)), brought over one denominator.
pub open spec fn cb_num(r: int, g: int, b: int) -> int {
    128 * (219 * 9278) + 112 * (10000 * b - luma_num(r, g, b))
}

/// Blue-difference chroma channel: `cb_num` rounded to the nearest integer.
pub open spec fn cb_of(r: int, g: int, b: int) -> int {
    round_to_nearest(cb_num(r, g, b), 219int * 9278)
}

/// Numerator of the red-difference channel before rounding, over the
/// denominator 219 * 7874: Cr = 128 + 224 * pr with
/// pr = (r/219 - yp) / (2 * (1 - 0.2126)), brought over one denominator.
pub open spec fn cr_num(r: int, g: int, b: int) -> int {
    128 * (219 * 7874) + 112 * (10000 * r - luma_num(r, g, b))
}

/// Red-difference chroma channel: `cr_num` rounded to the nearest integer.
pub open spec fn cr_of(r: int, g: int, b: int) -> int {
    round_to_nearest(cr_num(r, g, b), 219int * 7874)
}

/// Normalize a limited-range 8-bit component sample onto [0, 1].
///
/// Samples below the footroom 16 have no defined normalization (an unsigned
/// subtraction would wrap), and samples above 235 would leave [0, 1], so the
/// domain is exactly the limited range.
pub fn rgb_limited_range(value: u8) -> (n: Normalized)
    requires
        16 <= value <= 235,
    ensures
        n.wf(),
        n.num == limited_range_num(value as int),
{
    Normalized { num: value - 16 }
}

/// Convert one normalized RGB triple to limited-range 8-bit YCbCr using the
/// BT.709 luma coefficients.
///
/// Each channel is the exactly rounded value of its defining formula: no
/// intermediate is approximated, and no result needs clamping, since Y stays
/// in [16, 235] and Cb, Cr stay in [16, 240] for every well-formed input.
pub fn ycbcr_bt709(r: Normalized, g: Normalized, b: Normalized) -> (out: (u8, u8, u8))
    requires
        r.wf(),
        g.wf(),
        b.wf(),
    ensures
        out.0 == y_of(r.num as int, g.num as int, b.num as int),
        out.1 == cb_of(r.num as int, g.num as int, b.num as int),
        out.2 == cr_of(r.num as int, g.num as int, b.num as int),
        16 <= out.0 <= 235,
        16 <= out.1 <= 240,
        16 <= out.2 <= 240,
{
    let rn: u64 = r.num as u64;
    let gn: u64 = g.num as u64;
    let bn: u64 = b.num as u64;

    // Luma numerator over 219 * 10000; at most 10000 * 219 = 2_190_000.
    let lum: u64 = 2126 * rn + 7152 * gn + 722 * bn;
    let y: u64 = 16 + (2 * lum + 10000) / 20000;

    // Chroma numerators, grouped so that each stays nonnegative in u64:
    // 112 * lum <= 245_280_000, below each leading constant 128 * denominator.
    let cbn: u64 = 260080896 + 1120000 * bn - 112 * lum;
    let cb: u64 = (2 * cbn + 2031882) / 4063764;
    let crn: u64 = 220723968 + 1120000 * rn - 112 * lum;
    let cr: u64 = (2 * crn + 1724406) / 3448812;

    proof {
        assert(lum == luma_num(rn as int, gn as int, bn as int));
        assert(cbn == cb_num(rn as int, gn as int, bn as int));
        assert(crn == cr_num(rn as int, gn as int, bn as int));
        assert(16 <= y <= 235);
        assert(16 <= cb <= 240);
        assert(16 <= cr <= 240);
    }
    (y as u8, cb as u8, cr as u8)
}

/// The limited-range normalizer is monotone: a larger sample never gives a
/// smaller normalized component, and the two range ends land exactly on the
/// ends of [0, 1] (numerators 0 and 219 over the denominator 219).
pub proof fn lemma_limited_range_monotone(v1: int, v2: int)
    requires
        16 <= v1 <= v2 <= 235,
    ensures
        limited_range_num(v1) <= limited_range_num(v2),
        limited_range_num(16) == 0,
        limited_range_num(235) == 219,
{
}

/// Achromatic invariant: when the three normalized components are equal, the
/// luma weights sum away and both chroma channels sit exactly at the center
/// 128, whatever the common value is.
pub proof fn lemma_achromatic(v: int)
    ensures
        cb_of(v, v, v) == 128,
        cr_of(v, v, v) == 128,
{
    assert(luma_num(v, v, v) == 10000 * v);
    assert(cb_num(v, v, v) == 260080896);
    assert(cr_num(v, v, v) == 220723968);
    assert(round_to_nearest(260080896, 2031882) == 522193674int / 4063764);
    assert(round_to_nearest(220723968, 1724406) == 443172342int / 3448812);
    assert(522193674int / 4063764 == 128);
    assert(443172342int / 3448812 == 128);
}

} // verus!
