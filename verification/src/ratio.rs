//! Exact fractions, for bounds on a picture's shape and size.

use vstd::prelude::*;

verus! {

/// One million: the number of pixels in a megapixel.
pub const MEGAPIXEL: u32 = 1_000_000;

/// The fraction `numerator / denominator`. It stands for a bound that a
/// configuration sets: a ratio of width to height, or a number of megapixels.
#[derive(Debug, Copy, Clone, PartialEq, Eq, Structural)]
pub struct Ratio {
    pub numerator: u64,
    pub denominator: u64,
}

impl Ratio {
    /// A fraction is well formed when its denominator is not zero.
    pub open spec fn wf(self) -> bool {
        self.denominator > 0
    }

    /// Whether a picture is wide enough for this fraction as a lower bound:
    /// whether `width / height` is at least this fraction. A picture of height
    /// zero counts as infinitely wide if it has any width, and has no ratio at
    /// all if it has none.
    pub open spec fn min_ratio_met(self, width: int, height: int) -> bool {
        if height == 0 {
            width > 0
        } else {
            self.numerator * height <= width * self.denominator
        }
    }

    /// Whether a picture is tall enough for this fraction as an upper bound:
    /// whether `width / height` is at most this fraction. A picture of height
    /// zero is wider than every fraction, or has no ratio at all.
    pub open spec fn max_ratio_met(self, width: int, height: int) -> bool {
        height != 0 && width * self.denominator <= self.numerator * height
    }

    /// Whether a picture is big enough for this fraction as a lower bound:
    /// whether `width * height` pixels are at least this many megapixels.
    pub open spec fn min_size_met(self, width: int, height: int) -> bool {
        self.numerator * MEGAPIXEL <= width * height * self.denominator
    }

    /// The fraction `numerator / denominator`, or `None` where the denominator
    /// is zero.
    pub fn new(numerator: u64, denominator: u64) -> (r: Option<Ratio>)
        ensures
            denominator == 0 ==> r is None,
            denominator != 0 ==> r == Some(Ratio { numerator, denominator }),
            r matches Some(ratio) ==> ratio.wf(),
    {
        if denominator == 0 {
            None
        } else {
            Some(Ratio { numerator, denominator })
        }
    }

    /// Whether a picture of the given size is at least as wide, for its
    /// height, as this fraction says.
    pub fn check_min_ratio(&self, width: u32, height: u32) -> (r: bool)
        ensures
            r == self.min_ratio_met(width as int, height as int),
    {
        if height == 0 {
            return width > 0;
        }
        let bound: u128 = wide_product(self.numerator, height);
        let shape: u128 = wide_product(self.denominator, width);
        bound <= shape
    }

    /// Whether a picture of the given size is at most as wide, for its height,
    /// as this fraction says.
    pub fn check_max_ratio(&self, width: u32, height: u32) -> (r: bool)
        ensures
            r == self.max_ratio_met(width as int, height as int),
    {
        if height == 0 {
            return false;
        }
        let bound: u128 = wide_product(self.numerator, height);
        let shape: u128 = wide_product(self.denominator, width);
        shape <= bound
    }

    /// Whether a picture of the given size has at least as many megapixels as
    /// this fraction says.
    pub fn check_min_size(&self, width: u32, height: u32) -> (r: bool)
        ensures
            r == self.min_size_met(width as int, height as int),
    {
        let pixels: u64 = pixel_count(width, height);
        let bound: u128 = wide_product(self.numerator, MEGAPIXEL);
        assert(pixels * self.denominator <= u64::MAX * u64::MAX) by (nonlinear_arith)
            requires
                pixels <= u64::MAX,
                self.denominator <= u64::MAX,
        ;
        let size: u128 = (pixels as u128) * (self.denominator as u128);
        bound <= size
    }
}

/// The bounds on the ratio are inclusive: a picture whose ratio of width to
/// height is exactly the fraction meets it as a lower and as an upper bound.
/// One pixel narrower, it is too narrow for the lower bound; one pixel wider,
/// it is too wide for the upper bound.
pub proof fn lemma_ratio_bounds_are_inclusive(bound: Ratio, width: int, height: int)
    requires
        bound.wf(),
        height > 0,
        width * bound.denominator == bound.numerator * height,
    ensures
        bound.min_ratio_met(width, height),
        bound.max_ratio_met(width, height),
        !bound.min_ratio_met(width - 1, height),
        !bound.max_ratio_met(width + 1, height),
{
    assert((width - 1) * bound.denominator == width * bound.denominator - bound.denominator)
        by (nonlinear_arith);
    assert((width + 1) * bound.denominator == width * bound.denominator + bound.denominator)
        by (nonlinear_arith);
}

/// A picture meets a fraction as a lower bound, or is narrower than it; it
/// meets a fraction as an upper bound, or is wider: nothing lies between
/// meeting a bound and lying outside it.
pub proof fn lemma_ratio_bounds_are_sharp(bound: Ratio, width: int, height: int)
    requires
        bound.wf(),
        height > 0,
    ensures
        bound.min_ratio_met(width, height) <==> !(width * bound.denominator < bound.numerator
            * height),
        bound.max_ratio_met(width, height) <==> !(width * bound.denominator > bound.numerator
            * height),
{
}

/// The bound on the size is inclusive: a picture with exactly as many
/// megapixels as the fraction says meets it, and every picture with fewer
/// pixels does not.
pub proof fn lemma_size_bound_is_inclusive(
    bound: Ratio,
    width: int,
    height: int,
    less_wide: int,
    less_high: int,
)
    requires
        bound.wf(),
        width * height * bound.denominator == bound.numerator * MEGAPIXEL,
        less_wide * less_high < width * height,
    ensures
        bound.min_size_met(width, height),
        !bound.min_size_met(less_wide, less_high),
{
    let d = bound.denominator as int;
    let fewer = less_wide * less_high;
    let pixels = width * height;
    assert(fewer * d < pixels * d) by (nonlinear_arith)
        requires
            fewer < pixels,
            d > 0,
    ;
}

/// The product of a 64-bit and a 32-bit number, which fits in 128 bits.
fn wide_product(a: u64, b: u32) -> (p: u128)
    ensures
        p == a * b,
{
    assert(a * b <= u64::MAX * u32::MAX) by (nonlinear_arith)
        requires
            a <= u64::MAX,
            b <= u32::MAX,
    ;
    (a as u128) * (b as u128)
}

/// The number of pixels of a picture, which fits in 64 bits.
pub fn pixel_count(width: u32, height: u32) -> (p: u64)
    ensures
        p == width * height,
{
    assert(width * height <= u32::MAX * u32::MAX) by (nonlinear_arith)
        requires
            width <= u32::MAX,
            height <= u32::MAX,
    ;
    (width as u64) * (height as u64)
}

} // verus!
