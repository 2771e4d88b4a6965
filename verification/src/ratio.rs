//! Exact fractions, used wherever a score or a ratio is reported.

use vstd::prelude::*;

verus! {

/// The fraction `num / den`, kept exact.
///
/// A denominator of zero is allowed: with a positive numerator the fraction is
/// larger than every number, with a zero numerator it has no value.
#[derive(Clone, Copy, Debug, PartialEq, Eq, Structural)]
pub struct Ratio {
    pub num: u128,
    pub den: u128,
}

/// The largest numerator or denominator of a fraction that is compared with a
/// score threshold.
pub const SCORE_LIMIT: u128 = 0x1_0000_0000_0000_0000_0000;

impl Ratio {
    /// Numerator and denominator leave room for a comparison with a threshold
    /// of small terms.
    pub open spec fn moderate(self) -> bool {
        self.num <= SCORE_LIMIT && self.den <= SCORE_LIMIT
    }

    /// `self` and `other` denote the same number.
    pub open spec fn same_value(self, other: Ratio) -> bool {
        self.num * other.den == other.num * self.den
    }

    /// `self` is strictly smaller than `other`.
    pub open spec fn below(self, other: Ratio) -> bool {
        self.num * other.den < other.num * self.den
    }

    /// `self` is strictly larger than `other`.
    pub open spec fn above(self, other: Ratio) -> bool {
        other.below(self)
    }

    /// `self` is strictly larger than zero.
    pub open spec fn positive(self) -> bool {
        self.num > 0
    }

    /// `self` lies in the closed interval from zero to one.
    pub open spec fn unit(self) -> bool {
        self.den > 0 && self.num <= self.den
    }

    /// Both cross products of a comparison with `other` fit the machine word.
    pub open spec fn comparable(self, other: Ratio) -> bool {
        self.num * other.den <= u128::MAX && other.num * self.den <= u128::MAX
    }

    /// `self` is the arithmetic mean of `a`, `b` and `c`.
    pub open spec fn is_mean_of(self, a: Ratio, b: Ratio, c: Ratio) -> bool {
        3 * self.num * (a.den * b.den * c.den) == self.den * (a.num * b.den * c.den + b.num
            * a.den * c.den + c.num * a.den * b.den)
    }

    /// The mean of `a`, `b` and `c` over their common denominator.
    pub open spec fn mean(a: Ratio, b: Ratio, c: Ratio) -> Ratio {
        Ratio {
            num: (a.num * b.den * c.den + b.num * a.den * c.den + c.num * a.den * b.den) as u128,
            den: (3 * a.den * b.den * c.den) as u128,
        }
    }

    /// The common denominator and each term of the mean fit the machine word.
    pub open spec fn mean_fits(a: Ratio, b: Ratio, c: Ratio) -> bool {
        &&& a.den > 0 && b.den > 0 && c.den > 0
        &&& 3 * a.den * b.den * c.den <= u128::MAX
        &&& a.num * b.den * c.den + b.num * a.den * c.den + c.num * a.den * b.den <= u128::MAX
    }

    /// Builds `num / den`.
    pub fn new(num: u128, den: u128) -> (r: Ratio)
        ensures
            r.num == num,
            r.den == den,
    {
        Ratio { num, den }
    }

    /// Tells whether `self` is strictly smaller than `other`.
    pub fn is_below(&self, other: &Ratio) -> (b: bool)
        requires
            self.comparable(*other),
        ensures
            b == self.below(*other),
    {
        self.num * other.den < other.num * self.den
    }

    /// Tells whether `self` is strictly larger than `other`.
    pub fn is_above(&self, other: &Ratio) -> (b: bool)
        requires
            self.comparable(*other),
        ensures
            b == self.above(*other),
    {
        other.num * self.den < self.num * other.den
    }

    /// The arithmetic mean of three fractions.
    pub fn mean_of_three(a: &Ratio, b: &Ratio, c: &Ratio) -> (m: Ratio)
        requires
            Ratio::mean_fits(*a, *b, *c),
        ensures
            m == Ratio::mean(*a, *b, *c),
            m.is_mean_of(*a, *b, *c),
    {
        proof {
            lemma_mean_terms_fit(*a, *b, *c);
            lemma_mean_is_mean(*a, *b, *c);
        }
        let ab: u128 = a.den * b.den;
        let den: u128 = 3 * ab * c.den;
        let ta: u128 = a.num * b.den * c.den;
        let tb: u128 = b.num * a.den * c.den;
        let tc: u128 = c.num * ab;
        Ratio { num: ta + tb + tc, den }
    }
}

/// Every partial product of the mean stays within its final bounds.
proof fn lemma_mean_terms_fit(a: Ratio, b: Ratio, c: Ratio)
    requires
        Ratio::mean_fits(a, b, c),
    ensures
        a.den * b.den <= u128::MAX,
        3 * (a.den * b.den) <= u128::MAX,
        3 * (a.den * b.den) * c.den == 3 * a.den * b.den * c.den,
        a.num * b.den <= u128::MAX,
        b.num * a.den <= u128::MAX,
        a.num * b.den * c.den <= u128::MAX,
        b.num * a.den * c.den <= u128::MAX,
        c.num * (a.den * b.den) == c.num * a.den * b.den,
        c.num * (a.den * b.den) <= u128::MAX,
{
    let (an, ad) = (a.num as int, a.den as int);
    let (bn, bd) = (b.num as int, b.den as int);
    let (cn, cd) = (c.num as int, c.den as int);
    assert(3 * (ad * bd) * cd == 3 * ad * bd * cd) by (nonlinear_arith);
    assert(ad * bd <= 3 * (ad * bd) <= 3 * (ad * bd) * cd) by (nonlinear_arith)
        requires
            ad > 0,
            bd > 0,
            cd > 0,
    ;
    assert(cn * (ad * bd) == cn * ad * bd) by (nonlinear_arith);
    assert(0 <= an * bd <= an * bd * cd) by (nonlinear_arith)
        requires
            an >= 0,
            bd > 0,
            cd > 0,
    ;
    assert(0 <= bn * ad <= bn * ad * cd) by (nonlinear_arith)
        requires
            bn >= 0,
            ad > 0,
            cd > 0,
    ;
    assert(0 <= cn * ad * bd) by (nonlinear_arith)
        requires
            cn >= 0,
            ad > 0,
            bd > 0,
    ;
}

/// The fraction that `Ratio::mean` builds is the mean of its arguments.
pub proof fn lemma_mean_is_mean(a: Ratio, b: Ratio, c: Ratio)
    requires
        Ratio::mean_fits(a, b, c),
    ensures
        Ratio::mean(a, b, c).is_mean_of(a, b, c),
{
    let (ad, bd, cd) = (a.den as int, b.den as int, c.den as int);
    let sum = a.num * b.den * c.den + b.num * a.den * c.den + c.num * a.den * b.den;
    assert(3 * sum * (ad * bd * cd) == (3 * ad * bd * cd) * sum) by (nonlinear_arith);
}

} // verus!
