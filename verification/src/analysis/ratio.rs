//! Exact rational numbers, and their comparison with bounds given in
//! millionths.

use vstd::prelude::*;

verus! {

/// One, in millionths.
pub const MILLION: u64 = 1_000_000;

/// The rational number `num / den`.
///
/// A ratio is kept as it was computed, not in lowest terms: two ratios that
/// stand for the same number need not have equal fields.
#[derive(Clone, Copy, Debug, PartialEq, Eq)]
pub struct Ratio {
    /// Numerator.
    pub num: i128,
    /// Denominator, positive in every well-formed ratio.
    pub den: i128,
}

impl Ratio {
    /// The denominator is positive.
    pub open spec fn wf(self) -> bool {
        self.den > 0
    }

    /// The ratio lies in `[-ceiling, ceiling]`, and is small enough to be
    /// compared with any bound in millionths without overflow.
    pub open spec fn within(self, ceiling: int) -> bool {
        &&& self.den > 0
        &&& -(ceiling * self.den) <= self.num <= ceiling * self.den
        &&& ceiling * self.den * MILLION <= i128::MAX
    }

    /// The ratio is greater than `millionths / 1_000_000`.
    pub open spec fn above(self, millionths: int) -> bool {
        self.num * MILLION > millionths * self.den
    }

    /// The ratio is less than `millionths / 1_000_000`.
    pub open spec fn below(self, millionths: int) -> bool {
        self.num * MILLION < millionths * self.den
    }

    /// The absolute value of the ratio.
    pub open spec fn magnitude(self) -> Ratio {
        Ratio { num: if self.num < 0 { (-self.num) as i128 } else { self.num }, den: self.den }
    }

    /// The ratio `0 / 1`.
    pub fn zero() -> (r: Ratio)
        ensures
            r == (Ratio { num: 0, den: 1 }),
    {
        Ratio { num: 0, den: 1 }
    }

    /// The ratio `1 / 1`.
    pub fn one() -> (r: Ratio)
        ensures
            r == (Ratio { num: 1, den: 1 }),
    {
        Ratio { num: 1, den: 1 }
    }

    /// Absolute value.
    pub fn abs(&self) -> (r: Ratio)
        requires
            self.num > i128::MIN,
        ensures
            r == self.magnitude(),
            r.num >= 0,
            forall|ceiling: int| self.within(ceiling) ==> r.within(ceiling),
    {
        Ratio { num: if self.num < 0 { -self.num } else { self.num }, den: self.den }
    }

    /// Whether the ratio is greater than `millionths / 1_000_000`.
    ///
    /// `ceiling` is a bound on the ratio's magnitude that the caller knows.
    pub fn is_above(&self, millionths: u64, ceiling: u64) -> (r: bool)
        requires
            self.within(ceiling as int),
        ensures
            r == self.above(millionths as int),
    {
        proof {
            lemma_scaled_bounds(self.num as int, self.den as int, ceiling as int, millionths as int);
        }
        if (millionths as u128) >= (ceiling as u128) * (MILLION as u128) {
            false
        } else {
            self.num * (MILLION as i128) > (millionths as i128) * self.den
        }
    }

    /// Whether the ratio is less than `millionths / 1_000_000`.
    ///
    /// `ceiling` is a bound on the ratio's magnitude that the caller knows.
    pub fn is_below(&self, millionths: u64, ceiling: u64) -> (r: bool)
        requires
            self.within(ceiling as int),
        ensures
            r == self.below(millionths as int),
    {
        proof {
            lemma_scaled_bounds(self.num as int, self.den as int, ceiling as int, millionths as int);
        }
        if (millionths as u128) > (ceiling as u128) * (MILLION as u128) {
            true
        } else {
            self.num * (MILLION as i128) < (millionths as i128) * self.den
        }
    }
}

/// What comparing `num / den` with a bound in millionths needs to know of
/// the two products, for a ratio within `[-ceiling, ceiling]`.
proof fn lemma_scaled_bounds(num: int, den: int, ceiling: int, millionths: int)
    requires
        den > 0,
        -(ceiling * den) <= num <= ceiling * den,
        ceiling * den * 1_000_000 <= i128::MAX,
        millionths >= 0,
    ensures
        -(i128::MAX as int) <= num * 1_000_000 <= i128::MAX,
        millionths <= ceiling * 1_000_000 ==> 0 <= millionths * den <= i128::MAX,
        millionths >= ceiling * 1_000_000 ==> num * 1_000_000 <= millionths * den,
        millionths > ceiling * 1_000_000 ==> num * 1_000_000 < millionths * den,
{
    let top = ceiling * den * 1_000_000;
    assert(num * 1_000_000 <= top) by (nonlinear_arith)
        requires
            num <= ceiling * den,
            top == ceiling * den * 1_000_000,
    ;
    assert(num * 1_000_000 >= -top) by (nonlinear_arith)
        requires
            -(ceiling * den) <= num,
            top == ceiling * den * 1_000_000,
    ;
    assert(millionths * den >= 0) by (nonlinear_arith)
        requires
            millionths >= 0,
            den > 0,
    ;
    if millionths <= ceiling * 1_000_000 {
        assert(millionths * den <= top) by (nonlinear_arith)
            requires
                millionths <= ceiling * 1_000_000,
                den > 0,
                top == ceiling * den * 1_000_000,
        ;
    }
    if millionths >= ceiling * 1_000_000 {
        assert(millionths * den >= top) by (nonlinear_arith)
            requires
                millionths >= ceiling * 1_000_000,
                den > 0,
                top == ceiling * den * 1_000_000,
        ;
    }
    if millionths > ceiling * 1_000_000 {
        assert(millionths * den >= top + den) by (nonlinear_arith)
            requires
                millionths >= ceiling * 1_000_000 + 1,
                den > 0,
                top == ceiling * den * 1_000_000,
        ;
    }
}

} // verus!
