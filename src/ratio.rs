use vstd::prelude::*;

verus! {

/// A non-negative rational number `num / den`, used for parameters.
///
/// A parameter is valid when it is strictly positive: both parts are non-zero.
#[derive(Debug, Clone, Copy, PartialEq, Eq, Structural)]
pub struct Ratio {
    pub num: u64,
    pub den: u64,
}

/// An exact rational result `num / den`, kept as computed (not reduced).
#[derive(Debug, Clone, Copy, PartialEq, Eq, Structural)]
pub struct Quotient {
    pub num: u128,
    pub den: u128,
}

impl Ratio {
    /// Strictly positive, and so a valid shape, scale or rate.
    pub open spec fn is_positive(self) -> bool {
        self.num > 0 && self.den > 0
    }

    /// The number `num / den`.
    pub fn new(num: u64, den: u64) -> (r: Ratio)
        ensures
            r.num == num,
            r.den == den,
    {
        Ratio { num, den }
    }

    /// The whole number `n`, as `n / 1`.
    pub fn whole(n: u64) -> (r: Ratio)
        ensures
            r.num == n,
            r.den == 1,
    {
        Ratio { num: n, den: 1 }
    }

    /// Tells whether the number is strictly positive.
    pub fn positive(&self) -> (r: bool)
        ensures
            r == self.is_positive(),
    {
        self.num > 0 && self.den > 0
    }

    /// The reciprocal `den / num`.
    pub fn recip(&self) -> (r: Ratio)
        ensures
            r.num == self.den,
            r.den == self.num,
    {
        Ratio { num: self.den, den: self.num }
    }
}

impl Quotient {
    /// The pair (numerator, denominator) as mathematical integers.
    pub open spec fn pair(self) -> (int, int) {
        (self.num as int, self.den as int)
    }
}

} // verus!
