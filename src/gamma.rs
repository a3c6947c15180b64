use vstd::prelude::*;

use crate::error::Error;
use crate::ratio::{Quotient, Ratio};

verus! {

/// Whether both parts of an exact rational fit in a `u128`.
pub open spec fn fits(p: (int, int)) -> bool {
    0 <= p.0 <= u128::MAX && 0 <= p.1 <= u128::MAX
}

/// The mean `k·θ`, as (numerator, denominator).
pub open spec fn mean_of(k: Ratio, theta: Ratio) -> (int, int) {
    (k.num * theta.num, k.den * theta.den)
}

/// The variance `k·θ²`, as (numerator, denominator).
pub open spec fn variance_of(k: Ratio, theta: Ratio) -> (int, int) {
    (k.num * theta.num * theta.num, k.den * theta.den * theta.den)
}

/// The kurtosis `3 + 6/k`, as (numerator, denominator): `(3a + 6b) / a` for `k = a/b`.
pub open spec fn kurtosis_of(k: Ratio) -> (int, int) {
    (3 * k.num + 6 * k.den, k.num as int)
}

/// The density has an interior maximum exactly when `k ≥ 1`.
pub open spec fn has_mode(k: Ratio) -> bool {
    k.num >= k.den
}

/// The mode `(k - 1)·θ`, as (numerator, denominator), where `k ≥ 1`.
pub open spec fn mode_of(k: Ratio, theta: Ratio) -> (int, int) {
    ((k.num - k.den) * theta.num, k.den * theta.den)
}

/// The product of two `u64` values always fits in a `u128`.
proof fn lemma_product_fits(a: u64, b: u64)
    ensures
        0 <= a * b <= u128::MAX,
{
    assert(0 <= a * b <= u64::MAX * u64::MAX) by (nonlinear_arith);
}

/// A gamma distribution with shape `k` and scale `θ`, both exact rationals.
#[derive(Debug, Clone, Copy)]
pub struct Gamma {
    k: Ratio,
    theta: Ratio,
}

impl Gamma {
    #[verifier::type_invariant]
    spec fn inv(self) -> bool {
        self.k.is_positive() && self.theta.is_positive()
    }

    /// The shape parameter `k`.
    pub closed spec fn shape(self) -> Ratio {
        self.k
    }

    /// The scale parameter `θ`.
    pub closed spec fn scale(self) -> Ratio {
        self.theta
    }

    /// Two gamma distributions with the same shape and scale are the same value.
    pub proof fn lemma_same_parameters(a: Gamma, b: Gamma)
        requires
            a.shape() == b.shape(),
            a.scale() == b.scale(),
        ensures
            a == b,
    {
    }

    /// Create a gamma distribution with shape `k` and scale `theta`.
    ///
    /// Both must be strictly positive; otherwise the result is
    /// `Error::InvalidParameter`.
    pub fn new(k: Ratio, theta: Ratio) -> (r: Result<Gamma, Error>)
        ensures
            r.is_ok() <==> k.is_positive() && theta.is_positive(),
            r matches Ok(g) ==> g.shape() == k && g.scale() == theta,
            r matches Err(e) ==> e == Error::InvalidParameter,
    {
        if k.positive() && theta.positive() {
            Ok(Gamma { k, theta })
        } else {
            Err(Error::InvalidParameter)
        }
    }

    /// Return the shape parameter `k`.
    pub fn k(&self) -> (r: Ratio)
        ensures
            r == self.shape(),
            r.is_positive(),
    {
        proof { use_type_invariant(self); }
        self.k
    }

    /// Return the scale parameter `θ`.
    pub fn theta(&self) -> (r: Ratio)
        ensures
            r == self.scale(),
            r.is_positive(),
    {
        proof { use_type_invariant(self); }
        self.theta
    }

    /// The mean `k·θ`.
    pub fn mean(&self) -> (r: Quotient)
        ensures
            r.pair() == mean_of(self.shape(), self.scale()),
    {
        proof {
            lemma_product_fits(self.k.num, self.theta.num);
            lemma_product_fits(self.k.den, self.theta.den);
        }
        Quotient {
            num: self.k.num as u128 * self.theta.num as u128,
            den: self.k.den as u128 * self.theta.den as u128,
        }
    }

    /// The variance `k·θ²`, or `None` where its numerator or denominator
    /// does not fit in a `u128`.
    pub fn variance(&self) -> (r: Option<Quotient>)
        ensures
            r.is_some() <==> fits(variance_of(self.shape(), self.scale())),
            r matches Some(q) ==> q.pair() == variance_of(self.shape(), self.scale()),
    {
        proof {
            lemma_product_fits(self.k.num, self.theta.num);
            lemma_product_fits(self.k.den, self.theta.den);
        }
        let num = (self.k.num as u128 * self.theta.num as u128).checked_mul(self.theta.num as u128);
        let den = (self.k.den as u128 * self.theta.den as u128).checked_mul(self.theta.den as u128);
        match (num, den) {
            (Some(num), Some(den)) => Some(Quotient { num, den }),
            _ => None,
        }
    }

    /// The kurtosis `3 + 6/k`.
    pub fn kurtosis(&self) -> (r: Quotient)
        ensures
            r.pair() == kurtosis_of(self.shape()),
    {
        Quotient {
            num: 3 * (self.k.num as u128) + 6 * (self.k.den as u128),
            den: self.k.num as u128,
        }
    }

    /// The modes: the single point `(k - 1)·θ` where `k ≥ 1`, and none
    /// where `k < 1`, as the density then grows without bound towards zero.
    pub fn modes(&self) -> (r: Vec<Quotient>)
        ensures
            r@.len() == if has_mode(self.shape()) { 1int } else { 0int },
            has_mode(self.shape()) ==> r@[0].pair() == mode_of(self.shape(), self.scale()),
    {
        if self.k.num >= self.k.den {
            proof {
                lemma_product_fits((self.k.num - self.k.den) as u64, self.theta.num);
                lemma_product_fits(self.k.den, self.theta.den);
            }
            let mode = Quotient {
                num: (self.k.num - self.k.den) as u128 * self.theta.num as u128,
                den: self.k.den as u128 * self.theta.den as u128,
            };
            vec![mode]
        } else {
            Vec::new()
        }
    }
}

} // verus!
