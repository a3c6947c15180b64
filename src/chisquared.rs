use vstd::prelude::*;

use crate::error::Error;
use crate::gamma::{fits, has_mode, kurtosis_of, mean_of, mode_of, variance_of, Gamma};
use crate::ratio::{Quotient, Ratio};

verus! {

/// The Wilson–Hilferty median `k·(1 − 2/(9k))³ = (9k − 2)³ / (729·k²)`, as
/// (numerator, denominator).
pub open spec fn median_of(k: int) -> (int, int) {
    ((9 * k - 2) * (9 * k - 2) * (9 * k - 2), 729 * k * k)
}

/// A chi-squared distribution with `k` degrees of freedom.
///
/// It is the gamma distribution with shape `k/2` and scale 2, which it owns
/// and to which it hands every statistic but the median.
#[derive(Debug, Clone, Copy)]
pub struct Chisquared {
    gamma: Gamma,
}

impl Chisquared {
    #[verifier::type_invariant]
    spec fn inv(self) -> bool {
        &&& self.gamma.shape().den == 2
        &&& self.gamma.shape().num > 0
        &&& self.gamma.scale() == Ratio { num: 2, den: 1 }
    }

    /// The gamma distribution that this one is.
    pub closed spec fn gamma(self) -> Gamma {
        self.gamma
    }

    /// The degrees of freedom `k`.
    pub closed spec fn dof(self) -> int {
        self.gamma.shape().num as int
    }

    /// Create a chi-squared distribution with `k` degrees of freedom.
    ///
    /// `k` must be positive; otherwise the result is `Error::InvalidParameter`.
    pub fn new(k: u64) -> (r: Result<Chisquared, Error>)
        ensures
            r.is_ok() <==> k > 0,
            r matches Ok(c) ==> {
                &&& c.dof() == k
                &&& c.gamma().shape() == (Ratio { num: k, den: 2 })
                &&& c.gamma().scale() == (Ratio { num: 2, den: 1 })
            },
            r matches Err(e) ==> e == Error::InvalidParameter,
    {
        match Gamma::new(Ratio::new(k, 2), Ratio::whole(2)) {
            Ok(gamma) => Ok(Chisquared { gamma }),
            Err(e) => Err(e),
        }
    }

    /// Return the gamma distribution that this one is.
    pub fn as_gamma(&self) -> (r: Gamma)
        ensures
            r == self.gamma(),
    {
        self.gamma
    }

    /// Return the degrees of freedom `k`: twice the shape of the gamma
    /// distribution behind this one.
    pub fn k(&self) -> (r: u64)
        ensures
            r == self.dof(),
            r > 0,
            r * self.gamma().shape().den == 2 * self.gamma().shape().num,
    {
        proof { use_type_invariant(self); }
        self.gamma.k().num
    }

    /// The mean, `k`.
    pub fn mean(&self) -> (r: Quotient)
        ensures
            r.pair() == mean_of(self.gamma().shape(), self.gamma().scale()),
            r.pair() == (2 * self.dof(), 2int),
    {
        proof { use_type_invariant(self); }
        self.gamma.mean()
    }

    /// The variance, `2k`.
    pub fn variance(&self) -> (r: Quotient)
        ensures
            r.pair() == variance_of(self.gamma().shape(), self.gamma().scale()),
            r.pair() == (4 * self.dof(), 2int),
    {
        proof { use_type_invariant(self); }
        let v = self.gamma.variance();
        match v {
            Some(q) => q,
            None => {
                // 4k and 2 always fit, so the gamma variance is there.
                proof { assert(false); }
                Quotient { num: 0, den: 1 }
            },
        }
    }

    /// The kurtosis, `3 + 12/k`.
    pub fn kurtosis(&self) -> (r: Quotient)
        ensures
            r.pair() == kurtosis_of(self.gamma().shape()),
            r.pair() == (3 * self.dof() + 12, self.dof()),
    {
        proof { use_type_invariant(self); }
        self.gamma.kurtosis()
    }

    /// The modes: `k − 2` where `k ≥ 2`, none where `k = 1`.
    pub fn modes(&self) -> (r: Vec<Quotient>)
        ensures
            r@.len() == if has_mode(self.gamma().shape()) { 1int } else { 0int },
            has_mode(self.gamma().shape()) ==> r@[0].pair() == mode_of(
                self.gamma().shape(),
                self.gamma().scale(),
            ),
            has_mode(self.gamma().shape()) <==> self.dof() >= 2,
            self.dof() >= 2 ==> r@[0].pair() == (2 * (self.dof() - 2), 2int),
    {
        proof { use_type_invariant(self); }
        self.gamma.modes()
    }

    /// The median by the Wilson–Hilferty approximation,
    /// `k·(1 − 2/(9k))³`, or `None` where its numerator or denominator does
    /// not fit in a `u128`.
    pub fn median(&self) -> (r: Option<Quotient>)
        ensures
            r.is_some() <==> fits(median_of(self.dof())),
            r matches Some(q) ==> q.pair() == median_of(self.dof()),
    {
        proof { use_type_invariant(self); }
        let k = self.k() as u128;
        let t: u128 = 9 * k - 2;
        assert(0 < k * k <= u64::MAX * u64::MAX) by (nonlinear_arith)
            requires 0 < k <= u64::MAX;
        let kk = k * k;
        let den = kk.checked_mul(729);
        let cube = match t.checked_mul(t) {
            Some(square) => square.checked_mul(t),
            None => {
                proof {
                    assert(t * t <= t * t * t) by (nonlinear_arith) requires t >= 1;
                }
                None
            },
        };
        proof {
            assert(k * k * 729 == 729 * k * k) by (nonlinear_arith);
        }
        match (cube, den) {
            (Some(num), Some(den)) => Some(Quotient { num, den }),
            _ => None,
        }
    }
}

/// A chi-squared distribution with `k` degrees of freedom and the gamma
/// distribution with shape `k/2` and scale 2 are one and the same value, and
/// so have the same mean, variance, kurtosis and modes.
pub proof fn lemma_chisquared_is_gamma(k: u64, c: Chisquared, g: Gamma)
    requires
        k > 0,
        c.gamma().shape() == (Ratio { num: k, den: 2 }),
        c.gamma().scale() == (Ratio { num: 2, den: 1 }),
        g.shape() == (Ratio { num: k, den: 2 }),
        g.scale() == (Ratio { num: 2, den: 1 }),
    ensures
        c.gamma() == g,
        mean_of(c.gamma().shape(), c.gamma().scale()) == mean_of(g.shape(), g.scale()),
        variance_of(c.gamma().shape(), c.gamma().scale()) == variance_of(g.shape(), g.scale()),
        kurtosis_of(c.gamma().shape()) == kurtosis_of(g.shape()),
        has_mode(c.gamma().shape()) == has_mode(g.shape()),
        mode_of(c.gamma().shape(), c.gamma().scale()) == mode_of(g.shape(), g.scale()),
{
    Gamma::lemma_same_parameters(c.gamma(), g);
}

} // verus!
