use vstd::prelude::*;

use crate::error::Error;
use crate::gamma::{fits, has_mode, kurtosis_of, mean_of, mode_of, variance_of, Gamma};
use crate::ratio::{Quotient, Ratio};

verus! {

/// An Erlang distribution with shape `k` and rate `λ`.
///
/// It is the gamma distribution with shape `k` and scale `1/λ`, which it owns
/// and to which it hands every statistic.
#[derive(Debug, Clone, Copy)]
pub struct Erlang(Gamma);

impl Erlang {
    #[verifier::type_invariant]
    spec fn inv(self) -> bool {
        &&& self.0.shape().den == 1
        &&& self.0.shape().num > 0
        &&& self.0.scale().is_positive()
    }

    /// The gamma distribution that this one is.
    pub closed spec fn gamma(self) -> Gamma {
        self.0
    }

    /// The shape `k`.
    pub closed spec fn shape(self) -> int {
        self.0.shape().num as int
    }

    /// The rate `λ`, the reciprocal of the gamma scale.
    pub closed spec fn rate(self) -> Ratio {
        Ratio { num: self.0.scale().den, den: self.0.scale().num }
    }

    /// Create an Erlang distribution with shape `k` and rate `l`.
    ///
    /// Both must be strictly positive; otherwise the result is
    /// `Error::InvalidParameter`.
    pub fn new(k: u64, l: Ratio) -> (r: Result<Erlang, Error>)
        ensures
            r.is_ok() <==> k > 0 && l.is_positive(),
            r matches Ok(e) ==> {
                &&& e.shape() == k
                &&& e.rate() == l
                &&& e.gamma().shape() == (Ratio { num: k, den: 1 })
                &&& e.gamma().scale() == (Ratio { num: l.den, den: l.num })
            },
            r matches Err(e) ==> e == Error::InvalidParameter,
    {
        match Gamma::new(Ratio::whole(k), l.recip()) {
            Ok(gamma) => Ok(Erlang(gamma)),
            Err(e) => Err(e),
        }
    }

    /// Return the gamma distribution that this one is.
    pub fn as_gamma(&self) -> (r: Gamma)
        ensures
            r == self.gamma(),
    {
        self.0
    }

    /// Return the shape parameter `k`.
    pub fn k(&self) -> (r: u64)
        ensures
            r == self.shape(),
            r > 0,
            r == self.gamma().shape().num,
    {
        proof { use_type_invariant(self); }
        self.0.k().num
    }

    /// Return the rate parameter `λ`, the reciprocal of the gamma scale.
    pub fn l(&self) -> (r: Ratio)
        ensures
            r == self.rate(),
            r.is_positive(),
    {
        proof { use_type_invariant(self); }
        self.0.theta().recip()
    }

    /// The mean, `k/λ`.
    pub fn mean(&self) -> (r: Quotient)
        ensures
            r.pair() == mean_of(self.gamma().shape(), self.gamma().scale()),
            r.pair() == (self.shape() * self.rate().den, self.rate().num as int),
    {
        proof { use_type_invariant(self); }
        self.0.mean()
    }

    /// The variance, `k/λ²`, or `None` where its numerator or denominator
    /// does not fit in a `u128`.
    pub fn variance(&self) -> (r: Option<Quotient>)
        ensures
            r.is_some() <==> fits(variance_of(self.gamma().shape(), self.gamma().scale())),
            r matches Some(q) ==> q.pair() == variance_of(
                self.gamma().shape(),
                self.gamma().scale(),
            ),
            r matches Some(q) ==> q.pair() == (
                self.shape() * self.rate().den * self.rate().den,
                self.rate().num * self.rate().num,
            ),
    {
        proof { use_type_invariant(self); }
        self.0.variance()
    }

    /// The kurtosis, `3 + 6/k`.
    pub fn kurtosis(&self) -> (r: Quotient)
        ensures
            r.pair() == kurtosis_of(self.gamma().shape()),
            r.pair() == (3 * self.shape() + 6, self.shape()),
    {
        proof { use_type_invariant(self); }
        self.0.kurtosis()
    }

    /// The modes: the single point `(k − 1)/λ`.
    pub fn modes(&self) -> (r: Vec<Quotient>)
        ensures
            r@.len() == 1,
            has_mode(self.gamma().shape()),
            r@[0].pair() == mode_of(self.gamma().shape(), self.gamma().scale()),
            r@[0].pair() == ((self.shape() - 1) * self.rate().den, self.rate().num as int),
    {
        proof { use_type_invariant(self); }
        self.0.modes()
    }
}

/// An Erlang distribution with shape `k` and rate `λ` and the gamma
/// distribution with shape `k` and scale `1/λ` are one and the same value,
/// and so have the same mean, variance, kurtosis and modes.
pub proof fn lemma_erlang_is_gamma(k: u64, l: Ratio, e: Erlang, g: Gamma)
    requires
        k > 0,
        l.is_positive(),
        e.gamma().shape() == (Ratio { num: k, den: 1 }),
        e.gamma().scale() == (Ratio { num: l.den, den: l.num }),
        g.shape() == (Ratio { num: k, den: 1 }),
        g.scale() == (Ratio { num: l.den, den: l.num }),
    ensures
        e.gamma() == g,
        mean_of(e.gamma().shape(), e.gamma().scale()) == mean_of(g.shape(), g.scale()),
        variance_of(e.gamma().shape(), e.gamma().scale()) == variance_of(g.shape(), g.scale()),
        kurtosis_of(e.gamma().shape()) == kurtosis_of(g.shape()),
        has_mode(e.gamma().shape()) == has_mode(g.shape()),
        mode_of(e.gamma().shape(), e.gamma().scale()) == mode_of(g.shape(), g.scale()),
{
    Gamma::lemma_same_parameters(e.gamma(), g);
}

} // verus!
