use probability::{Error, Gamma, Quotient, Ratio};

#[test]
fn gamma_rejects_zero_shape() {
    assert_eq!(Gamma::new(Ratio::whole(0), Ratio::whole(1)).unwrap_err(), Error::InvalidParameter);
}

#[test]
fn gamma_rejects_zero_scale_or_denominator() {
    assert_eq!(Gamma::new(Ratio::whole(1), Ratio::whole(0)).unwrap_err(), Error::InvalidParameter);
    assert_eq!(Gamma::new(Ratio::new(1, 0), Ratio::whole(1)).unwrap_err(), Error::InvalidParameter);
    assert_eq!(Gamma::new(Ratio::whole(1), Ratio::new(1, 0)).unwrap_err(), Error::InvalidParameter);
}

#[test]
fn gamma_accessors_return_parameters() {
    let g = Gamma::new(Ratio::new(3, 2), Ratio::new(5, 7)).unwrap();
    assert_eq!(g.k(), Ratio::new(3, 2));
    assert_eq!(g.theta(), Ratio::new(5, 7));
}

#[test]
fn gamma_exact_moments() {
    let g = Gamma::new(Ratio::new(3, 2), Ratio::new(5, 7)).unwrap();
    assert_eq!(g.mean(), Quotient { num: 15, den: 14 });
    assert_eq!(g.variance(), Some(Quotient { num: 75, den: 98 }));
    assert_eq!(g.kurtosis(), Quotient { num: 21, den: 3 });
    assert_eq!(g.modes(), vec![Quotient { num: 5, den: 14 }]);
}

#[test]
fn gamma_small_shape_has_no_mode() {
    let g = Gamma::new(Ratio::new(1, 2), Ratio::whole(1)).unwrap();
    assert!(g.modes().is_empty());
}

#[test]
fn gamma_variance_too_large() {
    let g = Gamma::new(Ratio::whole(u64::MAX), Ratio::whole(u64::MAX)).unwrap();
    assert_eq!(g.variance(), None);
    assert_eq!(g.mean(), Quotient { num: u64::MAX as u128 * u64::MAX as u128, den: 1 });
}
