use probability::{Erlang, Error, Gamma, Quotient, Ratio};

fn value(q: Quotient) -> f64 {
    q.num as f64 / q.den as f64
}

fn half() -> Ratio {
    Ratio::new(1, 2)
}

#[test]
fn erlang_mean() {
    assert_eq!(value(Erlang::new(5, half()).unwrap().mean()), 10.0);
}

#[test]
fn erlang_modes() {
    let modes: Vec<f64> = Erlang::new(5, half()).unwrap().modes().into_iter().map(value).collect();
    assert_eq!(modes, vec![8.0]);
}

#[test]
fn erlang_variance() {
    assert_eq!(value(Erlang::new(5, half()).unwrap().variance().unwrap()), 20.0);
}

#[test]
fn erlang_rejects_non_positive() {
    assert_eq!(Erlang::new(0, half()).unwrap_err(), Error::InvalidParameter);
    assert_eq!(Erlang::new(2, Ratio::new(0, 1)).unwrap_err(), Error::InvalidParameter);
    assert_eq!(Erlang::new(2, Ratio::new(1, 0)).unwrap_err(), Error::InvalidParameter);
}

#[test]
fn erlang_parameters_round_trip() {
    let e = Erlang::new(7, Ratio::new(3, 4)).unwrap();
    assert_eq!(e.k(), 7);
    assert_eq!(e.l(), Ratio::new(3, 4));
}

#[test]
fn erlang_exact_moments() {
    let e = Erlang::new(3, Ratio::new(2, 3)).unwrap();
    assert_eq!(e.mean(), Quotient { num: 9, den: 2 });
    assert_eq!(e.variance(), Some(Quotient { num: 27, den: 4 }));
    assert_eq!(e.kurtosis(), Quotient { num: 15, den: 3 });
    assert_eq!(e.modes(), vec![Quotient { num: 6, den: 2 }]);
}

#[test]
fn erlang_kurtosis_three_plus_six_over_k() {
    assert_eq!(value(Erlang::new(3, half()).unwrap().kurtosis()), 5.0);
}

#[test]
fn erlang_shape_one_has_mode_at_zero() {
    assert_eq!(Erlang::new(1, half()).unwrap().modes(), vec![Quotient { num: 0, den: 1 }]);
}

#[test]
fn erlang_variance_too_large() {
    let e = Erlang::new(u64::MAX, Ratio::new(1, u64::MAX)).unwrap();
    assert_eq!(e.variance(), None);
}

#[test]
fn erlang_same_as_gamma() {
    let e = Erlang::new(5, half()).unwrap();
    let g = Gamma::new(Ratio::whole(5), Ratio::whole(2)).unwrap();
    assert_eq!(e.mean(), g.mean());
    assert_eq!(e.variance(), g.variance());
    assert_eq!(e.kurtosis(), g.kurtosis());
    assert_eq!(e.modes(), g.modes());
}
