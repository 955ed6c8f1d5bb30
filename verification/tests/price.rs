use btc_price_alert::price::Price;

fn price(value: f64) -> Price {
    Price::from_bits(value.to_bits())
}

/// Numbers of every kind, NaN among them.
fn samples() -> Vec<f64> {
    vec![
        0.0,
        -0.0,
        5e-324,
        -5e-324,
        f64::MIN_POSITIVE,
        1.0,
        -1.0,
        1.5,
        50000.0,
        50000.01,
        1.7976931348623157e308,
        -1.7976931348623157e308,
        f64::INFINITY,
        f64::NEG_INFINITY,
        f64::NAN,
        -f64::NAN,
    ]
}

#[test]
fn comparisons_agree_with_the_machine() {
    for a in samples() {
        for b in samples() {
            assert_eq!(price(a).at_least(price(b)), a >= b);
            assert_eq!(price(a).at_most(price(b)), a <= b);
        }
        assert_eq!(price(a).above_zero(), a > 0.0);
        assert_eq!(price(a).at_most_zero(), a <= 0.0);
    }
}

#[test]
fn the_two_zeros_are_equal() {
    assert!(price(0.0).at_least(price(-0.0)));
    assert!(price(-0.0).at_least(price(0.0)));
    assert!(price(-0.0).at_most(price(0.0)));
    assert!(!price(-0.0).above_zero());
    assert!(price(-0.0).at_most_zero());
}

#[test]
fn nan_compares_with_nothing() {
    let nan = price(f64::NAN);
    assert!(!nan.at_least(nan));
    assert!(!nan.at_most(nan));
    assert!(!nan.above_zero());
    assert!(!nan.at_most_zero());
}

#[test]
fn bits_are_kept() {
    assert_eq!(price(50000.0).bits, 0x40E86A0000000000);
    assert_eq!(f64::from_bits(price(42.25).bits), 42.25);
}
