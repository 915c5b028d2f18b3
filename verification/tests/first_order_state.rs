use svf_iir::first_order_iir::{IIR1Coefficients, IIR1};

fn coefficients(a: f64, g: f64, a1: f64, m0: f64, m1: f64) -> IIR1Coefficients {
    IIR1Coefficients {
        a: a.to_bits(),
        g: g.to_bits(),
        a1: a1.to_bits(),
        m0: m0.to_bits(),
        m1: m1.to_bits(),
    }
}

fn same(x: IIR1Coefficients, y: IIR1Coefficients) -> bool {
    x.a == y.a && x.g == y.g && x.a1 == y.a1 && x.m0 == y.m0 && x.m1 == y.m1
}

#[test]
fn empty_first_order_coefficients_are_positive_zero() {
    let c = IIR1Coefficients::empty();
    assert_eq!(c.a, 0);
    assert_eq!(c.g, 0);
    assert_eq!(c.a1, 0);
    assert_eq!(c.m0, 0);
    assert_eq!(c.m1, 0);
    assert_eq!(f64::from_bits(c.a), 0.0);
    assert!(f64::from_bits(c.m1).is_sign_positive());
}

#[test]
fn first_order_filter_starts_at_rest() {
    let c = coefficients(1.0, 0.25, 0.2, 0.0, 1.0);
    let filter = IIR1::from(c);
    assert_eq!(filter.ic1eq(), 0);
    assert_eq!(f64::from_bits(filter.ic1eq()), 0.0);
    assert!(same(filter.coefficients(), c));
    assert!(same(filter.coeffs, c));
}

#[test]
fn first_order_advance_stores_the_register() {
    let c = coefficients(1.0, 0.25, 0.2, 0.0, 1.0);
    let mut filter = IIR1::from(c);
    filter.advance((-0.75f64).to_bits());
    assert_eq!(filter.ic1eq(), 0xBFE8_0000_0000_0000);
    assert_eq!(f64::from_bits(filter.ic1eq()), -0.75);
    assert!(same(filter.coefficients(), c));
}

#[test]
fn first_order_update_keeps_the_register_bits() {
    let before = coefficients(1.0, 0.25, 0.2, 0.0, 1.0);
    let after = coefficients(2.0, 0.5, 1.0 / 3.0, 2.0, -1.0);
    let mut filter = IIR1::from(before);
    filter.advance(f64::NAN.to_bits() | 0x1234);
    let register = filter.ic1eq();
    filter.update(after);
    assert_eq!(filter.ic1eq(), register);
    assert!(same(filter.coefficients(), after));
    assert!(!same(filter.coefficients(), before));
}

#[test]
fn first_order_update_on_a_fresh_filter_leaves_it_at_rest() {
    let mut filter = IIR1::from(IIR1Coefficients::empty());
    let c = coefficients(1.0, 0.25, 0.2, 1.0, -2.0);
    filter.update(c);
    assert_eq!(filter.ic1eq(), 0);
    assert!(same(filter.coefficients(), c));
}
