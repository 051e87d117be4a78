use check_rungrep::range::{Bound, Range, RangeError};

fn finite(v: i128) -> Bound {
    Bound::Finite(v * 1_000_000_000)
}

fn range(lower: Bound, upper: Bound, inverted: bool) -> Range {
    Range::new(lower, upper, inverted).unwrap()
}

#[test]
fn outside_range_does_not_alert_on_its_bounds() {
    let r = range(finite(10), finite(20), false);
    assert!(!r.check(10_000_000_000));
    assert!(!r.check(15_000_000_000));
    assert!(!r.check(20_000_000_000));
    assert!(r.check(9_999_999_999));
    assert!(r.check(20_000_000_001));
    assert!(r.check(-5_000_000_000));
}

#[test]
fn inverted_range_alerts_on_its_bounds() {
    let r = range(finite(10), finite(20), true);
    assert!(r.check(10_000_000_000));
    assert!(r.check(20_000_000_000));
    assert!(r.check(12_500_000_000));
    assert!(!r.check(9_999_999_999));
    assert!(!r.check(20_000_000_001));
}

#[test]
fn infinite_bounds() {
    let at_least_ten = range(finite(10), Bound::PosInf, false);
    assert!(at_least_ten.check(9_000_000_000));
    assert!(!at_least_ten.check(i128::MAX));
    let at_most_ten = range(Bound::NegInf, finite(10), false);
    assert!(!at_most_ten.check(i128::MIN));
    assert!(at_most_ten.check(11_000_000_000));
}

#[test]
fn single_point_range() {
    let r = range(finite(0), finite(0), false);
    assert!(!r.check(0));
    assert!(r.check(1_000_000_000));
    assert!(r.check(-1_000_000_000));
}

#[test]
fn start_greater_than_end_is_refused() {
    assert_eq!(
        Range::new(finite(20), finite(-20), true),
        Err(RangeError::StartGreaterThanEnd)
    );
    assert_eq!(
        Range::new(Bound::PosInf, finite(0), false),
        Err(RangeError::StartGreaterThanEnd)
    );
    assert!(Range::new(finite(-10), finite(20), true).is_ok());
}

#[test]
fn range_text() {
    assert_eq!(range(finite(10), finite(20), true).to_text(), "@10:20");
    assert_eq!(range(finite(10), Bound::PosInf, true).to_text(), "@10:~");
    assert_eq!(range(finite(0), finite(10), false).to_text(), "0:10");
    assert_eq!(range(Bound::NegInf, finite(10), false).to_text(), "~:10");
    assert_eq!(range(finite(-10), finite(20), true).to_text(), "@-10:20");
    assert_eq!(
        range(Bound::Finite(-500_000_000), Bound::Finite(1_250_000_000), false).to_text(),
        "-0.5:1.25"
    );
    assert_eq!(
        range(Bound::Finite(1), Bound::Finite(1_000_000_001), false).to_text(),
        "0.000000001:1.000000001"
    );
}
