use ledger_rewrite::amount::{halve_negated, halve_negated_decimal, Decimal, IncompleteAmount};

#[test]
fn halve_absent_amount_keeps_currency() {
    let a = IncompleteAmount { num: None, currency: Some("USD".to_string()) };
    let r = halve_negated(&a);
    assert_eq!(r.num, None);
    assert_eq!(r.currency, Some("USD".to_string()));
}

#[test]
fn halve_absent_amount_absent_currency() {
    let a = IncompleteAmount { num: None, currency: None };
    let r = halve_negated(&a);
    assert_eq!(r.num, None);
    assert_eq!(r.currency, None);
}

#[test]
fn halve_one_hundred() {
    // 100.00 / (-2) == -50.00
    let r = halve_negated_decimal(Decimal::new(10000, 2));
    assert_eq!(r, Decimal::new(-5000, 2));
}

#[test]
fn halve_rounds_half_away_from_zero() {
    // 33.33 / (-2) == -16.665, rounded once to two places: -16.67
    let r = halve_negated_decimal(Decimal::new(3333, 2));
    assert_eq!(r, Decimal::new(-1667, 2));
}

#[test]
fn halve_negative_quantity() {
    // -33.33 / (-2) == 16.665, rounded away from zero: 16.67
    let r = halve_negated_decimal(Decimal::new(-3333, 2));
    assert_eq!(r, Decimal::new(1667, 2));
}

#[test]
fn halve_integer_scale_zero() {
    // 7 / (-2) == -3.5 == -3.50 at two places
    let r = halve_negated_decimal(Decimal::new(7, 0));
    assert_eq!(r, Decimal::new(-350, 2));
}

#[test]
fn halve_zero() {
    let r = halve_negated_decimal(Decimal::new(0, 5));
    assert_eq!(r, Decimal::new(0, 2));
}

#[test]
fn halve_high_precision_rounds_once() {
    // 0.015 / (-2) == -0.0075, rounded to two places: -0.01
    let r = halve_negated_decimal(Decimal::new(15, 3));
    assert_eq!(r, Decimal::new(-1, 2));
}

#[test]
fn halve_keeps_present_currency() {
    let a = IncompleteAmount { num: Some(Decimal::new(100000, 2)), currency: Some("USD".to_string()) };
    let r = halve_negated(&a);
    assert_eq!(r.num, Some(Decimal::new(-50000, 2)));
    assert_eq!(r.currency, Some("USD".to_string()));
}

#[test]
fn halve_at_the_top_of_the_domain() {
    // The largest representable two-digit quantity still halves exactly.
    let top = 79228162514264337593543950336i128 - 1;
    let r = halve_negated_decimal(Decimal::new(top, 2));
    assert_eq!(r, Decimal::new(-39614081257132168796771975168, 2));
}
