use recipe_facts::amount::Amount;

#[test]
fn new_reduces_to_lowest_terms() {
    assert_eq!(Amount::new(2, 4), Amount::new(1, 2));
    assert_eq!(Amount::new(1000, 100), Amount::from_int(10));
    assert_eq!(Amount::new(0, 7), Amount::zero());
}

#[test]
fn checked_add_is_exact() {
    let third = Amount::new(1, 3);
    let sixth = Amount::new(1, 6);
    assert_eq!(third.checked_add(&sixth), Some(Amount::new(1, 2)));
}

#[test]
fn checked_mul_is_exact() {
    let half = Amount::new(1, 2);
    let two_thirds = Amount::new(2, 3);
    assert_eq!(half.checked_mul(&two_thirds), Some(Amount::new(1, 3)));
}

#[test]
fn checked_div_is_exact() {
    let hundred = Amount::from_int(100);
    let twenty = Amount::from_int(20);
    assert_eq!(hundred.checked_div(&twenty), Some(Amount::from_int(5)));
}

#[test]
fn checked_mul_overflow_is_none() {
    let huge = Amount::from_int(u128::MAX);
    assert_eq!(huge.checked_mul(&huge), None);
}

#[test]
fn checked_add_overflow_is_none() {
    let huge = Amount::from_int(u128::MAX);
    assert_eq!(huge.checked_add(&huge), None);
}
