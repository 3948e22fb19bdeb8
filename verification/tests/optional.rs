use example::plus_one;

#[test]
fn five_becomes_six() {
    assert_eq!(plus_one(Some(5)), Some(6));
}

#[test]
fn absence_stays_absence() {
    assert_eq!(plus_one(None), None);
}

#[test]
fn negative_one_becomes_zero() {
    assert_eq!(plus_one(Some(-1)), Some(0));
}

#[test]
fn smallest_value_grows_by_one() {
    assert_eq!(plus_one(Some(i32::MIN)), Some(i32::MIN + 1));
}

#[test]
fn largest_admitted_value_reaches_the_maximum() {
    assert_eq!(plus_one(Some(i32::MAX - 1)), Some(i32::MAX));
}
