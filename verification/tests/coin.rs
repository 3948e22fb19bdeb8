use example::{value_in_cents, Coin, UsStates};

#[test]
fn penny_is_one_cent() {
    assert_eq!(value_in_cents(Coin::Penny), 1);
}

#[test]
fn nickel_is_five_cents() {
    assert_eq!(value_in_cents(Coin::Nickel), 5);
}

#[test]
fn dime_is_ten_cents() {
    assert_eq!(value_in_cents(Coin::Dime), 10);
}

#[test]
fn quarter_is_twenty_five_cents_for_every_state() {
    assert_eq!(value_in_cents(Coin::Quarter(UsStates::Alabama)), 25);
    assert_eq!(value_in_cents(Coin::Quarter(UsStates::Alaska)), 25);
    assert_eq!(value_in_cents(Coin::Quarter(UsStates::Arizona)), 25);
}

#[test]
fn quarter_reports_its_state() {
    assert_eq!(Coin::Quarter(UsStates::Alaska).state(), Some(UsStates::Alaska));
    assert_eq!(Coin::Quarter(UsStates::Arizona).state(), Some(UsStates::Arizona));
}

#[test]
fn other_coins_carry_no_state() {
    assert_eq!(Coin::Penny.state(), None);
    assert_eq!(Coin::Nickel.state(), None);
    assert_eq!(Coin::Dime.state(), None);
}

#[test]
fn state_prints_by_its_name() {
    assert_eq!(format!("{:?}", UsStates::Alaska), "Alaska");
}
