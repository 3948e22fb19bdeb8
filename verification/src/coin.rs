use vstd::prelude::*;

verus! {

/// The state whose design a quarter carries.
#[derive(Debug, Clone, Copy, PartialEq, Eq, Structural)]
pub enum UsStates {
    Alabama,
    Alaska,
    Arizona,
}

/// A coin denomination; a quarter also records its state.
#[derive(Debug, Clone, Copy, PartialEq, Eq, Structural)]
pub enum Coin {
    Penny,
    Nickel,
    Dime,
    Quarter(UsStates),
}

impl Coin {
    /// The worth of the coin in cents.
    pub open spec fn spec_cents(self) -> nat {
        match self {
            Coin::Penny => 1,
            Coin::Nickel => 5,
            Coin::Dime => 10,
            Coin::Quarter(_) => 25,
        }
    }

    /// The state a quarter carries; `None` for every other coin.
    pub fn state(&self) -> (state: Option<UsStates>)
        ensures
            state == match *self {
                Coin::Quarter(s) => Some(s),
                _ => None,
            },
    {
        match self {
            Coin::Quarter(s) => Some(*s),
            _ => None,
        }
    }
}

/// The worth of `coin` in cents.
pub fn value_in_cents(coin: Coin) -> (cents: u32)
    ensures
        cents == coin.spec_cents(),
        coin is Quarter ==> cents == 25,
{
    match coin {
        Coin::Penny => 1,
        Coin::Nickel => 5,
        Coin::Dime => 10,
        Coin::Quarter(_) => 25,
    }
}

/// Two quarters are worth the same, whatever states they carry.
pub proof fn lemma_quarter_ignores_state(a: UsStates, b: UsStates)
    ensures
        Coin::Quarter(a).spec_cents() == Coin::Quarter(b).spec_cents(),
        Coin::Quarter(a).spec_cents() == 25,
{
}

} // verus!
