//! A handful of small, independent helpers: rectangle arithmetic, coin
//! values, an optional increment, a boolean identity and a few string
//! utilities. Every function carries a contract that pins its result.

pub mod coin;
pub mod logic;
pub mod optional;
pub mod rectangle;
pub mod text;

pub use coin::{value_in_cents, Coin, UsStates};
pub use logic::smt;
pub use optional::plus_one;
pub use rectangle::{area, Rectangle};
pub use text::{calc_len, dangle, first_word};
