use vstd::prelude::*;

verus! {

/// Adds one to the value inside `x`, if there is one; absence stays absence.
pub fn plus_one(x: Option<i32>) -> (y: Option<i32>)
    requires
        x != Some(i32::MAX),
    ensures
        x is None ==> y is None,
        x is Some ==> y is Some && y->0 == x->0 + 1,
{
    match x {
        None => None,
        Some(i) => Some(i + 1),
    }
}

} // verus!
