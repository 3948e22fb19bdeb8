use vstd::prelude::*;

verus! {

/// A chain of boolean steps that ends in a tautology: the result is `true`
/// for every pair of inputs.
pub fn smt(a: bool, b: bool) -> (out: bool)
    ensures
        out,
{
    let out = (!b) || b;
    let n_out = out || a;
    let nn_out = !out;
    let f_out = nn_out || n_out;
    f_out
}

} // verus!
