//! A function whose result borrows from either of its arguments.

use vstd::prelude::*;

verus! {

/// The longer of `x` and `y` in bytes; `y` when they are equally long.
/// The result lives as long as the shorter-lived of the two borrows.
pub fn longest<'a>(x: &'a str, y: &'a str) -> (r: &'a str)
    ensures
        r == (if x.len() > y.len() {
            x
        } else {
            y
        }),
{
    if x.len() > y.len() {
        x
    } else {
        y
    }
}

} // verus!
