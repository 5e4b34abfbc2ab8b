//! Errors carried as values in `Result`, and passed on with `?`.

use vstd::prelude::*;

verus! {

/// `Ok("yes!")` when `t` holds, `Err("nono!")` when it does not.
pub fn afunc(t: bool) -> (r: Result<String, String>)
    ensures
        t ==> r is Ok && r->Ok_0@ == "yes!"@,
        !t ==> r is Err && r->Err_0@ == "nono!"@,
{
    if t {
        Ok("yes!".to_string())
    } else {
        Err("nono!".to_string())
    }
}

/// Hands on the error of `afunc(false)` through `?`.
pub fn inner() -> (r: Result<String, String>)
    ensures
        r is Err && r->Err_0@ == "nono!"@,
{
    let a_info = afunc(false)?;
    Ok(a_info)
}

} // verus!
