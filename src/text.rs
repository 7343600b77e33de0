//! String helpers with exact specifications.
use vstd::prelude::*;
use vstd::string::StringExecFns;

verus! {

/// A new string holding `a` followed by `b`.
pub fn concat_str(a: &str, b: &str) -> (r: String)
    ensures
        r@ == a@ + b@,
{
    let mut s = String::from_str(a);
    s.append(b);
    s
}

} // verus!
