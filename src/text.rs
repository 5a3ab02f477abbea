//! Small helpers for building reply texts.

use vstd::prelude::*;

verus! {

/// `prefix` followed by `rest`.
pub fn prefixed(prefix: &str, rest: &str) -> (r: String)
    ensures
        r@ == prefix@ + rest@,
{
    let mut out = String::from_str(prefix);
    out.append(rest);
    out
}

} // verus!
