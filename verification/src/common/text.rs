use vstd::prelude::*;

verus! {

/// Whether two string slices hold the same characters.
pub fn str_equals(a: &str, b: &str) -> (r: bool)
    ensures
        r == (a@ == b@),
{
    let a_owned = String::from_str(a);
    let b_owned = String::from_str(b);
    a_owned == b_owned
}

} // verus!
