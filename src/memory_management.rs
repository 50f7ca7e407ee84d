//! Ownership: a `String` moved from one binding to another.
use vstd::prelude::*;

verus! {

broadcast use vstd::string::to_string_from_display_ensures_for_str;

/// Moves a fresh string from one binding to another and hands back the
/// second binding; the first can no longer be used.
pub fn test_copy_strings() -> (r: String)
    ensures
        r@ == "Hello!"@,
{
    let s1 = "Hello!".to_string();
    let s2 = s1;
    s2
}

} // verus!
