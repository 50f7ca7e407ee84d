//! The smaller of two values of any totally ordered type.
use std::cmp::Ordering;
use vstd::prelude::*;
use vstd::std_specs::cmp::OrdSpec;

verus! {

/// The smaller of `x` and `y`; `y` when they compare equal.
pub fn min<T: Ord>(x: T, y: T) -> (r: T)
    ensures
        r == x || r == y,
        T::obeys_cmp_spec() ==> r == (if x.cmp_spec(&y) == Ordering::Less {
            x
        } else {
            y
        }),
{
    match x.cmp(&y) {
        Ordering::Less => x,
        _ => y,
    }
}

/// `min` on integers, characters and strings.
pub fn test_generic_min() {
    let a = min(0i32, 10i32);
    assert(a == 0);
    let b = min(500i32, 123i32);
    assert(b == 123);
    let c = min('a', 'z');
    assert(c == 'a' || c == 'z');
    let d = min('7', '1');
    assert(d == '7' || d == '1');
    let e = min("hello", "goodbye");
    assert(e == "hello" || e == "goodbye");
    let f = min("bat", "armadillo");
    assert(f == "bat" || f == "armadillo");
}

} // verus!
