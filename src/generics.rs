//! Generic functions and a generic point type.
use vstd::prelude::*;

verus! {

/// `even` when `even_odd` is even, `odd` otherwise.
pub fn pick<T>(even_odd: i8, even: T, odd: T) -> (r: T)
    ensures
        r == (if even_odd as int % 2 == 0 {
            even
        } else {
            odd
        }),
{
    if even_odd % 2 == 0 {
        even
    } else {
        odd
    }
}

/// A point whose two coordinates share one type.
#[derive(Debug)]
pub struct Point<T> {
    pub x: T,
    pub y: T,
}

impl<T> Point<T> {
    /// Both coordinates, `x` first.
    pub fn coords(&self) -> (r: (&T, &T))
        ensures
            *r.0 == self.x,
            *r.1 == self.y,
    {
        (&self.x, &self.y)
    }

    /// Replaces `x`, keeping `y`.
    pub fn set_x(&mut self, x: T)
        ensures
            final(self).x == x,
            final(self).y == old(self).y,
    {
        self.x = x;
    }
}

impl Point<u32> {
    /// Both coordinates of an unsigned point, `x` first.
    pub fn coords_u32(&self) -> (r: (&u32, &u32))
        ensures
            *r.0 == self.x,
            *r.1 == self.y,
    {
        (&self.x, &self.y)
    }

    /// Replaces both coordinates of an unsigned point.
    pub fn set_coords(&mut self, x: u32, y: u32)
        ensures
            final(self).x == x,
            final(self).y == y,
    {
        self.x = x;
        self.y = y;
    }
}

/// Points of signed and unsigned coordinates, moved by the methods that
/// their types offer.
pub fn test_generic_types() {
    let mut signed_point_coords = Point { x: 100i32, y: 20i32 };
    let mut unsigned_point_coords = Point { x: 25u32, y: 41u32 };
    unsigned_point_coords.set_coords(11u32, 15u32);
    signed_point_coords.set_x(33);
    assert(unsigned_point_coords.x == 11 && unsigned_point_coords.y == 15);
    assert(signed_point_coords.x == 33 && signed_point_coords.y == 20);
}

/// Two clones of `input`.
pub fn duplicate<T: Clone>(input: &T) -> (r: (T, T))
    ensures
        cloned(*input, r.0),
        cloned(*input, r.1),
{
    (input.clone(), input.clone())
}

/// `val` plus forty-two.
pub fn add_42(val: i32) -> (r: i32)
    requires
        val <= i32::MAX - 42,
    ensures
        r == val + 42,
{
    val + 42
}

/// The numbers just above and just below `x`.
pub fn pair_of(x: i32) -> (r: (i32, i32))
    requires
        i32::MIN < x < i32::MAX,
    ensures
        r.0 == x + 1,
        r.1 == x - 1,
{
    (x + 1, x - 1)
}

} // verus!
