//! Traits: pets that talk, an animal with a companion trait on top, and a
//! multiplication whose result type the implementor picks.
use crate::text::{decimal, decimal_string};
use vstd::prelude::*;
use vstd::string::StringExecFns;

verus! {

broadcast use vstd::string::to_string_from_display_ensures_for_str;

pub trait Pet {
    /// What the pet says about itself.
    fn talk(&self) -> String;
}

/// A dog, by name and age in years.
pub struct Dog {
    pub name: String,
    pub age: i8,
}

impl Pet for Dog {
    fn talk(&self) -> (r: String)
        ensures
            r@ == "Woof woof, my name is "@ + self.name@ + " and I'm "@ + decimal(self.age as int)
                + " years old"@,
    {
        let mut s = "Woof woof, my name is ".to_string();
        s.append(self.name.as_str());
        s.append(" and I'm ");
        let age = decimal_string(self.age as i32);
        s.append(age.as_str());
        s.append(" years old");
        s
    }
}

/// Fido, eleven years old.
pub fn create_dog() -> (r: Dog)
    ensures
        r.name@ == "Fido"@,
        r.age == 11,
{
    Dog { name: "Fido".to_string(), age: 11 }
}

pub trait Animal {
    fn number_legs(&self) -> u8;
}

pub trait Companion: Animal {
    fn talk(&self) -> String;
}

/// A cat, by name.
pub struct Cat(pub String);

impl Animal for Cat {
    fn number_legs(&self) -> (r: u8)
        ensures
            r == 4,
    {
        4
    }
}

impl Companion for Cat {
    fn talk(&self) -> (r: String)
        ensures
            r@ == "Meow! - my name is "@ + self.0@,
    {
        let mut s = "Meow! - my name is ".to_string();
        s.append(self.0.as_str());
        s
    }
}

/// A length in meters.
#[derive(Debug, Clone, Copy, PartialEq, Eq, Structural)]
pub struct Meters(pub i32);

/// An area in square meters.
#[derive(Debug, Clone, Copy, PartialEq, Eq, Structural)]
pub struct MetersSquared(pub i32);

pub trait Multiply {
    type Output;

    /// Whether the product of `self` and `other` can be represented.
    spec fn multiplies(&self, other: &Self) -> bool;

    fn multiply(&self, other: &Self) -> Self::Output
        requires
            self.multiplies(other),
    ;
}

impl Multiply for Meters {
    type Output = MetersSquared;

    open spec fn multiplies(&self, other: &Self) -> bool {
        i32::MIN <= self.0 * other.0 <= i32::MAX
    }

    fn multiply(&self, other: &Self) -> (r: MetersSquared)
        ensures
            r.0 == self.0 * other.0,
    {
        MetersSquared(self.0 * other.0)
    }
}

} // verus!
