//! Matching on characters, on the shape of a struct and on enum variants.
use crate::text::{decimal, decimal_string};
use vstd::prelude::*;
use vstd::string::StringExecFns;

verus! {

/// What a key press asks for.
#[derive(PartialEq, Eq, Structural, Debug, Clone, Copy)]
pub enum KeyAction {
    Quit,
    Move,
    Number,
    Lowercase(char),
    Unknown,
}

/// Whether the standard library counts `c` as a lowercase character.
pub uninterp spec fn lowercase_char(c: char) -> bool;

/// Relies on `char::is_lowercase`: whether `c` has Unicode's Lowercase
/// property, which every ASCII letter from `a` to `z` has.
#[verifier::external_body]
fn is_lowercase(c: char) -> (r: bool)
    ensures
        r == lowercase_char(c),
        'a' <= c <= 'z' ==> r,
{
    c.is_lowercase()
}

/// The action for a key, the first rule that fits winning: `q` quits, one
/// of `a`, `s`, `d`, `w` moves, a decimal digit is a number, and any other
/// lowercase character is reported as such.
pub open spec fn key_action(input: char, lowercase: bool) -> KeyAction {
    if input == 'q' {
        KeyAction::Quit
    } else if input == 'a' || input == 's' || input == 'd' || input == 'w' {
        KeyAction::Move
    } else if '0' <= input <= '9' {
        KeyAction::Number
    } else if lowercase {
        KeyAction::Lowercase(input)
    } else {
        KeyAction::Unknown
    }
}

/// The action for `input`, given whether it is a lowercase character.
pub fn classify_key_given(input: char, lowercase: bool) -> (r: KeyAction)
    ensures
        r == key_action(input, lowercase),
{
    match input {
        'q' => KeyAction::Quit,
        'a' | 's' | 'd' | 'w' => KeyAction::Move,
        '0'..='9' => KeyAction::Number,
        key if lowercase => KeyAction::Lowercase(key),
        _ => KeyAction::Unknown,
    }
}

/// The action for `input`.
pub fn classify_key(input: char) -> (r: KeyAction)
    ensures
        r == key_action(input, lowercase_char(input)),
        'a' <= input <= 'z' && input != 'q' && input != 'a' && input != 's' && input != 'd'
            && input != 'w' ==> r == KeyAction::Lowercase(input),
{
    let lowercase = is_lowercase(input);
    classify_key_given(input, lowercase)
}

/// A struct whose fields are matched by shape.
pub struct Foo {
    pub x: (i32, i32),
    pub y: i32,
}

/// Which pattern a `Foo` fits, the first that fits winning, with the parts
/// that pattern binds.
#[derive(PartialEq, Eq, Debug, Clone, Copy)]
pub enum FooShape {
    /// `x.0` is one; binds `x.1` and `y`.
    FirstIsOne { b: i32, y: i32 },
    /// `y` is two; binds `x`.
    YIsTwo { x: (i32, i32) },
    /// Anything else; binds `y`.
    Other { y: i32 },
}

/// The first pattern that `foo` fits.
pub fn match_foo(foo: &Foo) -> (r: FooShape)
    ensures
        r == (if foo.x.0 == 1 {
            FooShape::FirstIsOne { b: foo.x.1, y: foo.y }
        } else if foo.y == 2 {
            FooShape::YIsTwo { x: foo.x }
        } else {
            FooShape::Other { y: foo.y }
        }),
{
    match foo {
        Foo { x: (1, b), y } => FooShape::FirstIsOne { b: *b, y: *y },
        Foo { y: 2, x: i } => FooShape::YIsTwo { x: *i },
        Foo { y, .. } => FooShape::Other { y: *y },
    }
}

/// The outcome of halving a number: the half, or why there is none.
pub enum Division {
    Half(i32),
    Failed(String),
}

/// Halves `n` when it is even; otherwise says that it cannot be halved.
pub fn divide_in_two(n: i32) -> (r: Division)
    ensures
        n % 2 == 0 ==> r == Division::Half((n / 2) as i32),
        n % 2 != 0 ==> (r matches Division::Failed(m) && m@ == "cannot divide "@ + decimal(n as int)
            + " into two equal parts"@),
{
    if n % 2 == 0 {
        Division::Half(n / 2)
    } else {
        let mut m = "cannot divide ".to_string();
        let digits = decimal_string(n);
        m.append(digits.as_str());
        m.append(" into two equal parts");
        Division::Failed(m)
    }
}

/// The half held by a `Half`, if any.
pub fn ok_value(r: &Division) -> (v: Option<i32>)
    ensures
        v == (match r {
            Division::Half(n) => Some(*n),
            Division::Failed(_) => None,
        }),
{
    if let Division::Half(number) = r {
        Some(*number)
    } else {
        None
    }
}

/// The numbers that a `match` and then an `if let` pick out of two `Half(42)`
/// values, in the order they pick them.
pub fn exploring_if_let() -> (r: Vec<i32>)
    ensures
        r@ == seq![42i32, 42i32],
{
    let mut picked: Vec<i32> = Vec::new();
    let our_result: Division = Division::Half(42);
    match our_result {
        Division::Failed(_error) => {},
        Division::Half(number) => {
            picked.push(number);
        },
    }
    let our_result: Division = Division::Half(42);
    if let Some(number) = ok_value(&our_result) {
        picked.push(number);
    }
    picked
}

} // verus!
