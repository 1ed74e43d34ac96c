//! Handing values over: text moves, a plain integer is copied.

use vstd::prelude::*;
use crate::render::i32_string;
use crate::render::signed_decimal_chars;

verus! {

/// Takes the text by value — ownership moves in, so the caller's binding is
/// spent — and hands back the line that shows it: the text itself.
pub fn takes_ownership(some_thing: String) -> (line: String)
    ensures
        line == some_thing,
{
    some_thing
}

/// Takes the integer by value — a copy, since the type is plain, so the
/// caller's binding stays usable — and hands back the line that shows it:
/// its decimal rendering.
pub fn makes_copy(some_integer: i32) -> (line: String)
    ensures
        line@ == signed_decimal_chars(some_integer as int),
{
    i32_string(some_integer)
}

} // verus!
