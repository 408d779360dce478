//! The greeting that the user interface asks for.

use vstd::prelude::*;

verus! {

/// The greeting for `name`: the name between a fixed opening and a fixed close.
pub open spec fn greeting(name: Seq<char>) -> Seq<char> {
    "Hello, "@ + name + "! You've been greeted from Rust!"@
}

/// Greets `name`.
pub fn greet(name: &str) -> (text: String)
    ensures
        text@ == greeting(name@),
{
    let opening = "Hello, ".to_owned();
    opening.concat(name).concat("! You've been greeted from Rust!")
}

} // verus!
