//! Commands that the displayed page can invoke on the shell.
use vstd::prelude::*;

verus! {

/// The greeting that the shell answers a connectivity check with.
pub open spec fn greeting_of(name: Seq<char>) -> Seq<char> {
    "Hello, "@ + name + "! You've been greeted from Rust!"@
}

/// The greeting that the shell answers a connectivity check with.
pub fn greet(name: &str) -> (r: String)
    ensures
        r@ == greeting_of(name@),
{
    let mut s = "Hello, ".to_owned();
    s.append(name);
    s.append("! You've been greeted from Rust!");
    s
}

} // verus!
