//! The greeting command.

use vstd::prelude::*;
use vstd::string::StringExecFns;

verus! {

/// The greeting for `name` sent from `runtime`:
/// `Hello, {name}! You've been greeted from {runtime}!`.
pub open spec fn greeting_from(name: Seq<char>, runtime: Seq<char>) -> Seq<char> {
    "Hello, "@ + name + "! You've been greeted from "@ + runtime + "!"@
}

/// The name of the runtime that answers the command.
pub open spec fn runtime() -> Seq<char> {
    "Rust"@
}

/// The greeting that this application gives for `name`.
pub open spec fn greeting(name: Seq<char>) -> Seq<char> {
    greeting_from(name, runtime())
}

/// Greets `name`. Every name is accepted as it is, the empty one too, and
/// nothing but the returned text comes of the call.
pub fn greet(name: &str) -> (out: String)
    ensures
        out@ == greeting(name@),
{
    let mut out = String::from_str("Hello, ");
    out.append(name);
    out.append("! You've been greeted from ");
    out.append("Rust");
    out.append("!");
    out
}

} // verus!
