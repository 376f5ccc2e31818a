//! The greeter: a pure map from a name to a greeting.
use vstd::prelude::*;

verus! {

/// Text placed before the name.
pub open spec fn greeting_prefix() -> Seq<char> {
    "Hello, "@
}

/// Text placed after the name; it names the host that answered.
pub open spec fn greeting_suffix() -> Seq<char> {
    "! You've been greeted from Rust!"@
}

/// The greeting for `name`: the name, verbatim, between the fixed prefix
/// and suffix.
pub open spec fn greeting(name: Seq<char>) -> Seq<char> {
    greeting_prefix() + name + greeting_suffix()
}

/// Greets `name`. Every text is accepted, the empty one included.
pub fn greet(name: &str) -> (r: String)
    ensures
        r@ == greeting(name@),
{
    let mut r = String::from_str("Hello, ");
    r.append(name);
    r.append("! You've been greeted from Rust!");
    r
}

/// Greeting is a function of the name alone: two calls on the same name
/// give the same text, whatever happened between them.
pub proof fn greeting_depends_on_name_only(name: Seq<char>, first: Seq<char>, second: Seq<char>)
    requires
        first == greeting(name),
        second == greeting(name),
    ensures
        first == second,
{
}

} // verus!
