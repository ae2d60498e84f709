//! The one invokable command the shell exposes to its front end.

use vstd::prelude::*;

verus! {

/// The exact text that greeting a given name produces: the name spliced
/// verbatim between a fixed prefix and a fixed suffix, with no escaping,
/// validation or length limit.
pub open spec fn greeting_of(name: Seq<char>) -> Seq<char> {
    "Hello, "@ + name + "! You've been greeted from Rust!"@
}

/// Builds the greeting for `name`.
///
/// This operation is total: it succeeds for every input string, including
/// the empty string and strings holding control characters, and it returns
/// exactly `greeting_of(name@)` — nothing else is observable, so repeated
/// calls with the same input always yield the same output.
pub fn greet(name: &str) -> (r: String)
    ensures
        r@ == greeting_of(name@),
{
    let mut text = String::from_str("Hello, ");
    text.append(name);
    text.append("! You've been greeted from Rust!");
    text
}

/// `greet` is deterministic: two calls on equal inputs are owed equal
/// outputs.  Stated over the results that `greet`'s own contract pins down.
pub proof fn lemma_greet_deterministic(a: Seq<char>, b: Seq<char>)
    requires
        a == b,
    ensures
        greeting_of(a) == greeting_of(b),
{
}

} // verus!
