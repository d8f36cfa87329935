//! The greeting text.

use vstd::prelude::*;
use vstd::string::StringExecFns;

verus! {

/// What stands before the name in a greeting.
pub open spec fn greeting_prefix() -> Seq<char> {
    "Hello, "@
}

/// What stands after the name in a greeting.
pub open spec fn greeting_suffix() -> Seq<char> {
    "! You've been greeted from Rust!"@
}

/// The greeting for `name`: the prefix, the name as it is, the suffix.
pub open spec fn greeting(name: Seq<char>) -> Seq<char> {
    greeting_prefix() + name + greeting_suffix()
}

/// Formats the greeting for `name`. The name is taken verbatim: nothing is
/// trimmed or escaped, and every string is accepted.
pub fn greet(name: &str) -> (text: String)
    ensures
        text@ == greeting(name@),
{
    let mut text = String::from_str("Hello, ");
    text.append(name);
    text.append("! You've been greeted from Rust!");
    text
}

/// A greeting holds the name as one unbroken piece: the prefix comes first,
/// the name follows it character for character, the suffix ends the text,
/// and nothing else is in it.
pub proof fn lemma_greeting_wraps_name(name: Seq<char>)
    ensures
        greeting(name).len() == greeting_prefix().len() + name.len() + greeting_suffix().len(),
        greeting(name).subrange(0, greeting_prefix().len() as int) == greeting_prefix(),
        greeting(name).subrange(
            greeting_prefix().len() as int,
            (greeting_prefix().len() + name.len()) as int,
        ) == name,
        greeting(name).subrange(
            (greeting_prefix().len() + name.len()) as int,
            greeting(name).len() as int,
        ) == greeting_suffix(),
{
}

/// The same name always gives the same greeting.
pub proof fn lemma_greeting_is_a_function(first: Seq<char>, second: Seq<char>)
    requires
        first == second,
    ensures
        greeting(first) == greeting(second),
{
}

/// Two names with the same greeting are the same name: the name can be read
/// back from the text.
pub proof fn lemma_greeting_is_injective(first: Seq<char>, second: Seq<char>)
    requires
        greeting(first) == greeting(second),
    ensures
        first == second,
{
    lemma_greeting_wraps_name(first);
    lemma_greeting_wraps_name(second);
}

} // verus!
