//! The greeter command: embeds a caller-supplied name in a fixed template.

use vstd::prelude::*;
use vstd::string::StringExecFns;

verus! {

/// The text placed before the name.
pub open spec fn greeting_prefix() -> Seq<char> {
    "Hello, "@
}

/// The text placed after the name.
pub open spec fn greeting_suffix() -> Seq<char> {
    "! You've been greeted from Rust!"@
}

/// The full greeting for a given name: prefix, then the name verbatim, then
/// the suffix.
pub open spec fn greeting_of(name: Seq<char>) -> Seq<char> {
    greeting_prefix() + name + greeting_suffix()
}

/// `needle` occurs verbatim as a contiguous run of characters of `hay`.
pub open spec fn contains_seq(hay: Seq<char>, needle: Seq<char>) -> bool {
    exists|i: int|
        0 <= i && i + needle.len() <= hay.len() && #[trigger] hay.subrange(
            i,
            i + needle.len() as int,
        ) == needle
}

/// Builds the greeting for `name`. Total and deterministic: the result is
/// pinned to `greeting_of(name@)`, a function of the input alone.
pub fn greet(name: &str) -> (r: String)
    ensures
        r@ == greeting_of(name@),
{
    let mut r = String::from_str("Hello, ");
    r.append(name);
    r.append("! You've been greeted from Rust!");
    proof {
        assert(r@ =~= greeting_of(name@));
    }
    r
}

/// Every greeting carries the name verbatim as a contiguous substring.
pub proof fn lemma_greeting_embeds_name(name: Seq<char>)
    ensures
        contains_seq(greeting_of(name), name),
{
    reveal_strlit("Hello, ");
    let g = greeting_of(name);
    let p = greeting_prefix().len() as int;
    assert(g.subrange(p, p + name.len() as int) =~= name);
}

/// Every greeting, the one for the empty name included, begins with the fixed
/// prefix and ends with the fixed suffix of the template.
pub proof fn lemma_greeting_keeps_template(name: Seq<char>)
    ensures
        greeting_of(name).len() == greeting_prefix().len() + name.len()
            + greeting_suffix().len(),
        greeting_of(name).subrange(0, greeting_prefix().len() as int) == greeting_prefix(),
        greeting_of(name).subrange(
            greeting_of(name).len() - greeting_suffix().len(),
            greeting_of(name).len() as int,
        ) == greeting_suffix(),
{
    let g = greeting_of(name);
    let p = greeting_prefix().len() as int;
    let s = greeting_suffix().len() as int;
    assert(g.subrange(0, p) =~= greeting_prefix());
    assert(g.subrange(g.len() - s, g.len() as int) =~= greeting_suffix());
}

} // verus!
