use vstd::prelude::*;

verus! {

/// The greeting for `name`.
pub open spec fn greeting_of(name: Seq<char>) -> Seq<char> {
    "Hello, "@ + name + "!"@
}

/// Relies on std's `format!` with two `{}` placeholders and string slices:
/// it writes the characters of `a` and then those of `b`, unchanged.
#[verifier::external_body]
fn concat(a: &str, b: &str) -> (r: String)
    ensures
        r@ == a@ + b@,
{
    format!("{a}{b}")
}

/// Greets `name`.
pub fn greet(name: String) -> (r: String)
    ensures
        r@ == greeting_of(name@),
{
    let head = concat("Hello, ", name.as_str());
    let r = concat(head.as_str(), "!");
    assert(r@ =~= greeting_of(name@));
    r
}

} // verus!
