//! Small text helpers shared by the payload builders and the flows.

use vstd::prelude::*;
use vstd::string::*;

verus! {

/// The empty text, as the fallback for absent descriptions.
pub open spec fn empty_text() -> Seq<char> {
    Seq::<char>::empty()
}

/// An optional text, or the empty text when absent.
pub open spec fn text_or_empty(t: Option<Seq<char>>) -> Seq<char> {
    match t {
        Some(s) => s,
        None => empty_text(),
    }
}

/// An optional text, or a default when it is absent.
pub open spec fn text_or(t: Option<Seq<char>>, d: Seq<char>) -> Seq<char> {
    match t {
        Some(s) => s,
        None => d,
    }
}

/// The first of two optional texts, or the second when the first is unset.
pub open spec fn opt_text_or(a: Option<Seq<char>>, b: Option<Seq<char>>) -> Option<Seq<char>> {
    if a is Some {
        a
    } else {
        b
    }
}

/// Copy of an optional string, preserving the value exactly.
pub fn clone_opt_string(s: &Option<String>) -> (r: Option<String>)
    ensures
        r == *s,
{
    match s {
        Some(x) => Some(x.clone()),
        None => None,
    }
}

/// The string an optional field holds, or the empty string.
pub fn str_or_empty(s: &Option<String>) -> (r: &str)
    ensures
        r@ == text_or_empty(s.deep_view()),
{
    proof {
        reveal_strlit("");
        assert(""@ =~= empty_text());
    }
    match s {
        Some(x) => x.as_str(),
        None => "",
    }
}

/// Concatenation of two text fragments.
pub fn concat2(a: &str, b: &str) -> (r: String)
    ensures
        r@ == a@ + b@,
{
    let mut s = a.to_owned();
    s.append(b);
    s
}

/// Concatenation of four text fragments.
pub fn concat4(a: &str, b: &str, c: &str, d: &str) -> (r: String)
    ensures
        r@ == a@ + b@ + c@ + d@,
{
    let mut s = a.to_owned();
    s.append(b);
    s.append(c);
    s.append(d);
    s
}

} // verus!
