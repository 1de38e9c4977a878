//! Small verified text helpers shared across the library.

use vstd::prelude::*;

verus! {

/// String equality at the character level.
pub fn str_is(s: &str, other: &str) -> (r: bool)
    ensures
        r == (s@ == other@),
{
    s.to_owned() == other.to_owned()
}

/// The characters of a string, as an indexable vector.
pub fn string_chars(s: &str) -> (r: Vec<char>)
    ensures
        r@ == s@,
{
    broadcast use vstd::string::next_postcondition;
    broadcast use vstd::string::axiom_spec_iter;

    let mut taken: Vec<char> = Vec::new();
    let mut iter = s.chars();
    loop
        invariant
            taken@ + vstd::std_specs::iter::IteratorSpec::remaining(&iter) == s@,
            vstd::std_specs::iter::IteratorSpec::decrease(&iter) is Some,
        ensures
            taken@ == s@,
        decreases vstd::std_specs::iter::IteratorSpec::decrease(&iter)->0,
    {
        match iter.next() {
            Some(c) => taken.push(c),
            None => {
                proof {
                    assert(taken@ =~= s@);
                }
                break;
            },
        }
    }
    taken
}

/// Relies on `String::from_iter` over the characters of a `Vec<char>`: it
/// collects exactly those characters in order.
#[verifier::external_body]
pub(crate) fn chars_to_string(chars: &Vec<char>) -> (r: String)
    ensures
        r@ == chars@,
{
    chars.iter().collect()
}

/// Clone a blob, keeping its contents.
pub fn clone_bytes(v: &Vec<u8>) -> (r: Vec<u8>)
    ensures
        r@ == v@,
{
    let r = v.clone();
    proof {
        assert(r@ =~= v@);
    }
    r
}

} // verus!
