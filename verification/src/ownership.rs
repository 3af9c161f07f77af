//! Functions that move strings in and out, with contracts saying that the
//! values survive the moves unchanged.

use vstd::prelude::*;
use vstd::string::StringSliceAdditionalSpecFns;
use vstd::utf8::encode_utf8;

verus! {

/// Makes a string and moves it out to the caller.
pub fn gives_ownership() -> (r: String)
    ensures
        r@ == "hello"@,
{
    "hello".to_owned()
}

/// Takes ownership of a string and gives the same string back.
pub fn takes_and_gives_back(a_string: String) -> (r: String)
    ensures
        r == a_string,
{
    a_string
}

/// The string together with its length in bytes, so the caller keeps the
/// string without passing a reference.
pub fn calculate_length_tuple(s: String) -> (r: (String, usize))
    ensures
        r.0 == s,
        r.1 == encode_utf8(s@).len() as usize,
{
    let length: usize = s.as_str().len();
    (s, length)
}

/// The length of the string in bytes, through a reference.
pub fn calculate_length(s: &String) -> (r: usize)
    ensures
        r == encode_utf8(s@).len() as usize,
{
    s.as_str().len()
}

} // verus!
