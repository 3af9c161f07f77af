//! Functions that hand back one of their borrowed arguments, with
//! contracts that pin down which one.

use vstd::prelude::*;
use vstd::string::StringSliceAdditionalSpecFns;

verus! {

/// The longer of the two strings, measured in bytes as `str::len` does;
/// ties go to the second.
pub fn longest<'a>(x: &'a str, y: &'a str) -> (r: &'a str)
    ensures
        x.spec_bytes().len() as usize > y.spec_bytes().len() as usize ==> r@ == x@,
        x.spec_bytes().len() as usize <= y.spec_bytes().len() as usize ==> r@ == y@,
{
    if x.len() > y.len() {
        x
    } else {
        y
    }
}

/// Hands its argument straight back.
pub fn return_passed_in(x: &str) -> (r: &str)
    ensures
        r@ == x@,
{
    x
}

/// Hands the borrowed argument back and swallows the owned one.
pub fn ref_and_val<T>(x: &str, _y: T) -> (r: &str)
    ensures
        r@ == x@,
{
    x
}

} // verus!
