//! The host function that is registered with the runtime under the name
//! `add_numbers`, taking two machine integers and returning one.
use vstd::prelude::*;

verus! {

/// The sum of `a` and `b`, for arguments whose sum is a machine integer.
pub fn add_numbers(a: i32, b: i32) -> (r: i32)
    requires
        i32::MIN <= a + b <= i32::MAX,
    ensures
        r == a + b,
{
    a + b
}

} // verus!
