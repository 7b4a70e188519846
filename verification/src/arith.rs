//! A small arithmetic routine of the scanner.

use vstd::prelude::*;

verus! {

/// Adds one to `b`, forms the sum and the difference of `a` and the new
/// `b`, and returns 0.
pub fn foo(a: i32, mut b: i32) -> (r: i32)
    requires
        b < i32::MAX,
        i32::MIN <= a + (b + 1) <= i32::MAX,
        i32::MIN <= a - (b + 1) <= i32::MAX,
    ensures
        r == 0,
{
    b = b + 1;
    let _x = a + b;
    let _y = a - b;
    0
}

} // verus!
