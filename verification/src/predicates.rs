//! Predicate functions for testing instruction fields.

use vstd::prelude::*;

verus! {

/// `x` is a multiple of `2^sc` that fits in a `wd`-bit two's complement integer.
pub open spec fn signed_int_fits(x: i64, wd: u8, sc: u8) -> bool {
    &&& (wd < 64 ==> -(1i64 << ((wd - 1) as u8)) <= x && x <= (1i64 << ((wd - 1) as u8)) - 1)
    &&& x & (((1i64 << sc) - 1) as i64) == 0
}

/// Check that `x` can be represented as a `wd`-bit signed integer with `sc` low zero bits.
#[verifier::rlimit(100)]
pub fn is_signed_int(x: i64, wd: u8, sc: u8) -> (r: bool)
    requires
        sc < wd <= 64,
    ensures
        r == signed_int_fits(x, wd, sc),
{
    let s = x;
    let up: u8 = 64 - wd + sc;
    let down: u8 = 64 - wd;
    let r = s == (s >> sc << up >> down);
    assert(r == signed_int_fits(x, wd, sc)) by (bit_vector)
        requires
            sc < wd <= 64,
            up == 64 - wd + sc,
            down == 64 - wd,
            r == (s == (s >> sc << up >> down)),
            s == x,
    ;
    r
}

} // verus!
