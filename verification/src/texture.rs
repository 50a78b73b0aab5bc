//! The wrap-around of texture sampling.
//!
//! A texture coordinate is scaled by the image dimension and truncated in
//! floating point outside this crate; the truncated value then has to be
//! folded into the image's index range, negative values wrapping around
//! from the far edge. That folding is verified here: the result is the
//! remainder of the truncated coordinate modulo the dimension, taken
//! non-negative.

use vstd::prelude::*;

verus! {

/// Folds a truncated, possibly negative texture coordinate into the image
/// index range `0 .. max`.
pub fn wrap_coordinate(truncated: i32, max: u32) -> (r: u32)
    requires
        max > 0,
        max <= i32::MAX as u32,
    ensures
        r as int == truncated as int % max as int,
        r < max,
{
    let signed_max = max as i32;
    let wrapped = truncated % signed_max;
    proof {
        let t = truncated as int;
        let m = max as int;
        vstd::arithmetic::div_mod::lemma_fundamental_div_mod(t, m);
        let q = t / m;
        let e = t % m;
        if truncated < 0 {
            if e == 0 {
                assert(-t == (-q) * m + 0) by (nonlinear_arith)
                    requires
                        t == m * q + e,
                        e == 0,
                ;
                vstd::arithmetic::div_mod::lemma_fundamental_div_mod_converse(-t, m, -q, 0);
            } else {
                assert(-t == (-q - 1) * m + (m - e)) by (nonlinear_arith)
                    requires
                        t == m * q + e,
                ;
                vstd::arithmetic::div_mod::lemma_fundamental_div_mod_converse(
                    -t,
                    m,
                    -q - 1,
                    m - e,
                );
            }
        }
    }
    if wrapped < 0 {
        (wrapped + signed_max) as u32
    } else {
        wrapped as u32
    }
}

} // verus!
