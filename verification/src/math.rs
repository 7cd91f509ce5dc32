//! Small integer utilities shared by the grid code.

use vstd::prelude::*;

verus! {

use vstd::arithmetic::div_mod::{
    lemma_fundamental_div_mod, lemma_mod_multiples_vanish, lemma_small_mod,
};

/// Euclidean modulo, computed as `((a % b) + b) % b` with the intermediate
/// sum widened so it cannot overflow.  For a positive modulus the result is
/// the canonical representative in `[0, b)`; in Verus's ghost arithmetic `%`
/// is already the Euclidean remainder, so the contract states that directly.
pub fn euclidean_mod(a: i32, b: i32) -> (r: i32)
    requires
        b != 0,
        !(a == i32::MIN && b == -1),
    ensures
        b > 0 ==> r == a as int % b as int,
        b > 0 ==> 0 <= r < b,
{
    let wa = a as i64;
    let wb = b as i64;
    let m = wa % wb;
    let s = m + wb;
    let r64 = s % wb;
    proof {
        if b > 0 {
            if a >= 0 {
                // m is already the Euclidean remainder; adding one modulus
                // and reducing again leaves it unchanged.
                lemma_mod_multiples_vanish(1, m as int, wb as int);
                lemma_small_mod(m as nat, wb as nat);
            } else {
                let q = (-wa) as int % wb as int;
                let d = (-wa) as int / wb as int;
                lemma_fundamental_div_mod(-wa as int, wb as int);
                // s == wa + wb * (d + 1), so reducing s modulo wb gives
                // the Euclidean remainder of wa itself.
                assert(wb * (d + 1) == wb * d + wb) by (nonlinear_arith);
                assert(s == wb * (d + 1) + wa);
                lemma_mod_multiples_vanish(d + 1, wa as int, wb as int);
                if q == 0 {
                    assert(s == wb);
                    lemma_mod_multiples_vanish(1, 0, wb as int);
                    lemma_small_mod(0, wb as nat);
                } else {
                    lemma_small_mod(s as nat, wb as nat);
                }
            }
        }
    }
    r64 as i32
}

} // verus!
