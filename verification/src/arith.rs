//! Modular arithmetic on 128-bit integers.

use vstd::prelude::*;
use vstd::arithmetic::div_mod::{
    lemma_add_mod_noop, lemma_add_mod_noop_right, lemma_fundamental_div_mod,
    lemma_fundamental_div_mod_converse, lemma_mod_bound, lemma_mul_mod_noop_left, lemma_small_mod,
};

verus! {

/// Largest modulus whose residues can be doubled inside a `u128`.
pub const MODULUS_MAX: u128 = 0x8000_0000_0000_0000_0000_0000_0000_0000;

/// One round of binary multiplication keeps the running total congruent:
/// the lowest bit of `rest` moves `term` into `acc`, and `term` doubles for
/// the remaining half.
proof fn lemma_binary_round(acc: int, term: int, rest: int, m: int)
    requires
        0 < m,
        0 <= rest,
    ensures
        ((acc + (rest % 2) * term) % m + ((term + term) % m) * (rest / 2)) % m == (acc + term
            * rest) % m,
{
    let bit = rest % 2;
    let half = rest / 2;
    let x = acc + bit * term;
    let y = (term + term) * half;
    let z = ((term + term) % m) * half;
    assert(x + y == acc + term * rest) by (nonlinear_arith)
        requires
            rest == 2 * half + bit,
            x == acc + bit * term,
            y == (term + term) * half,
    ;
    lemma_mul_mod_noop_left(term + term, half, m);
    assert(z % m == y % m);
    lemma_add_mod_noop_right(x % m, z, m);
    lemma_add_mod_noop(x, z, m);
    lemma_add_mod_noop_right(x, z, m);
    lemma_add_mod_noop_right(x, y, m);
}

/// The product `a * b` reduced modulo `m`, computed by doubling so that no
/// intermediate value leaves `u128`.
pub fn mul_mod(a: u128, b: u64, m: u128) -> (r: u128)
    requires
        0 < m <= MODULUS_MAX,
        a < m,
    ensures
        r == (a * b) % (m as int),
{
    let mut acc: u128 = 0;
    let mut term: u128 = a;
    let mut rest: u64 = b;
    while rest > 0
        invariant
            0 < m <= MODULUS_MAX,
            acc < m,
            term < m,
            (acc + term * rest) % (m as int) == (a * b) % (m as int),
        decreases rest,
    {
        let ghost acc0 = acc as int;
        let ghost term0 = term as int;
        let ghost rest0 = rest as int;
        if rest % 2 == 1 {
            acc = (acc + term) % m;
        }
        term = (term + term) % m;
        rest = rest / 2;
        proof {
            lemma_binary_round(acc0, term0, rest0, m as int);
            lemma_small_mod(acc0 as nat, m as nat);
            assert((rest0 % 2) * term0 == if rest0 % 2 == 1 {
                term0
            } else {
                0
            }) by (nonlinear_arith)
                requires
                    0 <= rest0 % 2 <= 1,
            ;
            assert(acc as int == (acc0 + (rest0 % 2) * term0) % (m as int));
        }
    }
    proof {
        lemma_small_mod(acc as nat, m as nat);
    }
    acc
}

/// The remainder of `x` by `m` that lies in `0..m` whatever the sign of `x`.
pub fn floor_mod(x: i128, m: u128) -> (r: u128)
    requires
        0 < m,
    ensures
        r == (x as int) % (m as int),
{
    if x >= 0 {
        (x as u128) % m
    } else {
        let below: u128 = (-(x + 1)) as u128 + 1;
        let back: u128 = below % m;
        proof {
            let q = (below as int) / (m as int);
            lemma_fundamental_div_mod(below as int, m as int);
            lemma_mod_bound(below as int, m as int);
            if back == 0 {
                assert(x as int == (-q) * (m as int) + 0) by (nonlinear_arith)
                    requires
                        below as int == (m as int) * q,
                        x as int == -(below as int),
                ;
                lemma_fundamental_div_mod_converse(x as int, m as int, -q, 0);
            } else {
                assert(x as int == (-q - 1) * (m as int) + (m - back)) by (nonlinear_arith)
                    requires
                        below as int == (m as int) * q + back,
                        x as int == -(below as int),
                ;
                lemma_fundamental_div_mod_converse(x as int, m as int, -q - 1, m - back);
            }
        }
        if back == 0 {
            0
        } else {
            m - back
        }
    }
}

} // verus!
