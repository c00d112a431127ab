//! The wrapping checksum that a read pass accumulates.

use vstd::prelude::*;

verus! {

/// Number of distinct values of a 64-bit word; the modulus of the
/// accumulator's wrapping arithmetic.
pub open spec fn word_modulus() -> int {
    0x1_0000_0000_0000_0000
}

/// The checksum of a sequence of words: every word folded into a single
/// scalar with wrapping (modular) addition, in ascending order.
pub open spec fn wrapping_sum(s: Seq<u64>) -> u64
    decreases s.len(),
{
    if s.len() == 0 {
        0u64
    } else {
        vstd::wrapping::u64_specs::wrapping_add(wrapping_sum(s.drop_last()), s.last())
    }
}

/// Wrapping addition of two words is ordinary addition modulo `word_modulus()`.
pub proof fn lemma_wrapping_add_is_mod(a: u64, b: u64)
    ensures
        vstd::wrapping::u64_specs::wrapping_add(a, b) == (a + b) % word_modulus(),
{
    if a + b > u64::MAX {
        vstd::arithmetic::div_mod::lemma_mod_sub_multiples_vanish(a + b, word_modulus());
        vstd::arithmetic::div_mod::lemma_small_mod((a + b - word_modulus()) as nat, word_modulus() as nat);
    } else {
        vstd::arithmetic::div_mod::lemma_small_mod((a + b) as nat, word_modulus() as nat);
    }
}

/// Round-trip fidelity of the fill/read loops: the checksum of a region
/// holding `n` copies of `v` — what a read pass returns right after a write
/// pass with fill pattern `v` — is exactly `n * v`, reduced by the
/// accumulator's wrapping arithmetic.
pub proof fn lemma_constant_sum(n: nat, v: u64)
    ensures
        wrapping_sum(Seq::new(n, |i: int| v)) == (n * v) % word_modulus(),
    decreases n,
{
    let s = Seq::new(n, |i: int| v);
    if n == 0 {
        assert(n * v == 0) by (nonlinear_arith)
            requires n == 0;
    } else {
        lemma_constant_sum((n - 1) as nat, v);
        assert(s.drop_last() =~= Seq::new((n - 1) as nat, |i: int| v));
        lemma_wrapping_add_is_mod(wrapping_sum(s.drop_last()), v);
        vstd::arithmetic::div_mod::lemma_small_mod(v as nat, word_modulus() as nat);
        vstd::arithmetic::div_mod::lemma_add_mod_noop((n - 1) * v, v as int, word_modulus());
        assert((n - 1) * v + v == n * v) by (nonlinear_arith)
            requires n >= 1;
    }
}

} // verus!
