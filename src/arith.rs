use vstd::arithmetic::div_mod::{
    lemma_add_mod_noop,
    lemma_add_mod_noop_right,
    lemma_mod_add_multiples_vanish,
    lemma_mul_mod_noop_right,
    lemma_small_mod,
};
use vstd::prelude::*;

verus! {

/// The number of distinct `u64` values.
pub open spec fn word_modulus() -> int {
    u64::MAX as int + 1
}

/// Reduces an exact integer to the `u64` it wraps to.
pub open spec fn wrap(x: int) -> u64 {
    (x % word_modulus()) as u64
}

/// Sum of a sequence of words, as an exact integer.
pub open spec fn sum_words(s: Seq<u64>) -> int
    decreases s.len(),
{
    if s.len() == 0 {
        0
    } else {
        sum_words(s.drop_last()) + s.last()
    }
}

pub proof fn lemma_wrapping_add(x: u64, y: u64)
    ensures
        x.wrapping_add(y) == wrap(x + y),
        x.wrapping_add(y) as int == (x + y) % word_modulus(),
{
    let m = word_modulus();
    if x + y < m {
        lemma_small_mod((x + y) as nat, m as nat);
    } else {
        lemma_mod_add_multiples_vanish(x + y - m, m);
        lemma_small_mod((x + y - m) as nat, m as nat);
    }
}

pub proof fn lemma_wrapping_mul(x: u64, y: u64)
    ensures
        x.wrapping_mul(y) == wrap(x * y),
        x.wrapping_mul(y) as int == (x * y) % word_modulus(),
{
}

/// Adding a wrapped word to a wrapped accumulator is the wrap of the exact sum.
pub proof fn lemma_wrap_accumulate(total: int, acc: u64, t: int, tw: u64)
    requires
        acc == wrap(total),
        tw == wrap(t),
    ensures
        acc.wrapping_add(tw) == wrap(total + t),
{
    let m = word_modulus();
    lemma_wrapping_add(acc, tw);
    lemma_add_mod_noop(total, t, m);
}

/// Replacing one element changes the sum by the difference.
pub proof fn lemma_sum_words_update(s: Seq<u64>, i: int, v: u64)
    requires
        0 <= i < s.len(),
    ensures
        sum_words(s.update(i, v)) == sum_words(s) - s[i] + v,
    decreases s.len(),
{
    let u = s.update(i, v);
    if i == s.len() - 1 {
        assert(u.drop_last() =~= s.drop_last());
    } else {
        lemma_sum_words_update(s.drop_last(), i, v);
        assert(u.drop_last() =~= s.drop_last().update(i, v));
    }
}

/// Adding a wrapped term into one lane of a set of lane accumulators adds the
/// exact term to the sum of the lanes, modulo 2^64.
pub proof fn lemma_lane_accumulate(s: Seq<u64>, l: int, total: int, t: int, tw: u64)
    requires
        0 <= l < s.len(),
        tw == wrap(t),
        sum_words(s) % word_modulus() == total % word_modulus(),
    ensures
        sum_words(s.update(l, s[l].wrapping_add(tw))) % word_modulus() == (total + t)
            % word_modulus(),
{
    let m = word_modulus();
    let a = s[l];
    lemma_wrapping_add(a, tw);
    lemma_sum_words_update(s, l, a.wrapping_add(tw));
    let x = sum_words(s);
    // (x - a) + ((a + tw) % m) == (x - a) + (a + tw) (mod m)
    lemma_add_mod_noop_right(x - a, a + tw, m);
    // x + tw == x + t (mod m)
    lemma_add_mod_noop_right(x, t, m);
    // x + t == total + t (mod m)
    lemma_add_mod_noop(x, t, m);
    lemma_add_mod_noop(total, t, m);
}

/// A product whose right factor was wrapped first wraps to the same word.
pub proof fn lemma_wrap_mul_right(x: int, y: int)
    ensures
        wrap(x * (y % word_modulus())) == wrap(x * y),
{
    lemma_mul_mod_noop_right(x, y, word_modulus());
}

} // verus!
