use crate::arith::{
    lemma_lane_accumulate,
    lemma_wrap_accumulate,
    lemma_wrap_mul_right,
    lemma_wrapping_add,
    lemma_wrapping_mul,
    sum_words,
    word_modulus,
    wrap,
};
use vstd::prelude::*;

verus! {

/// The `k`-th term of the fused dot product `b · (c + d)`, exactly.
pub open spec fn fused_term(b: Seq<u64>, c: Seq<u64>, d: Seq<u64>, k: int) -> int {
    b[k] * (c[k] + d[k])
}

/// The exact sum of the first `n` terms of `b · (c + d)`.
pub open spec fn fused_sum(b: Seq<u64>, c: Seq<u64>, d: Seq<u64>, n: int) -> int
    decreases n,
{
    if n <= 0 {
        0
    } else {
        fused_sum(b, c, d, n - 1) + fused_term(b, c, d, n - 1)
    }
}

/// `b · (c + d)` over the whole length of `b`, wrapped to a word.
pub open spec fn fused_dot(b: Seq<u64>, c: Seq<u64>, d: Seq<u64>) -> u64 {
    wrap(fused_sum(b, c, d, b.len() as int))
}

/// The wrapped value of one term `b * (c + d)`.
pub fn fused_term_word(b: u64, c: u64, d: u64) -> (r: u64)
    ensures
        r == wrap(b * (c + d)),
{
    let s = c.wrapping_add(d);
    let r = b.wrapping_mul(s);
    proof {
        lemma_wrapping_add(c, d);
        lemma_wrapping_mul(b, s);
        lemma_wrap_mul_right(b as int, c + d);
    }
    r
}

/// Sequential reduction: one accumulator, one term at a time.
pub fn dot_scalar(b: &Vec<u64>, c: &Vec<u64>, d: &Vec<u64>) -> (r: u64)
    requires
        c@.len() == b@.len(),
        d@.len() == b@.len(),
    ensures
        r == fused_dot(b@, c@, d@),
{
    let n = b.len();
    let mut acc: u64 = 0;
    let mut k: usize = 0;
    proof {
        assert(fused_sum(b@, c@, d@, 0) == 0);
        vstd::arithmetic::div_mod::lemma_small_mod(0, word_modulus() as nat);
    }
    while k < n
        invariant
            n == b@.len(),
            c@.len() == n,
            d@.len() == n,
            k <= n,
            acc == wrap(fused_sum(b@, c@, d@, k as int)),
        decreases n - k,
    {
        let t = fused_term_word(b[k], c[k], d[k]);
        proof {
            lemma_wrap_accumulate(fused_sum(b@, c@, d@, k as int), acc, fused_term(b@, c@, d@, k as int), t);
        }
        acc = acc.wrapping_add(t);
        k += 1;
    }
    acc
}

/// Lane-grouped reduction with `lanes` accumulators: each stride loads
/// `lanes` consecutive elements of every operand, adds the products into the
/// matching lane, and moves on; the lanes are then summed horizontally. A
/// remainder shorter than one stride is added term by term afterwards.
pub fn dot_lanes(b: &Vec<u64>, c: &Vec<u64>, d: &Vec<u64>, lanes: usize) -> (r: u64)
    requires
        c@.len() == b@.len(),
        d@.len() == b@.len(),
        lanes > 0,
    ensures
        r == fused_dot(b@, c@, d@),
{
    let n = b.len();
    let mut acc: Vec<u64> = Vec::new();
    while acc.len() < lanes
        invariant
            acc@.len() <= lanes,
            forall|q: int| 0 <= q < acc@.len() ==> acc@[q] == 0u64,
        decreases lanes - acc@.len(),
    {
        acc.push(0);
    }
    proof {
        lemma_sum_words_zero(acc@);
    }
    let mut k: usize = 0;
    while lanes <= n - k
        invariant
            n == b@.len(),
            c@.len() == n,
            d@.len() == n,
            lanes > 0,
            k <= n,
            acc@.len() == lanes,
            sum_words(acc@) % word_modulus() == fused_sum(b@, c@, d@, k as int) % word_modulus(),
        decreases n - k,
    {
        let mut l: usize = 0;
        while l < lanes
            invariant
                n == b@.len(),
                c@.len() == n,
                d@.len() == n,
                k + lanes <= n,
                l <= lanes,
                acc@.len() == lanes,
                sum_words(acc@) % word_modulus() == fused_sum(b@, c@, d@, k + l) % word_modulus(),
            decreases lanes - l,
        {
            let t = fused_term_word(b[k + l], c[k + l], d[k + l]);
            proof {
                lemma_lane_accumulate(acc@, l as int, fused_sum(b@, c@, d@, k + l), fused_term(b@, c@, d@, k + l), t);
            }
            let v = acc[l].wrapping_add(t);
            acc.set(l, v);
            l += 1;
        }
        k += lanes;
    }
    let mut total: u64 = 0;
    let mut l: usize = 0;
    while l < lanes
        invariant
            acc@.len() == lanes,
            l <= lanes,
            total == wrap(sum_words(acc@.take(l as int))),
        decreases lanes - l,
    {
        proof {
            assert(acc@.take(l + 1).drop_last() =~= acc@.take(l as int));
            lemma_wrap_accumulate(sum_words(acc@.take(l as int)), total, acc@[l as int] as int, acc@[l as int]);
            vstd::arithmetic::div_mod::lemma_small_mod(acc@[l as int] as nat, word_modulus() as nat);
        }
        total = total.wrapping_add(acc[l]);
        l += 1;
    }
    proof {
        assert(acc@.take(lanes as int) =~= acc@);
    }
    while k < n
        invariant
            n == b@.len(),
            c@.len() == n,
            d@.len() == n,
            k <= n,
            total == wrap(fused_sum(b@, c@, d@, k as int)),
        decreases n - k,
    {
        let t = fused_term_word(b[k], c[k], d[k]);
        proof {
            lemma_wrap_accumulate(fused_sum(b@, c@, d@, k as int), total, fused_term(b@, c@, d@, k as int), t);
        }
        total = total.wrapping_add(t);
        k += 1;
    }
    total
}

proof fn lemma_sum_words_zero(s: Seq<u64>)
    requires
        forall|q: int| 0 <= q < s.len() ==> s[q] == 0u64,
    ensures
        sum_words(s) == 0,
    decreases s.len(),
{
    if s.len() > 0 {
        lemma_sum_words_zero(s.drop_last());
    }
}

} // verus!
