use crate::arith::{word_modulus, wrap};
use crate::dot::{fused_sum, fused_term};
use crate::kernels::{fused_fits, fused_outcome, fused_product};
use crate::matrix::Matrix;
use crate::product::{product, product_outcome, product_sum};
use vstd::arithmetic::div_mod::{lemma_add_mod_noop, lemma_mul_mod_noop_right, lemma_small_mod};
use vstd::prelude::*;

verus! {

/// The right-hand operand that the fused formula multiplies by: the
/// transpose of `c + d` (elementwise, wrapped), an n×p matrix for p×n `c`, `d`.
pub open spec fn transposed_sum(c: Seq<Seq<u64>>, d: Seq<Seq<u64>>) -> Seq<Seq<u64>> {
    Seq::new(
        c[0].len(),
        |k: int| Seq::new(c.len(), |j: int| wrap(c[j][k] + d[j][k])),
    )
}

proof fn lemma_sums_agree(b: Seq<u64>, c: Seq<u64>, d: Seq<u64>, t: Seq<Seq<u64>>, j: int, n: int)
    requires
        0 <= n <= b.len(),
        n <= c.len(),
        n <= d.len(),
        n <= t.len(),
        forall|k: int| 0 <= k < n ==> #[trigger] t[k][j] == wrap(c[k] + d[k]),
    ensures
        product_sum(b, t, j, n) % word_modulus() == fused_sum(b, c, d, n) % word_modulus(),
    decreases n,
{
    let m = word_modulus();
    if n > 0 {
        lemma_sums_agree(b, c, d, t, j, n - 1);
        let k = n - 1;
        let x = c[k] + d[k];
        lemma_small_mod((x % m) as nat, m as nat);
        assert(t[k][j] as int == x % m);
        lemma_mul_mod_noop_right(b[k] as int, x, m);
        let p = product_sum(b, t, j, k);
        let f = fused_sum(b, c, d, k);
        lemma_add_mod_noop(p, b[k] * t[k][j], m);
        lemma_add_mod_noop(f, fused_term(b, c, d, k), m);
    }
}

/// The fused kernels compute `b · (c + d)ᵀ`: their result is the ordinary
/// product of `b` with the transpose of `c + d`.
pub proof fn lemma_fused_is_product_with_transposed_sum(b: Matrix, c: Matrix, d: Matrix)
    requires
        b.wf(),
        c.wf(),
        d.wf(),
        fused_fits(b@, c@, d@),
        b.shape.1 > 0,
    ensures
        fused_product(b@, c@, d@) == product(b@, transposed_sum(c@, d@)),
        fused_outcome(b@, c@, d@) == product_outcome(b@, transposed_sum(c@, d@)),
{
    let t = transposed_sum(c@, d@);
    let lhs = fused_product(b@, c@, d@);
    let rhs = product(b@, t);
    assert(b@[0].len() == b.shape.1);
    assert(c@[0].len() == c.shape.1);
    assert(t[0].len() == c@.len());
    assert forall|i: int, j: int| 0 <= i < b@.len() && 0 <= j < d@.len() implies #[trigger] lhs[i][j]
        == rhs[i][j] by {
        let bi = b@[i];
        let n = bi.len() as int;
        assert(bi.len() == b.shape.1);
        assert(c@[j].len() == c.shape.1);
        assert(d@[j].len() == d.shape.1);
        assert forall|k: int| 0 <= k < n implies #[trigger] t[k][j] == wrap(c@[j][k] + d@[j][k]) by {}
        lemma_sums_agree(bi, c@[j], d@[j], t, j, n);
    }
    assert forall|i: int| 0 <= i < b@.len() implies #[trigger] lhs[i] == rhs[i] by {
        assert(lhs[i] =~= rhs[i]);
    }
    assert(lhs =~= rhs);
}

/// Every fused kernel is a function of the operands' contents: two calls on
/// operands with equal contents (such as clones) give equal results.
pub proof fn lemma_fused_outcome_depends_on_contents(
    b1: Matrix,
    c1: Matrix,
    d1: Matrix,
    b2: Matrix,
    c2: Matrix,
    d2: Matrix,
)
    requires
        b1@ == b2@,
        c1@ == c2@,
        d1@ == d2@,
    ensures
        fused_outcome(b1@, c1@, d1@) == fused_outcome(b2@, c2@, d2@),
{
}

/// The two-operand kernel is a function of the operands' contents as well.
pub proof fn lemma_product_outcome_depends_on_contents(a1: Matrix, b1: Matrix, a2: Matrix, b2: Matrix)
    requires
        a1@ == a2@,
        b1@ == b2@,
    ensures
        product_outcome(a1@, b1@) == product_outcome(a2@, b2@),
{
}

/// Mismatched shapes are always refused, whichever operand is off.
pub proof fn lemma_mismatch_refused(b: Matrix, c: Matrix, d: Matrix)
    requires
        b.wf(),
        c.wf(),
        d.wf(),
        b.shape.1 != c.shape.1 || b.shape.1 != d.shape.1 || c.shape.0 != d.shape.0,
    ensures
        fused_outcome(b@, c@, d@) is Err,
{
    assert(b@[0].len() == b.shape.1);
    assert(c@[0].len() == c.shape.1);
    assert(d@[0].len() == d.shape.1);
}

} // verus!
