use crate::arith::{lemma_wrap_accumulate, lemma_wrapping_mul, word_modulus, wrap};
use crate::matrix::{rectangular, Matrix, MatrixError};
use vstd::prelude::*;

verus! {

/// The exact sum of the first `n` terms `a_row[k] * b[k][j]`.
pub open spec fn product_sum(a_row: Seq<u64>, b: Seq<Seq<u64>>, j: int, n: int) -> int
    decreases n,
{
    if n <= 0 {
        0
    } else {
        product_sum(a_row, b, j, n - 1) + a_row[n - 1] * b[n - 1][j]
    }
}

/// `a · b`: cell (i, j) is the wrapped sum over k of `a[i][k] * b[k][j]`.
pub open spec fn product(a: Seq<Seq<u64>>, b: Seq<Seq<u64>>) -> Seq<Seq<u64>> {
    Seq::new(
        a.len(),
        |i: int| Seq::new(b[0].len(), |j: int| wrap(product_sum(a[i], b, j, a[i].len() as int))),
    )
}

/// What the two-operand kernel returns on the given operands.
pub open spec fn product_outcome(a: Seq<Seq<u64>>, b: Seq<Seq<u64>>) -> Result<
    Seq<Seq<u64>>,
    MatrixError,
> {
    if a[0].len() == b.len() {
        Ok(product(a, b))
    } else {
        Err(MatrixError::DimensionMismatch)
    }
}

/// One cell of `a · b`.
fn product_cell(a: &Matrix, b: &Matrix, i: usize, j: usize) -> (r: u64)
    requires
        a.wf(),
        b.wf(),
        a.shape.1 == b.shape.0,
        i < a.shape.0,
        j < b.shape.1,
    ensures
        r == product(a@, b@)[i as int][j as int],
{
    let n = a.shape.1;
    let ghost ai = a@[i as int];
    assert(ai.len() == n);
    let mut acc: u64 = 0;
    let mut k: usize = 0;
    proof {
        vstd::arithmetic::div_mod::lemma_small_mod(0, word_modulus() as nat);
    }
    while k < n
        invariant
            a.wf(),
            b.wf(),
            n == a.shape.1,
            n == b.shape.0,
            i < a.shape.0,
            j < b.shape.1,
            ai == a@[i as int],
            k <= n,
            acc == wrap(product_sum(ai, b@, j as int, k as int)),
        decreases n - k,
    {
        assert(a@[i as int] == a.data@[i as int]@);
        assert(b@[k as int] == b.data@[k as int]@);
        assert(b@[k as int].len() == b.shape.1);
        let x = a.data[i][k];
        let y = b.data[k][j];
        let t = x.wrapping_mul(y);
        proof {
            lemma_wrapping_mul(x, y);
            lemma_wrap_accumulate(product_sum(ai, b@, j as int, k as int), acc, x * y, t);
        }
        acc = acc.wrapping_add(t);
        k += 1;
    }
    acc
}

/// Two-operand kernel: the ordinary product `a · b` of an m×n and an n×p
/// matrix, computed cell by cell.
pub fn matrix_product(a: Matrix, b: Matrix) -> (r: Result<Matrix, MatrixError>)
    requires
        a.wf(),
        b.wf(),
    ensures
        crate::kernels::outcome_view(r) == product_outcome(a@, b@),
        r matches Ok(m) ==> m.wf() && m.shape == (a.shape.0, b.shape.1),
{
    if a.shape.1 != b.shape.0 {
        return Err(MatrixError::DimensionMismatch);
    }
    let m = a.shape.0;
    let p = b.shape.1;
    let mut data: Vec<Vec<u64>> = Vec::new();
    let mut i: usize = 0;
    while i < m
        invariant
            a.wf(),
            b.wf(),
            a.shape.1 == b.shape.0,
            m == a.shape.0,
            p == b.shape.1,
            i <= m,
            data@.len() == i,
            forall|q: int| 0 <= q < i ==> #[trigger] data@[q]@ == product(a@, b@)[q],
        decreases m - i,
    {
        let mut row: Vec<u64> = Vec::new();
        let mut j: usize = 0;
        while j < p
            invariant
                a.wf(),
                b.wf(),
                a.shape.1 == b.shape.0,
                m == a.shape.0,
                p == b.shape.1,
                i < m,
                j <= p,
                row@ == product(a@, b@)[i as int].take(j as int),
            decreases p - j,
        {
            row.push(product_cell(&a, &b, i, j));
            j += 1;
            assert(row@ =~= product(a@, b@)[i as int].take(j as int));
        }
        assert(row@ =~= product(a@, b@)[i as int]);
        data.push(row);
        i += 1;
    }
    let ghost rows = data@.map_values(|r: Vec<u64>| r@);
    assert(rows =~= product(a@, b@));
    assert(b@[0].len() == p);
    assert(rectangular(rows, p as int));
    assert(data@[0]@.len() == p);
    Ok(Matrix::new(data))
}

} // verus!
