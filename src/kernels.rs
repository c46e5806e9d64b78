use crate::dot::{dot_lanes, dot_scalar, fused_dot};
use crate::matrix::{rectangular, Matrix, MatrixError};
use vstd::prelude::*;

verus! {

/// The lane widths a lane-grouped reduction can use.
#[derive(Debug, Clone, Copy, PartialEq, Eq, Structural)]
pub enum LaneWidth {
    X2,
    X4,
    X8,
    X16,
    X32,
    X64,
}

impl LaneWidth {
    pub open spec fn spec_lanes(self) -> nat {
        match self {
            LaneWidth::X2 => 2,
            LaneWidth::X4 => 4,
            LaneWidth::X8 => 8,
            LaneWidth::X16 => 16,
            LaneWidth::X32 => 32,
            LaneWidth::X64 => 64,
        }
    }

    /// The number of elements processed together.
    pub fn lanes(&self) -> (r: usize)
        ensures
            r == self.spec_lanes(),
    {
        match self {
            LaneWidth::X2 => 2,
            LaneWidth::X4 => 4,
            LaneWidth::X8 => 8,
            LaneWidth::X16 => 16,
            LaneWidth::X32 => 32,
            LaneWidth::X64 => 64,
        }
    }
}

/// How each output cell's inner reduction is computed.
#[derive(Debug, Clone, Copy, PartialEq, Eq, Structural)]
pub enum Reduction {
    Scalar,
    Lanes(LaneWidth),
}

/// The shapes of `b` (m×n), `c` and `d` (both p×n) fit the fused formula.
pub open spec fn fused_fits(b: Seq<Seq<u64>>, c: Seq<Seq<u64>>, d: Seq<Seq<u64>>) -> bool {
    &&& b[0].len() == c[0].len()
    &&& b[0].len() == d[0].len()
    &&& c.len() == d.len()
}

/// `b · (c + d)ᵀ`: cell (i, j) is the wrapped sum over k of
/// `b[i][k] * (c[j][k] + d[j][k])`, with `c` and `d` given transposed.
pub open spec fn fused_product(b: Seq<Seq<u64>>, c: Seq<Seq<u64>>, d: Seq<Seq<u64>>) -> Seq<
    Seq<u64>,
> {
    Seq::new(b.len(), |i: int| Seq::new(d.len(), |j: int| fused_dot(b[i], c[j], d[j])))
}

/// What every fused kernel returns on the given operands.
pub open spec fn fused_outcome(b: Seq<Seq<u64>>, c: Seq<Seq<u64>>, d: Seq<Seq<u64>>) -> Result<
    Seq<Seq<u64>>,
    MatrixError,
> {
    if fused_fits(b, c, d) {
        Ok(fused_product(b, c, d))
    } else {
        Err(MatrixError::DimensionMismatch)
    }
}

/// The view of a kernel's result.
pub open spec fn outcome_view(r: Result<Matrix, MatrixError>) -> Result<Seq<Seq<u64>>, MatrixError> {
    match r {
        Ok(m) => Ok(m@),
        Err(e) => Err(e),
    }
}

/// Shape requirements of the fused formula, decided on the cached shapes.
pub fn fused_shapes_fit(b: &Matrix, c: &Matrix, d: &Matrix) -> (r: bool)
    requires
        b.wf(),
        c.wf(),
        d.wf(),
    ensures
        r == fused_fits(b@, c@, d@),
{
    b.shape.1 == c.shape.1 && b.shape.1 == d.shape.1 && c.shape.0 == d.shape.0
}

/// One cell computed with lane-grouped accumulators of width `n`.
pub fn simd_n(b: &Matrix, i: usize, c: &Matrix, d: &Matrix, j: usize, n: usize) -> (r: u64)
    requires
        b.wf(),
        c.wf(),
        d.wf(),
        fused_fits(b@, c@, d@),
        i < b.shape.0,
        j < d.shape.0,
        n > 0,
    ensures
        r == fused_dot(b@[i as int], c@[j as int], d@[j as int]),
{
    let ghost bi = b@[i as int];
    let ghost cj = c@[j as int];
    let ghost dj = d@[j as int];
    assert(bi.len() == b.shape.1 && cj.len() == c.shape.1 && dj.len() == d.shape.1);
    dot_lanes(&b.data[i], &c.data[j], &d.data[j], n)
}

/// One cell computed with a single sequential accumulator.
pub fn fused_cell(b: &Matrix, i: usize, c: &Matrix, d: &Matrix, j: usize) -> (r: u64)
    requires
        b.wf(),
        c.wf(),
        d.wf(),
        fused_fits(b@, c@, d@),
        i < b.shape.0,
        j < d.shape.0,
    ensures
        r == fused_dot(b@[i as int], c@[j as int], d@[j as int]),
{
    let ghost bi = b@[i as int];
    let ghost cj = c@[j as int];
    let ghost dj = d@[j as int];
    assert(bi.len() == b.shape.1 && cj.len() == c.shape.1 && dj.len() == d.shape.1);
    dot_scalar(&b.data[i], &c.data[j], &d.data[j])
}

/// Row `i` of the fused product, every cell reduced as `how` says.
pub fn fused_row(b: &Matrix, c: &Matrix, d: &Matrix, i: usize, how: Reduction) -> (r: Vec<u64>)
    requires
        b.wf(),
        c.wf(),
        d.wf(),
        fused_fits(b@, c@, d@),
        i < b.shape.0,
    ensures
        r@ == fused_product(b@, c@, d@)[i as int],
{
    let p = d.shape.0;
    let mut row: Vec<u64> = Vec::new();
    let mut j: usize = 0;
    while j < p
        invariant
            b.wf(),
            c.wf(),
            d.wf(),
            fused_fits(b@, c@, d@),
            i < b.shape.0,
            p == d.shape.0,
            j <= p,
            row@ == fused_product(b@, c@, d@)[i as int].take(j as int),
        decreases p - j,
    {
        let v = match how {
            Reduction::Scalar => fused_cell(b, i, c, d, j),
            Reduction::Lanes(w) => simd_n(b, i, c, d, j, w.lanes()),
        };
        row.push(v);
        j += 1;
        assert(row@ =~= fused_product(b@, c@, d@)[i as int].take(j as int));
    }
    assert(row@ =~= fused_product(b@, c@, d@)[i as int]);
    row
}

/// Wraps finished rows of a fused product as a matrix.
fn fused_result(b: &Matrix, c: &Matrix, d: &Matrix, data: Vec<Vec<u64>>) -> (r: Matrix)
    requires
        b.wf(),
        c.wf(),
        d.wf(),
        fused_fits(b@, c@, d@),
        data@.len() == b@.len(),
        forall|i: int| 0 <= i < b@.len() ==> #[trigger] data@[i]@ == fused_product(b@, c@, d@)[i],
    ensures
        r.wf(),
        r@ == fused_product(b@, c@, d@),
        r.shape == (b.shape.0, d.shape.0),
{
    let ghost rows = data@.map_values(|r: Vec<u64>| r@);
    assert(rows =~= fused_product(b@, c@, d@));
    assert(rectangular(rows, d.shape.0 as int));
    assert(data@[0]@.len() == d.shape.0);
    Matrix::new(data)
}

/// Rows of the fused product computed one after another.
fn fused_rows_sequential(b: &Matrix, c: &Matrix, d: &Matrix, how: Reduction) -> (r: Vec<Vec<u64>>)
    requires
        b.wf(),
        c.wf(),
        d.wf(),
        fused_fits(b@, c@, d@),
    ensures
        r@.len() == b@.len(),
        forall|i: int| 0 <= i < b@.len() ==> #[trigger] r@[i]@ == fused_product(b@, c@, d@)[i],
{
    let m = b.shape.0;
    let mut data: Vec<Vec<u64>> = Vec::new();
    let mut i: usize = 0;
    while i < m
        invariant
            b.wf(),
            c.wf(),
            d.wf(),
            fused_fits(b@, c@, d@),
            m == b.shape.0,
            i <= m,
            data@.len() == i,
            forall|q: int| 0 <= q < i ==> #[trigger] data@[q]@ == fused_product(b@, c@, d@)[q],
        decreases m - i,
    {
        data.push(fused_row(b, c, d, i, how));
        i += 1;
    }
    data
}

/// Scalar sequential kernel: `b · (c + d)ᵀ`, with `c` and `d` transposed.
pub fn matrix_multiplication(b: Matrix, c: Matrix, d: Matrix) -> (r: Result<Matrix, MatrixError>)
    requires
        b.wf(),
        c.wf(),
        d.wf(),
    ensures
        outcome_view(r) == fused_outcome(b@, c@, d@),
        r matches Ok(a) ==> a.wf() && a.shape == (b.shape.0, d.shape.0),
{
    if !fused_shapes_fit(&b, &c, &d) {
        return Err(MatrixError::DimensionMismatch);
    }
    let data = fused_rows_sequential(&b, &c, &d, Reduction::Scalar);
    Ok(fused_result(&b, &c, &d, data))
}

/// Lane-grouped sequential kernel.
pub fn matrix_multiplication_simd(b: Matrix, c: Matrix, d: Matrix, width: LaneWidth) -> (r: Result<
    Matrix,
    MatrixError,
>)
    requires
        b.wf(),
        c.wf(),
        d.wf(),
    ensures
        outcome_view(r) == fused_outcome(b@, c@, d@),
        r matches Ok(a) ==> a.wf() && a.shape == (b.shape.0, d.shape.0),
{
    if !fused_shapes_fit(&b, &c, &d) {
        return Err(MatrixError::DimensionMismatch);
    }
    let data = fused_rows_sequential(&b, &c, &d, Reduction::Lanes(width));
    Ok(fused_result(&b, &c, &d, data))
}

/// Row-parallel scalar kernel.
pub fn matrix_multiplication_parallel(b: Matrix, c: Matrix, d: Matrix) -> (r: Result<
    Matrix,
    MatrixError,
>)
    requires
        b.wf(),
        c.wf(),
        d.wf(),
    ensures
        outcome_view(r) == fused_outcome(b@, c@, d@),
        r matches Ok(a) ==> a.wf() && a.shape == (b.shape.0, d.shape.0),
{
    if !fused_shapes_fit(&b, &c, &d) {
        return Err(MatrixError::DimensionMismatch);
    }
    let data = crate::parallel::fused_rows_parallel(&b, &c, &d, Reduction::Scalar);
    Ok(fused_result(&b, &c, &d, data))
}

/// Row-parallel lane-grouped kernel.
pub fn matrix_multiplication_parallel_simd(
    b: Matrix,
    c: Matrix,
    d: Matrix,
    width: LaneWidth,
) -> (r: Result<Matrix, MatrixError>)
    requires
        b.wf(),
        c.wf(),
        d.wf(),
    ensures
        outcome_view(r) == fused_outcome(b@, c@, d@),
        r matches Ok(a) ==> a.wf() && a.shape == (b.shape.0, d.shape.0),
{
    if !fused_shapes_fit(&b, &c, &d) {
        return Err(MatrixError::DimensionMismatch);
    }
    let data = crate::parallel::fused_rows_parallel(&b, &c, &d, Reduction::Lanes(width));
    Ok(fused_result(&b, &c, &d, data))
}

} // verus!
