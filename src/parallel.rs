use crate::kernels::{fused_fits, fused_product, fused_row, Reduction};
use crate::matrix::Matrix;
use rayon::iter::{IntoParallelIterator, ParallelIterator};
use vstd::prelude::*;

verus! {

/// Relies on rayon's `into_par_iter` over the range `0..m`, `map` and
/// `collect` into a `Vec`: the range is an exact-length iterator, so `Vec`'s
/// `ParallelExtend` writes the item for index `i` into slot `i`, and every
/// index is mapped exactly once on a worker of the global pool. The closure
/// only calls the verified `fused_row`, whose contract gives each row.
#[verifier::external_body]
pub(crate) fn fused_rows_parallel(b: &Matrix, c: &Matrix, d: &Matrix, how: Reduction) -> (r: Vec<
    Vec<u64>,
>)
    requires
        b.wf(),
        c.wf(),
        d.wf(),
        fused_fits(b@, c@, d@),
    ensures
        r@.len() == b@.len(),
        forall|i: int| 0 <= i < b@.len() ==> #[trigger] r@[i]@ == fused_product(b@, c@, d@)[i],
{
    (0..b.shape.0).into_par_iter().map(|i| fused_row(b, c, d, i, how)).collect()
}

} // verus!
