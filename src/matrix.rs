use vstd::prelude::*;

verus! {

/// A dense row-major matrix of `u64` elements.
#[derive(Debug)]
pub struct Matrix {
    pub data: Vec<Vec<u64>>,
    pub shape: (usize, usize),
}

/// The only way a multiplication can fail: the operands' shapes do not fit.
#[derive(Debug, Clone, Copy, PartialEq, Eq, Structural)]
pub enum MatrixError {
    DimensionMismatch,
}

/// Every row of `rows` has `cols` elements.
pub open spec fn rectangular(rows: Seq<Seq<u64>>, cols: int) -> bool {
    forall|i: int| 0 <= i < rows.len() ==> #[trigger] rows[i].len() == cols
}

impl View for Matrix {
    type V = Seq<Seq<u64>>;

    open spec fn view(&self) -> Seq<Seq<u64>> {
        self.data@.map_values(|r: Vec<u64>| r@)
    }
}

impl Clone for Matrix {
    fn clone(&self) -> (r: Matrix)
        ensures
            r@ == self@,
            r.shape == self.shape,
    {
        let mut data: Vec<Vec<u64>> = Vec::new();
        let mut i: usize = 0;
        while i < self.data.len()
            invariant
                i <= self.data@.len(),
                data@.len() == i,
                forall|q: int| 0 <= q < i ==> #[trigger] data@[q]@ == self.data@[q]@,
            decreases self.data@.len() - i,
        {
            data.push(self.data[i].clone());
            i += 1;
        }
        let r = Matrix { data, shape: self.shape };
        assert(r@ =~= self@);
        r
    }
}

impl Matrix {
    /// At least one row, every row as long as the first, and `shape` caches
    /// (row count, column count).
    pub open spec fn wf(&self) -> bool {
        &&& self.shape.0 == self@.len()
        &&& self.shape.0 > 0
        &&& rectangular(self@, self.shape.1 as int)
    }

    /// Builds a matrix from its rows, deriving the shape from them.
    pub fn new(data: Vec<Vec<u64>>) -> (r: Matrix)
        requires
            data@.len() > 0,
            rectangular(data@.map_values(|r: Vec<u64>| r@), data@[0]@.len() as int),
        ensures
            r.wf(),
            r.data == data,
            r.shape == (data.len(), data[0].len()),
    {
        let shape = (data.len(), data[0].len());
        Matrix { data, shape }
    }

    /// The number of rows.
    pub fn rows(&self) -> (r: usize)
        ensures
            r == self.shape.0,
    {
        self.shape.0
    }

    /// The number of columns.
    pub fn cols(&self) -> (r: usize)
        ensures
            r == self.shape.1,
    {
        self.shape.1
    }

    /// The element at row `i`, column `j`.
    pub fn get(&self, i: usize, j: usize) -> (r: u64)
        requires
            self.wf(),
            i < self.shape.0,
            j < self.shape.1,
        ensures
            r == self@[i as int][j as int],
    {
        assert(self@[i as int] == self.data@[i as int]@);
        self.data[i][j]
    }
}

/// Rows for a matrix of the given shape with every element equal to one, so
/// that benchmark runs are reproducible.
pub fn seed_matrix(shape: (usize, usize)) -> (r: Vec<Vec<u64>>)
    ensures
        r@.len() == shape.0,
        forall|i: int| 0 <= i < shape.0 ==> #[trigger] r@[i]@ == Seq::new(shape.1 as nat, |j: int| 1u64),
{
    let mut row: Vec<u64> = Vec::new();
    let mut j: usize = 0;
    while j < shape.1
        invariant
            j <= shape.1,
            row@ == Seq::new(j as nat, |k: int| 1u64),
        decreases shape.1 - j,
    {
        row.push(1);
        j += 1;
        assert(row@ =~= Seq::new(j as nat, |k: int| 1u64));
    }
    let mut data: Vec<Vec<u64>> = Vec::new();
    let mut i: usize = 0;
    while i < shape.0
        invariant
            i <= shape.0,
            row@ == Seq::new(shape.1 as nat, |k: int| 1u64),
            data@.len() == i,
            forall|q: int| 0 <= q < i ==> #[trigger] data@[q]@ == Seq::new(shape.1 as nat, |k: int| 1u64),
        decreases shape.0 - i,
    {
        data.push(row.clone());
        i += 1;
    }
    data
}

} // verus!
