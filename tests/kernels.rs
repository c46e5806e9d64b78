use matmul::kernels::{
    matrix_multiplication, matrix_multiplication_parallel, matrix_multiplication_parallel_simd,
    matrix_multiplication_simd, simd_n, fused_cell, fused_row, LaneWidth, Reduction,
};
use matmul::matrix::{seed_matrix, Matrix, MatrixError};
use matmul::product::matrix_product;

const WIDTHS: [LaneWidth; 6] = [
    LaneWidth::X2,
    LaneWidth::X4,
    LaneWidth::X8,
    LaneWidth::X16,
    LaneWidth::X32,
    LaneWidth::X64,
];

fn from_fn(rows: usize, cols: usize, f: impl Fn(usize, usize) -> u64) -> Matrix {
    Matrix::new((0..rows).map(|i| (0..cols).map(|j| f(i, j)).collect()).collect())
}

/// Straightforward triple loop with wrapping arithmetic.
fn reference_fused(b: &Matrix, c: &Matrix, d: &Matrix) -> Vec<Vec<u64>> {
    let mut out = vec![vec![0u64; d.shape.0]; b.shape.0];
    for i in 0..b.shape.0 {
        for j in 0..d.shape.0 {
            let mut s = 0u64;
            for k in 0..b.shape.1 {
                s = s.wrapping_add(b.data[i][k].wrapping_mul(c.data[j][k].wrapping_add(d.data[j][k])));
            }
            out[i][j] = s;
        }
    }
    out
}

fn all_four(b: &Matrix, c: &Matrix, d: &Matrix, w: LaneWidth) -> Vec<Result<Matrix, MatrixError>> {
    vec![
        matrix_multiplication(b.clone(), c.clone(), d.clone()),
        matrix_multiplication_simd(b.clone(), c.clone(), d.clone(), w),
        matrix_multiplication_parallel(b.clone(), c.clone(), d.clone()),
        matrix_multiplication_parallel_simd(b.clone(), c.clone(), d.clone(), w),
    ]
}

#[test]
fn fused_all_ones_4x4_gives_eight() {
    let m = Matrix::new(seed_matrix((4, 4)));
    for w in WIDTHS {
        for r in all_four(&m, &m, &m, w) {
            let a = r.unwrap();
            assert_eq!(a.shape, (4, 4));
            assert_eq!(a.data, vec![vec![8u64; 4]; 4]);
        }
    }
}

#[test]
fn product_with_identity_returns_other_operand() {
    let a = Matrix::new(vec![vec![1, 0], vec![0, 1]]);
    let b = Matrix::new(vec![vec![5, 6], vec![7, 8]]);
    let r = matrix_product(a, b).unwrap();
    assert_eq!(r.data, vec![vec![5, 6], vec![7, 8]]);
    assert_eq!(r.shape, (2, 2));
}

#[test]
fn product_of_rectangular_matrices() {
    // [[1,2,3],[4,5,6]] · [[7,8],[9,10],[11,12]] = [[58,64],[139,154]]
    let a = Matrix::new(vec![vec![1, 2, 3], vec![4, 5, 6]]);
    let b = Matrix::new(vec![vec![7, 8], vec![9, 10], vec![11, 12]]);
    let r = matrix_product(a, b).unwrap();
    assert_eq!(r.data, vec![vec![58, 64], vec![139, 154]]);
    assert_eq!(r.shape, (2, 2));
}

#[test]
fn product_mismatch_2x3_by_2x2_fails() {
    let a = from_fn(2, 3, |i, j| (i + j) as u64);
    let b = from_fn(2, 2, |i, j| (i * j) as u64);
    assert_eq!(matrix_product(a, b).unwrap_err(), MatrixError::DimensionMismatch);
}

#[test]
fn fused_mismatch_fails_for_every_variant() {
    let b = from_fn(2, 3, |i, j| (i + j) as u64);
    let c = from_fn(2, 2, |i, j| (i * j) as u64);
    for w in WIDTHS {
        for r in all_four(&b, &c, &c, w) {
            assert_eq!(r.unwrap_err(), MatrixError::DimensionMismatch);
        }
    }
    // c fits but d does not
    let c3 = from_fn(2, 3, |_, _| 1);
    for r in all_four(&b, &c3, &c, LaneWidth::X4) {
        assert_eq!(r.unwrap_err(), MatrixError::DimensionMismatch);
    }
    // c and d have different row counts
    let d3 = from_fn(3, 3, |_, _| 1);
    for r in all_four(&b, &c3, &d3, LaneWidth::X4) {
        assert_eq!(r.unwrap_err(), MatrixError::DimensionMismatch);
    }
}

#[test]
fn fused_matches_reference_on_uneven_shapes() {
    // inner dimension 37 is not a multiple of any lane width
    let b = from_fn(5, 37, |i, j| (3 * i + j) as u64);
    let c = from_fn(7, 37, |i, j| (i * j + 1) as u64);
    let d = from_fn(7, 37, |i, j| (i + 2 * j) as u64);
    let expected = reference_fused(&b, &c, &d);
    for w in WIDTHS {
        for r in all_four(&b, &c, &d, w) {
            let a = r.unwrap();
            assert_eq!(a.shape, (5, 7));
            assert_eq!(a.data, expected);
        }
    }
}

#[test]
fn fused_small_exact_values() {
    // b = [[1,2]], c = [[3,4],[5,6]], d = [[1,1],[0,2]]
    // cell 0: 1*(3+1) + 2*(4+1) = 14; cell 1: 1*(5+0) + 2*(6+2) = 21
    let b = Matrix::new(vec![vec![1, 2]]);
    let c = Matrix::new(vec![vec![3, 4], vec![5, 6]]);
    let d = Matrix::new(vec![vec![1, 1], vec![0, 2]]);
    for r in all_four(&b, &c, &d, LaneWidth::X2) {
        assert_eq!(r.unwrap().data, vec![vec![14, 21]]);
    }
}

#[test]
fn fused_wraps_on_overflow() {
    let big = u64::MAX;
    let b = Matrix::new(vec![vec![big, 2, 3]]);
    let c = Matrix::new(vec![vec![big, big, 1]]);
    let d = Matrix::new(vec![vec![3, 1, big]]);
    let expected = reference_fused(&b, &c, &d);
    for w in WIDTHS {
        for r in all_four(&b, &c, &d, w) {
            assert_eq!(r.unwrap().data, expected);
        }
    }
    // (2^64 - 1) * ((2^64 - 1) + 3) wraps to 2^64 - 2
    let b1 = Matrix::new(vec![vec![big]]);
    let c1 = Matrix::new(vec![vec![big]]);
    let d1 = Matrix::new(vec![vec![3]]);
    assert_eq!(matrix_multiplication(b1, c1, d1).unwrap().data, vec![vec![big - 1]]);
}

#[test]
fn product_wraps_on_overflow() {
    let a = Matrix::new(vec![vec![u64::MAX, 2]]);
    let b = Matrix::new(vec![vec![2], vec![1]]);
    // (2^64 - 1) * 2 + 2 wraps to 0
    assert_eq!(matrix_product(a, b).unwrap().data, vec![vec![0]]);
}

#[test]
fn parallel_256_matches_scalar_row_for_row() {
    let m = from_fn(256, 256, |i, j| ((i * 31 + j * 17) % 1000) as u64);
    let scalar = matrix_multiplication(m.clone(), m.clone(), m.clone()).unwrap();
    let par = matrix_multiplication_parallel(m.clone(), m.clone(), m.clone()).unwrap();
    let par_simd = matrix_multiplication_parallel_simd(m.clone(), m.clone(), m.clone(), LaneWidth::X16).unwrap();
    assert_eq!(par.shape, (256, 256));
    for i in 0..256 {
        assert_eq!(par.data[i], scalar.data[i]);
        assert_eq!(par_simd.data[i], scalar.data[i]);
    }
    assert_ne!(par.data, m.data);
}

#[test]
fn repeated_calls_on_clones_agree() {
    let b = from_fn(6, 9, |i, j| (i * 7 + j) as u64);
    let c = from_fn(4, 9, |i, j| (i + j * 5) as u64);
    let d = from_fn(4, 9, |i, j| (i ^ j) as u64);
    let first = all_four(&b, &c, &d, LaneWidth::X8);
    let second = all_four(&b, &c, &d, LaneWidth::X8);
    for (x, y) in first.into_iter().zip(second) {
        assert_eq!(x.unwrap().data, y.unwrap().data);
    }
    let p1 = matrix_product(b.clone(), from_fn(9, 3, |i, j| (i + j) as u64)).unwrap();
    let p2 = matrix_product(b.clone(), from_fn(9, 3, |i, j| (i + j) as u64)).unwrap();
    assert_eq!(p1.data, p2.data);
}

#[test]
fn fused_equals_product_with_transposed_sum() {
    let b = from_fn(3, 5, |i, j| (i * 5 + j) as u64);
    let c = from_fn(4, 5, |i, j| (i + j) as u64);
    let d = from_fn(4, 5, |i, j| (2 * i + 3 * j) as u64);
    let t = from_fn(5, 4, |k, j| c.data[j][k].wrapping_add(d.data[j][k]));
    let fused = matrix_multiplication(b.clone(), c, d).unwrap();
    let prod = matrix_product(b, t).unwrap();
    assert_eq!(fused.data, prod.data);
}

#[test]
fn cell_and_row_helpers() {
    let b = Matrix::new(vec![vec![1, 2, 3], vec![4, 5, 6]]);
    let c = Matrix::new(vec![vec![1, 0, 1], vec![0, 1, 0]]);
    let d = Matrix::new(vec![vec![0, 0, 1], vec![1, 1, 1]]);
    // row 1: 4*1 + 5*0 + 6*2 = 16; 4*1 + 5*2 + 6*1 = 20
    assert_eq!(fused_cell(&b, 1, &c, &d, 0), 16);
    assert_eq!(simd_n(&b, 1, &c, &d, 1, 2), 20);
    assert_eq!(simd_n(&b, 1, &c, &d, 1, 5), 20);
    assert_eq!(fused_row(&b, &c, &d, 1, Reduction::Scalar), vec![16, 20]);
    assert_eq!(fused_row(&b, &c, &d, 1, Reduction::Lanes(LaneWidth::X2)), vec![16, 20]);
}

#[test]
fn lane_widths() {
    let lanes: Vec<usize> = WIDTHS.iter().map(|w| w.lanes()).collect();
    assert_eq!(lanes, vec![2, 4, 8, 16, 32, 64]);
}
