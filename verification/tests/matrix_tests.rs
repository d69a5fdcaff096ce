use osqp::csc::CscMatrix;
use osqp::scalar::le_bits;
use osqp::scalar::nan_bits;
use osqp::scalar::zero_bits;

fn row(vals: &[f64]) -> Vec<u64> {
    vals.iter().map(|v| v.to_bits()).collect()
}

fn table(rows_in: &[&[f64]]) -> Vec<Vec<u64>> {
    rows_in.iter().map(|r| row(r)).collect()
}

fn raw(nrows: usize, ncols: usize, indptr: &[usize], indices: &[usize], data: &[f64]) -> CscMatrix {
    CscMatrix {
        nrows,
        ncols,
        indptr: indptr.to_vec(),
        indices: indices.to_vec(),
        data: row(data),
    }
}

#[test]
fn csc_from_array() {
    let mat = table(&[&[1.0, 2.0], &[3.0, 0.0], &[0.0, 4.0]]);
    let csc = CscMatrix::from_rows(&mat);

    assert_eq!(3, csc.nrows);
    assert_eq!(2, csc.ncols);
    assert_eq!(&[0, 2, 4][..], &csc.indptr[..]);
    assert_eq!(&[0, 1, 0, 2][..], &csc.indices[..]);
    assert_eq!(&row(&[1.0, 3.0, 2.0, 4.0])[..], &csc.data[..]);
}

#[test]
fn csc_from_iter_dense() {
    let mat1 = CscMatrix::from_column_iter_dense(
        3,
        3,
        &row(&[1.0, 2.0, 3.0, 4.0, 5.0, 6.0, 7.0, 8.0, 9.0]),
    );
    let mat2 = CscMatrix::from_row_iter_dense(
        3,
        3,
        &row(&[1.0, 4.0, 7.0, 2.0, 5.0, 8.0, 3.0, 6.0, 9.0]),
    );
    let mat3 = CscMatrix::from_rows(&table(&[
        &[1.0, 4.0, 7.0],
        &[2.0, 5.0, 8.0],
        &[3.0, 6.0, 9.0],
    ]));

    assert_eq!(mat1, mat3);
    assert_eq!(mat2, mat3);
}

#[test]
fn same_sparsity_structure_ok() {
    let mat1 = CscMatrix::from_rows(&table(&[
        &[1.0, 2.0, 0.0],
        &[3.0, 0.0, 0.0],
        &[0.0, 5.0, 0.0],
    ]));
    let mat2 = CscMatrix::from_rows(&table(&[
        &[7.0, 8.0, 0.0],
        &[9.0, 0.0, 0.0],
        &[0.0, 10.0, 0.0],
    ]));
    assert!(mat1.same_sparsity_structure(&mat2));
}

#[test]
fn different_sparsity_structure_detected() {
    let mat1 = CscMatrix::from_rows(&table(&[
        &[1.0, 2.0, 0.0],
        &[3.0, 0.0, 0.0],
        &[0.0, 5.0, 6.0],
    ]));
    let mat2 = CscMatrix::from_rows(&table(&[
        &[7.0, 8.0, 0.0],
        &[9.0, 0.0, 0.0],
        &[0.0, 10.0, 0.0],
    ]));
    assert!(!mat1.same_sparsity_structure(&mat2));
}

#[test]
fn is_structurally_upper_tri() {
    let structurally_upper_tri = CscMatrix::from_rows(&table(&[
        &[1.0, 0.0, 5.0],
        &[0.0, 3.0, 4.0],
        &[0.0, 0.0, 2.0],
    ]));
    let numerically_upper_tri = CscMatrix::from_row_iter_dense(
        3,
        3,
        &row(&[1.0, 0.0, 5.0, 0.0, 3.0, 4.0, 0.0, 0.0, 2.0]),
    );
    let not_upper_tri = CscMatrix::from_rows(&table(&[
        &[7.0, 2.0, 0.0],
        &[9.0, 0.0, 5.0],
        &[7.0, 10.0, 0.0],
    ]));
    assert!(structurally_upper_tri.is_structurally_upper_tri());
    assert!(!numerically_upper_tri.is_structurally_upper_tri());
    assert!(!not_upper_tri.is_structurally_upper_tri());
}

#[test]
fn into_upper_tri() {
    let mat = CscMatrix::from_rows(&table(&[
        &[1.0, 0.0, 5.0],
        &[7.0, 3.0, 4.0],
        &[6.0, 0.0, 2.0],
    ]));
    let mat_upper_tri = CscMatrix::from_rows(&table(&[
        &[1.0, 0.0, 5.0],
        &[0.0, 3.0, 4.0],
        &[0.0, 0.0, 2.0],
    ]));
    assert_eq!(mat.into_upper_tri(), mat_upper_tri);
}

#[test]
fn into_upper_tri_is_idempotent() {
    let mat = CscMatrix::from_rows(&table(&[
        &[1.0, 0.0, 5.0],
        &[7.0, 3.0, 4.0],
        &[6.0, 0.0, 2.0],
    ]));
    let once = mat.clone().into_upper_tri();
    let twice = mat.into_upper_tri().into_upper_tri();
    assert!(once.is_structurally_upper_tri());
    assert_eq!(once, twice);
}

#[test]
fn into_upper_tri_keeps_triangular_input_unchanged() {
    let mat = CscMatrix::from_rows(&table(&[&[4.0, 1.0], &[0.0, 2.0]]));
    let copy = mat.clone();
    assert_eq!(mat.into_upper_tri(), copy);
}

#[test]
fn dense_round_trip_preserves_values() {
    let t = table(&[&[1.5, 0.0, -2.25], &[0.0, 3.5, 0.0]]);
    let m = CscMatrix::from_rows(&t);
    assert!(m.is_valid());
    for r in 0..2 {
        for c in 0..3 {
            let expected = f64::from_bits(t[r][c]);
            let read_back = f64::from_bits(m.value_at(r, c));
            assert_eq!(expected, read_back);
        }
    }
}

#[test]
fn is_valid_accepts_well_formed() {
    let m = raw(2, 2, &[0, 1, 2], &[0, 1], &[1.0, 2.0]);
    assert!(m.is_valid());
}

#[test]
fn is_valid_rejects_wrong_indptr_len() {
    let m = raw(2, 2, &[0, 2], &[0, 1], &[1.0, 2.0]);
    assert!(!m.is_valid());
}

#[test]
fn is_valid_rejects_nonmonotonic_indptr() {
    let m = raw(2, 2, &[0, 2, 1], &[0], &[1.0]);
    assert!(!m.is_valid());
}

#[test]
fn is_valid_rejects_row_out_of_range() {
    let m = raw(2, 2, &[0, 1, 2], &[0, 5], &[1.0, 2.0]);
    assert!(!m.is_valid());
}

#[test]
fn is_valid_rejects_unsorted_rows_in_column() {
    let m = raw(3, 1, &[0, 3], &[0, 2, 1], &[1.0, 2.0, 3.0]);
    assert!(!m.is_valid());
}

#[test]
fn is_valid_rejects_duplicate_rows_in_column() {
    let m = raw(2, 1, &[0, 2], &[1, 1], &[1.0, 2.0]);
    assert!(!m.is_valid());
}

#[test]
fn scalar_comparison_follows_float_order() {
    assert!(le_bits(1.0f64.to_bits(), 2.0f64.to_bits()));
    assert!(!le_bits(2.0f64.to_bits(), 1.0f64.to_bits()));
    assert!(le_bits((-1.5f64).to_bits(), (-1.0f64).to_bits()));
    assert!(!le_bits((-1.0f64).to_bits(), (-1.5f64).to_bits()));
    assert!(le_bits((-0.0f64).to_bits(), 0.0f64.to_bits()));
    assert!(le_bits(0.0f64.to_bits(), (-0.0f64).to_bits()));
    assert!(le_bits(3.25f64.to_bits(), 3.25f64.to_bits()));
    assert!(!le_bits(f64::NAN.to_bits(), 1.0f64.to_bits()));
    assert!(!le_bits(1.0f64.to_bits(), f64::NAN.to_bits()));
    assert!(le_bits(f64::NEG_INFINITY.to_bits(), f64::INFINITY.to_bits()));
}

#[test]
fn scalar_zero_and_nan_tests_match_float_semantics() {
    assert!(zero_bits(0.0f64.to_bits()));
    assert!(zero_bits((-0.0f64).to_bits()));
    assert!(!zero_bits(1e-300f64.to_bits()));
    assert!(nan_bits(f64::NAN.to_bits()));
    assert!(!nan_bits(f64::INFINITY.to_bits()));
    assert!(!nan_bits(0.0f64.to_bits()));
}
