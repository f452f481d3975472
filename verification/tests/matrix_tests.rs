use matrices::layout::kept_index;
use matrices::layout::sign_flips;
use matrices::layout::to_index;
use matrices::layout::to_yx;
use matrices::matrix2::Matrix2x2;
use matrices::matrix3::Matrix3x3;
use matrices::matrix4::Matrix4x4;
use matrices::scalar::Scalar;
use matrices::tuple::Tuple4;

/// IEEE-754 double entries for the matrix types: the floating-point
/// instantiation of the scalar interface, with the 1e-12 precision
/// threshold as the invertibility policy.
#[derive(Clone, Copy, PartialEq, Debug)]
struct F64(f64);

const PRECISION: f64 = 1e-12;

impl Scalar for F64 {
    // The trait's ghost members are erased from verified code and never
    // called at run time; for this unverified instantiation they are the
    // real operations themselves.
    fn spec_zero() -> Self {
        F64(0.0)
    }

    fn spec_one() -> Self {
        F64(1.0)
    }

    fn spec_add(self, other: Self) -> Self {
        F64(self.0 + other.0)
    }

    fn spec_sub(self, other: Self) -> Self {
        F64(self.0 - other.0)
    }

    fn spec_mul(self, other: Self) -> Self {
        F64(self.0 * other.0)
    }

    fn spec_div(self, other: Self) -> Self {
        F64(self.0 / other.0)
    }

    fn spec_neg(self) -> Self {
        F64(-self.0)
    }

    fn spec_meets_precision(self) -> bool {
        self.0.abs() >= PRECISION
    }

    fn zero() -> Self {
        F64(0.0)
    }

    fn one() -> Self {
        F64(1.0)
    }

    fn add(self, other: Self) -> Self {
        F64(self.0 + other.0)
    }

    fn sub(self, other: Self) -> Self {
        F64(self.0 - other.0)
    }

    fn mul(self, other: Self) -> Self {
        F64(self.0 * other.0)
    }

    fn div(self, other: Self) -> Self {
        F64(self.0 / other.0)
    }

    fn neg(self) -> Self {
        F64(-self.0)
    }

    fn meets_precision(self) -> bool {
        self.0.abs() >= PRECISION
    }
}

fn entries(values: &[f64]) -> Vec<F64> {
    values.iter().map(|&v| F64(v)).collect()
}

#[test]
fn test_constructing_and_inspecting_2x2_matrix() {
    let matrix = Matrix2x2::new(vec![-3.0, 5.0, 1.0, -2.0]);

    assert_eq!(matrix.get(0, 0), -3.0);
    assert_eq!(matrix.get(0, 1), 5.0);
    assert_eq!(matrix.get(1, 0), 1.0);
    assert_eq!(matrix.get(1, 1), -2.0);
}

#[test]
fn test_det_of_2x2_matrix() {
    let matrix = Matrix2x2::new(entries(&[1.0, 5.0, -3.0, 2.0]));

    let det = matrix.det();

    assert_eq!(det, F64(17.0));
}

#[test]
fn test_constructing_and_inspecting_3x3_matrix() {
    let matrix = Matrix3x3::new(vec![-3.0, 5.0, 0.0, 1.0, -2.0, -7.0, 0.0, 1.0, 1.0]);

    assert_eq!(matrix.get(0, 0), -3.0);
    assert_eq!(matrix.get(1, 1), -2.0);
    assert_eq!(matrix.get(2, 2), 1.0);
}

#[test]
fn test_submatrix_of_3x3_matrix() {
    let matrix = Matrix3x3::new(vec![1.0, 5.0, 0.0, -3.0, 2.0, 7.0, 0.0, 6.0, -3.0]);

    let submatrix = matrix.submatrix(0, 2);

    assert_eq!(submatrix, Matrix2x2::new(vec![-3.0, 2.0, 0.0, 6.0]));
}

#[test]
fn test_minor_of_3x3_matrix() {
    let matrix = Matrix3x3::new(entries(&[3.0, 5.0, 0.0, 2.0, -1.0, -7.0, 6.0, -1.0, 5.0]));

    let minor = matrix.minor(1, 0);

    assert_eq!(minor, F64(25.0));
}

#[test]
fn test_cofactor_of_3x3_matrix() {
    let matrix = Matrix3x3::new(entries(&[3.0, 5.0, 0.0, 2.0, -1.0, -7.0, 6.0, -1.0, 5.0]));

    let minor_without_sign_change = matrix.cofactor(0, 0);
    let minor_with_sign_change = matrix.cofactor(1, 0);

    assert_eq!(minor_without_sign_change, F64(-12.0));
    assert_eq!(minor_with_sign_change, F64(-25.0));
}

#[test]
fn test_determinant_of_3x3_matrix() {
    let matrix = Matrix3x3::new(entries(&[1.0, 2.0, 6.0, -5.0, 8.0, -4.0, 2.0, 6.0, 4.0]));

    let det = matrix.det();

    assert_eq!(det, F64(-196.0));
}

#[test]
fn test_constructing_and_inspecting_4x4_matrix() {
    let matrix = Matrix4x4::new(vec![
        1.0, 2.0, 3.0, 4.0, 5.5, 6.5, 7.5, 8.5, 9.0, 10.0, 11.0, 12.0, 13.5, 14.5, 15.5, 16.5,
    ]);

    assert_eq!(matrix.get(0, 0), 1.0);
    assert_eq!(matrix.get(0, 3), 4.0);
    assert_eq!(matrix.get(1, 0), 5.5);
    assert_eq!(matrix.get(1, 2), 7.5);
    assert_eq!(matrix.get(2, 2), 11.0);
    assert_eq!(matrix.get(3, 0), 13.5);
    assert_eq!(matrix.get(3, 2), 15.5);
}

#[test]
fn test_multiplying_two_matrices() {
    let a = Matrix4x4::new(entries(&[
        1.0, 2.0, 3.0, 4.0, 5.0, 6.0, 7.0, 8.0, 9.0, 8.0, 7.0, 6.0, 5.0, 4.0, 3.0, 2.0,
    ]));
    let b = Matrix4x4::new(entries(&[
        -2.0, 1.0, 2.0, 3.0, 3.0, 2.0, 1.0, -1.0, 4.0, 3.0, 6.0, 5.0, 1.0, 2.0, 7.0, 8.0,
    ]));

    let result = a.mul(b);

    assert_eq!(
        result,
        Matrix4x4::new(entries(&[
            20.0, 22.0, 50.0, 48.0, 44.0, 54.0, 114.0, 108.0, 40.0, 58.0, 110.0, 102.0, 16.0,
            26.0, 46.0, 42.0
        ]))
    );
}

#[test]
fn test_multiplying_matrix_with_tuple() {
    let matrix = Matrix4x4::new(entries(&[
        1.0, 2.0, 3.0, 4.0, 2.0, 4.0, 4.0, 2.0, 8.0, 6.0, 4.0, 1.0, 0.0, 0.0, 0.0, 1.0,
    ]));
    let tuple = Tuple4::new(F64(1.0), F64(2.0), F64(3.0), F64(1.0));

    let result = matrix.mul_tuple(tuple);

    assert_eq!(result, Tuple4::new(F64(18.0), F64(24.0), F64(33.0), F64(1.0)));
}

#[test]
fn test_multiplying_matrix_by_identity_matrix() {
    let matrix = Matrix4x4::new(entries(&[
        0.0, 1.0, 2.0, 4.0, 1.0, 2.0, 4.0, 8.0, 2.0, 4.0, 8.0, 16.0, 4.0, 8.0, 16.0, 32.0,
    ]));
    let identity = Matrix4x4::identity();

    let result = matrix.clone().mul(identity);

    assert_eq!(result, matrix);
}

#[test]
fn test_multiplying_identity_matrix_by_tuple() {
    let identity = Matrix4x4::identity();
    let tuple = Tuple4::new(F64(1.0), F64(2.0), F64(3.0), F64(4.0));

    let result = identity.mul_tuple(tuple);

    assert_eq!(result, tuple);
}

#[test]
fn test_matrix_transpose() {
    let matrix = Matrix4x4::new(vec![
        0.0, 9.0, 3.0, 0.0, 9.0, 8.0, 0.0, 8.0, 1.0, 8.0, 5.0, 3.0, 0.0, 0.0, 5.0, 8.0,
    ]);

    let transposed_matrix = matrix.transpose();

    assert_eq!(
        transposed_matrix,
        Matrix4x4::new(vec![
            0.0, 9.0, 1.0, 0.0, 9.0, 8.0, 8.0, 0.0, 3.0, 0.0, 5.0, 5.0, 0.0, 8.0, 3.0, 8.0
        ])
    );
}

#[test]
fn test_matrix_transpose_twice() {
    let matrix = Matrix4x4::new(vec![
        0.0, 9.0, 3.0, 0.0, 9.0, 8.0, 0.0, 8.0, 1.0, 8.0, 5.0, 3.0, 0.0, 0.0, 5.0, 8.0,
    ]);

    let transposed_twice_matrix = matrix.clone().transpose().transpose();

    assert_eq!(transposed_twice_matrix, matrix);
}

#[test]
fn test_submatrix_of_4x4_matrix() {
    let matrix = Matrix4x4::new(vec![
        -6.0, 1.0, 1.0, 6.0, -8.0, 5.0, 8.0, 6.0, -1.0, 0.0, 8.0, 2.0, -7.0, 1.0, -1.0, 1.0,
    ]);

    let submatrix = matrix.submatrix(2, 1);

    assert_eq!(
        submatrix,
        Matrix3x3::new(vec![-6.0, 1.0, 6.0, -8.0, 8.0, 6.0, -7.0, -1.0, 1.0])
    );
}

#[test]
fn test_determinant_of_4x4_matrix() {
    let matrix = Matrix4x4::new(entries(&[
        -2.0, -8.0, 3.0, 5.0, -3.0, 1.0, 7.0, 3.0, 1.0, 2.0, -9.0, 6.0, -6.0, 7.0, 7.0, -9.0,
    ]));

    let det = matrix.det();

    assert_eq!(det, F64(-4071.0));
}

#[test]
fn test_if_matrix_is_invertible() {
    let matrix = Matrix4x4::new(entries(&[
        6.0, 4.0, 4.0, 4.0, 5.0, 5.0, 7.0, 6.0, 4.0, -9.0, 3.0, -7.0, 9.0, 1.0, 7.0, -6.0,
    ]));

    let is_invertible = matrix.is_invertible();

    assert_eq!(is_invertible, true);
}

#[test]
fn test_if_matrix_is_not_invertible() {
    let matrix = Matrix4x4::new(entries(&[
        -4.0, 2.0, -2.0, -3.0, 9.0, 6.0, 2.0, 6.0, 0.0, -5.0, 1.0, -5.0, 0.0, 0.0, 0.0, 0.0,
    ]));

    let is_invertible = matrix.is_invertible();

    assert_eq!(is_invertible, false);
}

#[test]
fn test_matrix_inverse() {
    let matrix = Matrix4x4::new(entries(&[
        -5.0, 2.0, 6.0, -8.0, 1.0, -5.0, 1.0, 8.0, 7.0, 7.0, -6.0, -7.0, 1.0, -3.0, 7.0, 4.0,
    ]));

    let inverse = matrix.inverse().unwrap();

    let expected = Matrix4x4::new(entries(&[
        0.21805, 0.45113, 0.24060, -0.04511, -0.80827, -1.45677, -0.44361, 0.52068, -0.07895,
        -0.22368, -0.05263, 0.19737, -0.52256, -0.81391, -0.30075, 0.30639,
    ]));
    for y in 0..4 {
        for x in 0..4 {
            let a = expected.get(y, x);
            let b = inverse.get(y, x);
            assert!((a.0 - b.0).abs() < 1e-5)
        }
    }
}

#[test]
fn test_inverting_matrix_twice() {
    let matrix = Matrix4x4::new(entries(&[
        -5.0, 2.0, 6.0, -8.0, 1.0, -5.0, 1.0, 8.0, 7.0, 7.0, -6.0, -7.0, 1.0, -3.0, 7.0, 4.0,
    ]));

    let double_inversed = matrix.clone().inverse().unwrap().inverse().unwrap();

    for y in 0..4 {
        for x in 0..4 {
            let a = matrix.get(y, x);
            let b = double_inversed.get(y, x);
            assert!((a.0 - b.0).abs() < PRECISION)
        }
    }
}

#[test]
fn test_inverse_fails_on_non_invertible_matrix() {
    let matrix = Matrix4x4::new(entries(&[
        -4.0, 2.0, -2.0, -3.0, 9.0, 6.0, 2.0, 6.0, 0.0, -5.0, 1.0, -5.0, 0.0, 0.0, 0.0, 0.0,
    ]));

    let result = matrix.inverse();

    assert!(result.is_err());
}

#[test]
fn test_inverse_fails_below_precision_threshold() {
    // Diagonal entries of 1e-4 give a determinant of 1e-16, under the
    // 1e-12 threshold: the matrix is treated as singular.
    let matrix = Matrix4x4::new(entries(&[
        1e-4, 0.0, 0.0, 0.0, 0.0, 1e-4, 0.0, 0.0, 0.0, 0.0, 1e-4, 0.0, 0.0, 0.0, 0.0, 1e-4,
    ]));

    assert!(!matrix.is_invertible());
    assert!(matrix.inverse().is_err());
}

#[test]
fn test_multiplying_identity_matrix_by_matrix() {
    let matrix = Matrix4x4::new(entries(&[
        0.0, 1.0, 2.0, 4.0, 1.0, 2.0, 4.0, 8.0, 2.0, 4.0, 8.0, 16.0, 4.0, 8.0, 16.0, 32.0,
    ]));
    let identity = Matrix4x4::identity();

    let result = identity.mul(matrix.clone());

    assert_eq!(result, matrix);
}

#[test]
fn test_det_of_2x2_matrix_over_integers() {
    let matrix = Matrix2x2::new(vec![1i64, 5, -3, 2]);

    assert_eq!(matrix.det(), 17);
}

#[test]
fn test_determinant_of_4x4_matrix_over_integers() {
    let matrix = Matrix4x4::new(vec![
        -2i64, -8, 3, 5, -3, 1, 7, 3, 1, 2, -9, 6, -6, 7, 7, -9,
    ]);

    assert_eq!(matrix.det(), -4071);
}

#[test]
fn test_zero_and_identity_entries() {
    let zero = Matrix4x4::<i64>::zero();
    let identity = Matrix4x4::<i64>::identity();

    for y in 0..4 {
        for x in 0..4 {
            assert_eq!(zero.get(y, x), 0);
            assert_eq!(identity.get(y, x), if y == x { 1 } else { 0 });
        }
    }
}

#[test]
fn test_layout_round_trip() {
    assert_eq!(to_index(4, 2, 3), 11);
    assert_eq!(to_yx(4, 11), (2, 3));
    assert_eq!(to_index(3, 0, 2), 2);
    assert_eq!(to_yx(3, 2), (0, 2));
}

#[test]
fn test_sign_flips_checkerboard() {
    assert!(!sign_flips(0, 0));
    assert!(sign_flips(1, 0));
    assert!(sign_flips(0, 1));
    assert!(!sign_flips(1, 1));
    assert!(sign_flips(2, 3));
}

#[test]
fn test_kept_index_skips_the_removed_one() {
    assert_eq!(kept_index(2, 0), 0);
    assert_eq!(kept_index(2, 1), 1);
    assert_eq!(kept_index(2, 2), 3);
    assert_eq!(kept_index(0, 0), 1);
}

#[test]
fn test_tuple_components() {
    let tuple = Tuple4::new(1.0, 2.0, 3.0, 4.0);

    assert_eq!(tuple.x, 1.0);
    assert_eq!(tuple.y, 2.0);
    assert_eq!(tuple.z, 3.0);
    assert_eq!(tuple.w, 4.0);
}
