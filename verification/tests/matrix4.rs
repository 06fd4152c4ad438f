use math_transform::matrix4::{
    create_rotation_x, create_rotation_y, create_rotation_z, create_scale_matrix,
    create_translation_matrix, identity, transpose, zero, Matrix4,
};

fn sample() -> Matrix4 {
    Matrix4 { matrix: [[1, 2, 3, 4], [5, 6, 7, 8], [9, 10, 11, 12], [13, 14, 15, 16]] }
}

#[test]
fn test_equality() {
    assert_eq!(identity(), identity())
}

#[test]
fn matrix4_test_addition() {
    assert_eq!(identity() + identity(), identity() * 2)
}

#[test]
fn matrix4_test_subtraction() {
    assert_eq!(identity() - identity(), zero());
    assert_eq!(identity() - zero(), identity())
}

#[test]
fn test_multiplication() {
    assert_eq!(identity() * identity(), identity());
    assert_eq!(zero() * identity(), zero())
}

#[test]
fn test_transpose() {
    assert_eq!(transpose(identity()), identity());
    assert_eq!(transpose(zero()), zero())
}

#[test]
fn zero_and_identity_entries() {
    assert_eq!(zero().matrix, [[0; 4]; 4]);
    assert_eq!(identity().matrix, [[1, 0, 0, 0], [0, 1, 0, 0], [0, 0, 1, 0], [0, 0, 0, 1]]);
}

#[test]
fn matrices_that_differ_in_one_entry_are_not_equal() {
    for i in 0..4 {
        for j in 0..4 {
            let mut m = sample();
            m.matrix[i][j] += 1;
            assert_ne!(m, sample());
            assert_ne!(sample(), m);
        }
    }
    assert_ne!(identity(), zero());
}

#[test]
fn translation_sets_the_rightmost_column() {
    assert_eq!(
        create_translation_matrix(5, -6, 7).matrix,
        [[1, 0, 0, 5], [0, 1, 0, -6], [0, 0, 1, 7], [0, 0, 0, 1]]
    );
    assert_eq!(create_translation_matrix(0, 0, 0), identity());
}

#[test]
fn scale_sets_the_diagonal() {
    assert_eq!(
        create_scale_matrix(5, -6, 7).matrix,
        [[5, 0, 0, 0], [0, -6, 0, 0], [0, 0, 7, 0], [0, 0, 0, 1]]
    );
    assert_eq!(create_scale_matrix(1, 1, 1), identity());
}

#[test]
fn transpose_swaps_rows_and_columns() {
    assert_eq!(
        transpose(sample()).matrix,
        [[1, 5, 9, 13], [2, 6, 10, 14], [3, 7, 11, 15], [4, 8, 12, 16]]
    );
    assert_eq!(transpose(transpose(sample())), sample());
}

#[test]
fn addition_and_negation_are_entry_wise() {
    let m = sample();
    assert_eq!(
        (m + identity()).matrix,
        [[2, 2, 3, 4], [5, 7, 7, 8], [9, 10, 12, 12], [13, 14, 15, 17]]
    );
    assert_eq!(
        (-m).matrix,
        [[-1, -2, -3, -4], [-5, -6, -7, -8], [-9, -10, -11, -12], [-13, -14, -15, -16]]
    );
    assert_eq!(m + (-m), zero());
    assert_eq!(m - identity(), m + (-identity()));
    assert_eq!(m + m, m * 2);
}

#[test]
fn scalar_multiple_overwrites_every_entry() {
    assert_eq!(
        (sample() * 3).matrix,
        [[3, 6, 9, 12], [15, 18, 21, 24], [27, 30, 33, 36], [39, 42, 45, 48]]
    );
    assert_eq!(zero() * 5, zero());
    assert_eq!(sample() * 0, zero());
    assert_eq!(sample() * 1, sample());
}

#[test]
fn product_is_rows_times_columns() {
    let a = sample();
    let b = Matrix4 { matrix: [[1, 0, 2, 0], [0, 1, 0, 2], [3, 0, 1, 0], [0, 3, 0, 1]] };
    assert_eq!(
        (a * b).matrix,
        [[10, 14, 5, 8], [26, 30, 17, 20], [42, 46, 29, 32], [58, 62, 41, 44]]
    );
    assert_eq!(
        (b * a).matrix,
        [[19, 22, 25, 28], [31, 34, 37, 40], [12, 16, 20, 24], [28, 32, 36, 40]]
    );
    assert_eq!(a * identity(), a);
    assert_eq!(identity() * a, a);
    assert_eq!(a * zero(), zero());
}

#[test]
fn product_of_translations_adds_the_offsets() {
    assert_eq!(
        create_translation_matrix(1, 2, 3) * create_translation_matrix(10, 20, 30),
        create_translation_matrix(11, 22, 33)
    );
}

#[test]
fn product_may_pass_through_large_intermediate_values() {
    let big = i32::MAX;
    let a = Matrix4 { matrix: [[big, big, 0, 0], [0, 1, 0, 0], [0, 0, 1, 0], [0, 0, 0, 1]] };
    let b = Matrix4 { matrix: [[big, 0, 0, 0], [-big, 1, 0, 0], [0, 0, 1, 0], [0, 0, 0, 1]] };
    assert_eq!(
        (a * b).matrix,
        [[0, big, 0, 0], [-big, 1, 0, 0], [0, 0, 1, 0], [0, 0, 0, 1]]
    );
}

#[test]
fn index_reads_and_writes_rows() {
    let mut m = sample();
    assert_eq!(m[0], [1, 2, 3, 4]);
    assert_eq!(m[3], [13, 14, 15, 16]);
    assert_eq!(m[2][1], 10);
    m[2][1] = -10;
    assert_eq!(m[2], [9, -10, 11, 12]);
    assert_eq!(m[1], [5, 6, 7, 8]);
    m[0] = [0, 0, 0, 0];
    assert_eq!(m.matrix, [[0, 0, 0, 0], [5, 6, 7, 8], [9, -10, 11, 12], [13, 14, 15, 16]]);
}

#[test]
fn axis_rotations_place_the_cosine_and_the_sine() {
    assert_eq!(
        create_rotation_x(3, 4).matrix,
        [[1, 0, 0, 0], [0, 3, 4, 0], [0, -4, 3, 0], [0, 0, 0, 1]]
    );
    assert_eq!(
        create_rotation_y(3, 4).matrix,
        [[3, 0, -4, 0], [0, 1, 0, 0], [4, 0, 3, 0], [0, 0, 0, 1]]
    );
    assert_eq!(
        create_rotation_z(3, 4).matrix,
        [[3, 4, 0, 0], [-4, 3, 0, 0], [0, 0, 1, 0], [0, 0, 0, 1]]
    );
}

#[test]
fn axis_rotations_by_the_zero_angle_are_the_identity() {
    assert_eq!(create_rotation_x(1, 0), identity());
    assert_eq!(create_rotation_y(1, 0), identity());
    assert_eq!(create_rotation_z(1, 0), identity());
}

#[test]
fn axis_rotations_by_quarter_turns_are_orthonormal() {
    for (c, s) in [(1, 0), (0, 1), (-1, 0), (0, -1)] {
        for m in [create_rotation_x(c, s), create_rotation_y(c, s), create_rotation_z(c, s)] {
            assert_eq!(m * transpose(m), identity());
            assert_eq!(transpose(m) * m, identity());
        }
        assert_eq!(transpose(create_rotation_x(c, s)), create_rotation_x(c, -s));
        assert_eq!(transpose(create_rotation_y(c, s)), create_rotation_y(c, -s));
        assert_eq!(transpose(create_rotation_z(c, s)), create_rotation_z(c, -s));
    }
}

#[test]
fn four_quarter_turns_are_a_full_turn() {
    for m in [create_rotation_x(0, 1), create_rotation_y(0, 1), create_rotation_z(0, 1)] {
        assert_ne!(m, identity());
        assert_ne!(m * m, identity());
        assert_eq!(m * m * m * m, identity());
    }
}
