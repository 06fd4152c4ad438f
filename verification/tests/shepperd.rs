use math_transform::matrix4::{identity, Matrix4};
use math_transform::quaternion::Quaternion;
use math_transform::quaternion_to_matrix;
use math_transform::shepperd::{
    component_signs, matrix_to_squared_quaternion, off_diagonal_signs, select_pivot,
    trace_candidates, ComponentSigns, PairSigns, Pivot, SquaredQuaternion,
};

fn rotation(rows: [[i32; 3]; 3]) -> Matrix4 {
    Matrix4 {
        matrix: [
            [rows[0][0], rows[0][1], rows[0][2], 0],
            [rows[1][0], rows[1][1], rows[1][2], 0],
            [rows[2][0], rows[2][1], rows[2][2], 0],
            [0, 0, 0, 1],
        ],
    }
}

fn squares(w: i64, x: i64, y: i64, z: i64) -> SquaredQuaternion {
    SquaredQuaternion { w, x, y, z }
}

fn pairs(xw: bool, yw: bool, zw: bool, xy: bool, xz: bool, yz: bool) -> PairSigns {
    PairSigns { xw, yw, zw, xy, xz, yz }
}

#[test]
fn the_pivot_is_the_largest_magnitude() {
    assert_eq!(select_pivot(9, 1, 2, 3), Pivot::W);
    assert_eq!(select_pivot(1, 9, 2, 3), Pivot::X);
    assert_eq!(select_pivot(1, 2, 9, 3), Pivot::Y);
    assert_eq!(select_pivot(1, 2, 3, 9), Pivot::Z);
    assert_eq!(select_pivot(-9, -1, -2, -3), Pivot::X);
    assert_eq!(select_pivot(i64::MIN, i64::MAX, 0, 0), Pivot::X);
}

#[test]
fn equal_magnitudes_go_to_the_first_component() {
    assert_eq!(select_pivot(0, 0, 0, 0), Pivot::W);
    assert_eq!(select_pivot(5, 5, 5, 5), Pivot::W);
    assert_eq!(select_pivot(1, 5, 5, 2), Pivot::X);
    assert_eq!(select_pivot(1, 5, 5, 5), Pivot::X);
    assert_eq!(select_pivot(1, 2, 5, 5), Pivot::Y);
    assert_eq!(select_pivot(5, 2, 1, 5), Pivot::W);
}

#[test]
fn every_order_of_four_magnitudes_has_exactly_one_pivot() {
    let values = [0i64, 1, 2, 3];
    for w in values {
        for x in values {
            for y in values {
                for z in values {
                    let largest = w.max(x).max(y).max(z);
                    let expected = if w == largest {
                        Pivot::W
                    } else if x == largest {
                        Pivot::X
                    } else if y == largest {
                        Pivot::Y
                    } else {
                        Pivot::Z
                    };
                    assert_eq!(select_pivot(w, x, y, z), expected);
                }
            }
        }
    }
}

#[test]
fn signs_are_taken_from_the_products_with_the_pivot() {
    let p = pairs(true, false, true, false, true, false);
    assert_eq!(component_signs(Pivot::W, p), ComponentSigns { w: true, x: true, y: false, z: true });
    assert_eq!(component_signs(Pivot::X, p), ComponentSigns { w: true, x: true, y: false, z: true });
    assert_eq!(component_signs(Pivot::Y, p), ComponentSigns { w: false, x: false, y: true, z: false });
    assert_eq!(component_signs(Pivot::Z, p), ComponentSigns { w: true, x: true, y: false, z: true });
    let n = pairs(false, false, false, false, false, false);
    assert_eq!(component_signs(Pivot::W, n), ComponentSigns { w: true, x: false, y: false, z: false });
    assert_eq!(component_signs(Pivot::X, n), ComponentSigns { w: false, x: true, y: false, z: false });
    assert_eq!(component_signs(Pivot::Y, n), ComponentSigns { w: false, x: false, y: true, z: false });
    assert_eq!(component_signs(Pivot::Z, n), ComponentSigns { w: false, x: false, y: false, z: true });
}

#[test]
fn each_pair_sign_reaches_the_two_components_it_joins() {
    let all = pairs(true, true, true, true, true, true);
    let without = |name: usize| {
        let mut flags = [true; 6];
        flags[name] = false;
        pairs(flags[0], flags[1], flags[2], flags[3], flags[4], flags[5])
    };
    let yes = ComponentSigns { w: true, x: true, y: true, z: true };
    for pivot in [Pivot::W, Pivot::X, Pivot::Y, Pivot::Z] {
        assert_eq!(component_signs(pivot, all), yes);
    }
    assert_eq!(component_signs(Pivot::W, without(0)), ComponentSigns { x: false, ..yes });
    assert_eq!(component_signs(Pivot::X, without(0)), ComponentSigns { w: false, ..yes });
    assert_eq!(component_signs(Pivot::W, without(1)), ComponentSigns { y: false, ..yes });
    assert_eq!(component_signs(Pivot::Y, without(1)), ComponentSigns { w: false, ..yes });
    assert_eq!(component_signs(Pivot::W, without(2)), ComponentSigns { z: false, ..yes });
    assert_eq!(component_signs(Pivot::Z, without(2)), ComponentSigns { w: false, ..yes });
    assert_eq!(component_signs(Pivot::X, without(3)), ComponentSigns { y: false, ..yes });
    assert_eq!(component_signs(Pivot::Y, without(3)), ComponentSigns { x: false, ..yes });
    assert_eq!(component_signs(Pivot::X, without(4)), ComponentSigns { z: false, ..yes });
    assert_eq!(component_signs(Pivot::Z, without(4)), ComponentSigns { x: false, ..yes });
    assert_eq!(component_signs(Pivot::Y, without(5)), ComponentSigns { z: false, ..yes });
    assert_eq!(component_signs(Pivot::Z, without(5)), ComponentSigns { y: false, ..yes });
    assert_eq!(component_signs(Pivot::Z, without(0)), yes);
    assert_eq!(component_signs(Pivot::W, without(5)), yes);
}

#[test]
fn candidates_come_from_the_diagonal() {
    assert_eq!(trace_candidates(&identity()), squares(4, 0, 0, 0));
    assert_eq!(trace_candidates(&rotation([[1, 0, 0], [0, -1, 0], [0, 0, -1]])), squares(0, 4, 0, 0));
    assert_eq!(trace_candidates(&rotation([[-1, 0, 0], [0, 1, 0], [0, 0, -1]])), squares(0, 0, 4, 0));
    assert_eq!(trace_candidates(&rotation([[-1, 0, 0], [0, -1, 0], [0, 0, 1]])), squares(0, 0, 0, 4));
    assert_eq!(trace_candidates(&rotation([[2, 9, 9], [9, 3, 9], [9, 9, 5]])), squares(11, 0, 0, 1));
}

#[test]
fn negative_candidates_are_clamped_to_zero() {
    assert_eq!(trace_candidates(&rotation([[5, 0, 0], [0, 5, 0], [0, 0, -20]])), squares(0, 21, 21, 0));
    assert_eq!(trace_candidates(&rotation([[-1, 0, 0], [0, -1, 0], [0, 0, -1]])), squares(0, 2, 2, 2));
    let m = rotation([[i32::MIN, 0, 0], [0, i32::MIN, 0], [0, 0, i32::MIN]]);
    assert_eq!(trace_candidates(&m), squares(0, 2147483649, 2147483649, 2147483649));
    let m = rotation([[i32::MAX, 0, 0], [0, i32::MIN, 0], [0, 0, i32::MIN]]);
    assert_eq!(trace_candidates(&m), squares(0, 6442450944, 0, 0));
}

#[test]
fn pair_signs_come_from_the_off_diagonal_entries() {
    assert_eq!(off_diagonal_signs(&identity()), pairs(true, true, true, true, true, true));
    let m = rotation([[0, 5, -1], [3, 0, 2], [1, 4, 0]]);
    assert_eq!(off_diagonal_signs(&m), pairs(true, false, false, true, true, true));
    let m = rotation([[0, -5, 1], [-3, 0, -4], [-2, -2, 0]]);
    assert_eq!(off_diagonal_signs(&m), pairs(true, true, true, false, false, false));
    let m = rotation([[0, 1, 1], [-1, 0, 1], [-1, -1, 0]]);
    assert_eq!(off_diagonal_signs(&m), pairs(false, true, false, true, true, true));
}

#[test]
fn extraction_from_the_identity() {
    assert_eq!(matrix_to_squared_quaternion(identity()), squares(4, 0, 0, 0));
}

#[test]
fn extraction_from_quarter_turns() {
    let about_z = rotation([[0, -1, 0], [1, 0, 0], [0, 0, 1]]);
    assert_eq!(matrix_to_squared_quaternion(about_z), squares(2, 0, 0, 2));
    let about_z_back = rotation([[0, 1, 0], [-1, 0, 0], [0, 0, 1]]);
    assert_eq!(matrix_to_squared_quaternion(about_z_back), squares(2, 0, 0, -2));
    let about_x = rotation([[1, 0, 0], [0, 0, -1], [0, 1, 0]]);
    assert_eq!(matrix_to_squared_quaternion(about_x), squares(2, 2, 0, 0));
}

#[test]
fn extraction_from_a_third_turn() {
    let cycle = rotation([[0, 0, 1], [1, 0, 0], [0, 1, 0]]);
    assert_eq!(matrix_to_squared_quaternion(cycle), squares(1, 1, 1, 1));
}

#[test]
fn extraction_from_half_turns_uses_each_pivot() {
    assert_eq!(
        matrix_to_squared_quaternion(rotation([[0, 1, 0], [1, 0, 0], [0, 0, -1]])),
        squares(0, 2, 2, 0)
    );
    assert_eq!(
        matrix_to_squared_quaternion(rotation([[0, -1, 0], [-1, 0, 0], [0, 0, -1]])),
        squares(0, 2, -2, 0)
    );
    assert_eq!(
        matrix_to_squared_quaternion(rotation([[-1, 0, 0], [0, 0, 1], [0, 1, 0]])),
        squares(0, 0, 2, 2)
    );
    assert_eq!(
        matrix_to_squared_quaternion(rotation([[-1, 0, 0], [0, 0, -1], [0, -1, 0]])),
        squares(0, 0, 2, -2)
    );
    assert_eq!(
        matrix_to_squared_quaternion(rotation([[-1, 0, 0], [0, -1, 0], [0, 0, 1]])),
        squares(0, 0, 0, 4)
    );
}

#[test]
fn extraction_from_a_matrix_that_is_no_rotation_still_follows_the_formulas() {
    assert_eq!(
        matrix_to_squared_quaternion(rotation([[5, 0, 0], [0, 5, 0], [0, 0, -20]])),
        squares(0, 21, 21, 0)
    );
}

#[test]
fn extraction_inverts_expansion_up_to_sign() {
    let units = [
        (Quaternion { w: 1, x: 0, y: 0, z: 0 }, squares(4, 0, 0, 0)),
        (Quaternion { w: -1, x: 0, y: 0, z: 0 }, squares(4, 0, 0, 0)),
        (Quaternion { w: 0, x: 1, y: 0, z: 0 }, squares(0, 4, 0, 0)),
        (Quaternion { w: 0, x: -1, y: 0, z: 0 }, squares(0, 4, 0, 0)),
        (Quaternion { w: 0, x: 0, y: 1, z: 0 }, squares(0, 0, 4, 0)),
        (Quaternion { w: 0, x: 0, y: -1, z: 0 }, squares(0, 0, 4, 0)),
        (Quaternion { w: 0, x: 0, y: 0, z: 1 }, squares(0, 0, 0, 4)),
        (Quaternion { w: 0, x: 0, y: 0, z: -1 }, squares(0, 0, 0, 4)),
    ];
    for (unit, expected) in units {
        assert_eq!(matrix_to_squared_quaternion(quaternion_to_matrix(unit)), expected);
    }
}
