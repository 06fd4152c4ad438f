use std::ops::{Index, IndexMut};

use math_transform::vector3::{cross, zero, Vector3};

#[test]
fn test_vector_equality() {
    let a = Vector3 { x: 1, y: 1, z: 1 };
    let b = Vector3 { x: 1, y: 1, z: 1 };
    assert_eq!(a, b);
    assert_eq!(a, a);
    assert_eq!(b, a);
}

#[test]
fn vector3_test_addition() {
    let a = Vector3 { x: 1, y: 1, z: 1 };
    let b = Vector3 { x: 2, y: 2, z: 2 };
    assert_eq!(a + a, b)
}

#[test]
fn vector3_test_subtraction() {
    let a = Vector3 { x: 1, y: 1, z: 1 };
    let b = Vector3 { x: 0, y: 0, z: 0 };
    assert_eq!(a - a, b)
}

#[test]
fn test_dot_product() {
    let a = Vector3 { x: 1, y: 1, z: 1 };
    let b = Vector3 { x: 0, y: 0, z: 0 };
    assert_eq!(a * b, 0)
}

#[test]
fn test_cross_product() {
    let a = Vector3 { x: 1, y: 0, z: 0 };
    let b = Vector3 { x: 0, y: 1, z: 0 };
    let c = Vector3 { x: 0, y: 0, z: 1 };
    assert_eq!(cross(a, b), c)
}

#[test]
fn vectors_that_differ_in_one_coordinate_are_not_equal() {
    let a = Vector3 { x: 1, y: 2, z: 3 };
    assert_ne!(a, Vector3 { x: 0, y: 2, z: 3 });
    assert_ne!(a, Vector3 { x: 1, y: 0, z: 3 });
    assert_ne!(a, Vector3 { x: 1, y: 2, z: 0 });
}

#[test]
fn zero_is_the_additive_identity() {
    let a = Vector3 { x: 3, y: -4, z: 5 };
    assert_eq!(zero(), Vector3 { x: 0, y: 0, z: 0 });
    assert_eq!(a + zero(), a);
    assert_eq!(zero() + a, a);
}

#[test]
fn addition_is_component_wise() {
    let a = Vector3 { x: 1, y: -2, z: 30 };
    let b = Vector3 { x: 10, y: 20, z: -5 };
    assert_eq!(a + b, Vector3 { x: 11, y: 18, z: 25 });
    assert_eq!(a + &b, Vector3 { x: 11, y: 18, z: 25 });
}

#[test]
fn negation_flips_every_sign() {
    let a = Vector3 { x: 1, y: -2, z: 0 };
    assert_eq!(-a, Vector3 { x: -1, y: 2, z: 0 });
    assert_eq!(-&a, Vector3 { x: -1, y: 2, z: 0 });
}

#[test]
fn subtraction_is_addition_of_the_negation() {
    let a = Vector3 { x: 7, y: -2, z: 30 };
    let b = Vector3 { x: 10, y: 20, z: -5 };
    assert_eq!(a - b, Vector3 { x: -3, y: -22, z: 35 });
    assert_eq!(a - b, a + (-b));
    assert_eq!(a - &b, a + (-b));
}

#[test]
fn subtraction_needs_only_the_difference_to_fit() {
    let a = Vector3 { x: -1, y: -1, z: -1 };
    let b = Vector3 { x: i32::MIN, y: i32::MIN, z: i32::MIN };
    assert_eq!(a - b, Vector3 { x: i32::MAX, y: i32::MAX, z: i32::MAX });
}

#[test]
fn a_vector_times_a_scalar_is_a_vector() {
    let a = Vector3 { x: 1, y: -2, z: 3 };
    assert_eq!(a * 4, Vector3 { x: 4, y: -8, z: 12 });
    assert_eq!(a * 0, zero());
    assert_eq!(a * -1, -a);
}

#[test]
fn a_vector_times_a_vector_is_the_dot_product() {
    let a = Vector3 { x: 2, y: 3, z: 4 };
    let b = Vector3 { x: 5, y: 6, z: 7 };
    assert_eq!(a * b, 56);
    assert_eq!(b * a, 56);
    assert_eq!(a * a, 29);
}

#[test]
fn the_dot_product_may_pass_through_large_intermediate_values() {
    let a = Vector3 { x: i32::MAX, y: i32::MAX, z: 1 };
    let b = Vector3 { x: i32::MAX, y: -i32::MAX, z: 5 };
    assert_eq!(a * b, 5);
}

#[test]
fn cross_product_is_right_handed() {
    let x = Vector3 { x: 1, y: 0, z: 0 };
    let y = Vector3 { x: 0, y: 1, z: 0 };
    let z = Vector3 { x: 0, y: 0, z: 1 };
    assert_eq!(cross(y, z), x);
    assert_eq!(cross(z, x), y);
    assert_eq!(cross(y, x), -z);
    assert_eq!(cross(x, x), zero());
}

#[test]
fn cross_product_of_general_vectors() {
    let a = Vector3 { x: 2, y: 3, z: 4 };
    let b = Vector3 { x: 5, y: 6, z: 7 };
    let c = cross(a, b);
    assert_eq!(c, Vector3 { x: -3, y: 6, z: -3 });
    assert_eq!(c * a, 0);
    assert_eq!(c * b, 0);
    assert_eq!(cross(b, a), -c);
}

#[test]
fn index_reads_coordinates_and_the_homogeneous_one() {
    let a = Vector3 { x: 7, y: 8, z: 9 };
    assert_eq!(a[0], 7);
    assert_eq!(a[1], 8);
    assert_eq!(a[2], 9);
    assert_eq!(a[3], 1);
    assert_eq!(*a.index(3), 1);
    assert_eq!(zero()[3], 1);
}

#[test]
fn index_mut_writes_one_coordinate() {
    let mut a = Vector3 { x: 7, y: 8, z: 9 };
    a[0] = 1;
    assert_eq!(a, Vector3 { x: 1, y: 8, z: 9 });
    a[1] += 10;
    assert_eq!(a, Vector3 { x: 1, y: 18, z: 9 });
    *a.index_mut(2) = -3;
    assert_eq!(a, Vector3 { x: 1, y: 18, z: -3 });
}
