use math_transform::quaternion::{conjugate, identity, magnitude_squared, Quaternion};

fn q(w: i32, x: i32, y: i32, z: i32) -> Quaternion {
    Quaternion { w, x, y, z }
}

#[test]
fn identity_is_one() {
    assert_eq!(identity(), q(1, 0, 0, 0));
    assert_eq!(magnitude_squared(identity()), 1);
}

#[test]
fn quaternion_addition_is_component_wise() {
    assert_eq!(q(1, 2, 3, 4) + q(10, -20, 30, -40), q(11, -18, 33, -36));
}

#[test]
fn hamilton_product_of_the_units() {
    let i = q(0, 1, 0, 0);
    let j = q(0, 0, 1, 0);
    let k = q(0, 0, 0, 1);
    let minus_one = q(-1, 0, 0, 0);
    assert_eq!(i * i, minus_one);
    assert_eq!(j * j, minus_one);
    assert_eq!(k * k, minus_one);
    assert_eq!(i * j, k);
    assert_eq!(j * k, i);
    assert_eq!(k * i, j);
    assert_eq!(j * i, q(0, 0, 0, -1));
    assert_eq!(k * j, q(0, -1, 0, 0));
    assert_eq!(i * k, q(0, 0, -1, 0));
    assert_eq!(i * j * k, minus_one);
}

#[test]
fn hamilton_product_is_not_commutative() {
    let a = q(1, 2, 3, 4);
    let b = q(5, 6, 7, 8);
    assert_eq!(a * b, q(-60, 12, 30, 24));
    assert_eq!(b * a, q(-60, 20, 14, 32));
}

#[test]
fn identity_is_neutral_for_the_product() {
    let a = q(1, -2, 3, -4);
    assert_eq!(a * identity(), a);
    assert_eq!(identity() * a, a);
}

#[test]
fn conjugate_negates_the_vector_part() {
    assert_eq!(conjugate(q(1, 2, -3, 4)), q(1, -2, 3, -4));
    assert_eq!(conjugate(conjugate(q(1, 2, -3, 4))), q(1, 2, -3, 4));
    assert_eq!(conjugate(identity()), identity());
}

#[test]
fn magnitude_squared_is_the_sum_of_squares() {
    assert_eq!(magnitude_squared(q(1, 2, 3, 4)), 30);
    assert_eq!(magnitude_squared(q(0, 0, 0, 0)), 0);
    assert_eq!(magnitude_squared(q(-1, -1, -1, -1)), 4);
    assert_eq!(magnitude_squared(q(0, 0, -1, 0)), 1);
}

#[test]
fn a_quaternion_times_its_conjugate_is_its_squared_magnitude() {
    let a = q(1, 2, 3, 4);
    assert_eq!(a * conjugate(a), q(30, 0, 0, 0));
    assert_eq!(conjugate(a) * a, q(30, 0, 0, 0));
}
