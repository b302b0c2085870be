use vecmath::vec3::Vec3;

#[test]
fn add() {
    let a = Vec3::new(3, 4, 5);
    let b = Vec3::new(7, 8, 9);

    assert_eq!(a.add(b), Vec3::new(10, 12, 14));
}

#[test]
fn sub() {
    let a = Vec3::new(3, 4, 5);
    let b = Vec3::new(7, 8, 9);

    assert_eq!(a.sub(b), Vec3::new(-4, -4, -4));
}

#[test]
fn scalar_prod() {
    let a = Vec3::new(3, 4, 5);

    assert_eq!(a.scalar_mul(2), Vec3::new(6, 8, 10))
}

#[test]
fn dot_prod() {
    let a = Vec3::new(3, 4, 5);
    let b = Vec3::new(7, 8, 9);

    let res = a.dot_product(b);
    assert_eq!(res, 21 + 32 + 45);
}

#[test]
fn cross_prod() {
    let a = Vec3::new(3, 4, 5);
    let b = Vec3::new(7, 8, 9);

    assert_eq!(a.cross_product(b), Vec3::new(-4, 8, -4));
}

#[test]
fn normalize() {
    let a = Vec3::new(2, 0, 0);

    assert_eq!(a.normalize().unwrap(), Vec3::new(1, 0, 0));

    let b = Vec3::new(0, 0, 0);

    assert_eq!(b.normalize(), None)
}

#[test]
fn magnitude_exact() {
    assert_eq!(Vec3::new(3, 4, 0).magnitude(), 5);
    assert_eq!(Vec3::new(0, 0, 0).magnitude(), 0);
    assert_eq!(Vec3::new(1, 0, 0).magnitude(), 1);
}

#[test]
fn magnitude_rounds_down() {
    // The squared norm 12 lies between 3*3 and 4*4.
    assert_eq!(Vec3::new(2, 2, 2).magnitude(), 3);
    // The squared norm 2 lies between 1*1 and 2*2.
    assert_eq!(Vec3::new(1, 1, 0).magnitude(), 1);
}

#[test]
fn invert() {
    assert_eq!(Vec3::new(3, -4, 5).invert(), Vec3::new(-3, 4, -5));
}

#[test]
fn scalar_div_by_zero() {
    assert_eq!(Vec3::new(3, 4, 5).scalar_div(0), None);
    assert_eq!(Vec3::new(0, 0, 0).scalar_div(0), None);
}

#[test]
fn scalar_div_rounds_toward_zero() {
    assert_eq!(Vec3::new(7, -7, 9).scalar_div(2).unwrap(), Vec3::new(3, -3, 4));
    assert_eq!(Vec3::new(7, -7, 9).scalar_div(-2).unwrap(), Vec3::new(-3, 3, -4));
}

#[test]
fn scalar_div_large_components() {
    let a = Vec3::new(i64::MIN, i64::MAX, 0);
    assert_eq!(a.scalar_div(2).unwrap(), Vec3::new(i64::MIN / 2, i64::MAX / 2, 0));
}

#[test]
fn normalize_negative_axis() {
    // The magnitude 6 divides every component, so the direction
    // survives normalization exactly.
    let a = Vec3::new(0, -6, 0);
    let u = a.normalize().unwrap();
    assert_eq!(u, Vec3::new(0, -1, 0));
    assert_eq!(u.magnitude(), 1);
}

#[test]
fn normalize_drops_shorter_components() {
    // Components smaller than the magnitude divide away to zero.
    let a = Vec3::new(3, 4, 0);
    assert_eq!(a.normalize().unwrap(), Vec3::new(0, 0, 0));
}

#[test]
fn structural_order() {
    assert!(Vec3::new(1, 9, 9) < Vec3::new(2, 0, 0));
    assert!(Vec3::new(1, 2, 3) < Vec3::new(1, 2, 4));
}
