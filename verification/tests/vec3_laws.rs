use vecmath::vec3::Vec3;

#[test]
fn add_then_sub_cancels() {
    let a = Vec3::new(12, -7, 30);
    let b = Vec3::new(-5, 16, 4);

    assert_eq!(a.add(b).sub(b), a);
}

#[test]
fn invert_twice_is_identity() {
    let a = Vec3::new(12, -7, 0);

    assert_eq!(a.invert().invert(), a);
}

#[test]
fn dot_product_commutes() {
    let a = Vec3::new(3, -4, 5);
    let b = Vec3::new(7, 8, -9);

    assert_eq!(a.dot_product(b), b.dot_product(a));
}

#[test]
fn cross_product_anticommutes() {
    let a = Vec3::new(3, -4, 5);
    let b = Vec3::new(7, 8, -9);

    assert_eq!(a.cross_product(b), b.cross_product(a).invert());
}

#[test]
fn normalized_vector_has_unit_magnitude() {
    // Vectors whose magnitude divides every component exactly.
    let cases = [Vec3::new(2, 0, 0), Vec3::new(0, -3, 0), Vec3::new(0, 0, 100)];
    for a in cases {
        let u = a.normalize().unwrap();
        assert_eq!(u.magnitude(), 1);
    }
}
