use mathprim::quat::Quat;
use mathprim::vec::Vec3;

#[test]
fn hamilton_product_of_units() {
    let i = Quat::from_parts(1, 0, 0, 0);
    let j = Quat::from_parts(0, 1, 0, 0);
    let k = Quat::from_parts(0, 0, 1, 0);
    let minus_one = Quat::from_parts(0, 0, 0, -1);
    assert_eq!(i.mul(j), k);
    assert_eq!(j.mul(i), Quat::from_parts(0, 0, -1, 0));
    assert_eq!(j.mul(k), i);
    assert_eq!(k.mul(i), j);
    assert_eq!(i.mul(i), minus_one);
    assert_eq!(k.mul(k), minus_one);
    assert_eq!(i.mul(j).mul(k), minus_one);
}

#[test]
fn hamilton_product_general() {
    let p = Quat::from_parts(1, 2, 3, 4);
    let q = Quat::from_parts(5, 6, 7, 8);
    // (4 + i + 2j + 3k)(8 + 5i + 6j + 7k)
    assert_eq!(p.mul(q), Quat::from_parts(24, 48, 48, -6));
}

#[test]
fn inverse_is_conjugate() {
    let q = Quat::from_parts(1, -2, 3, 4);
    assert_eq!(q.inverse(), Quat::from_parts(-1, 2, -3, 4));
    assert_eq!(q.mul(q.inverse()), Quat::from_parts(0, 0, 0, q.magnitude_squared()));
}

#[test]
fn parts_and_components() {
    let q = Quat::from_array([1u32, 2, 3, 4]);
    assert_eq!((q.x(), q.y(), q.z(), q.w()), (1, 2, 3, 4));
    assert_eq!(q.vector_component(), Vec3::new(1, 2, 3));
    assert_eq!(q.scalar_component(), 4);
    assert_eq!(q.magnitude_squared(), 30);
}

#[test]
fn rotate_by_half_turn_about_z() {
    let q = Quat::from_parts(0, 0, 1, 0);
    assert_eq!(q.rotate_vector(Vec3::new(1, 0, 0)), Vec3::new(-1, 0, 0));
    assert_eq!(q.rotate_vector(Vec3::new(2, 3, 4)), Vec3::new(-2, -3, 4));
}

#[test]
fn rotate_by_identity_keeps_vector() {
    let q = Quat::from_parts(0, 0, 0, -1);
    assert_eq!(q.rotate_vector(Vec3::new(7, -8, 9)), Vec3::new(7, -8, 9));
}

#[test]
fn rotate_by_scaled_quarter_turn_about_z() {
    // Not of unit length: the closed form is applied as it stands.
    let q = Quat::from_parts(0, 0, 1, 1);
    assert_eq!(q.rotate_vector(Vec3::new(1, 0, 0)), Vec3::new(0, 2, 0));
}

#[test]
fn rotate_keeps_length_for_unit_quaternions() {
    let v = Vec3::new(3, -4, 12);
    for q in [
        Quat::from_parts(1, 0, 0, 0),
        Quat::from_parts(0, -1, 0, 0),
        Quat::from_parts(0, 0, 1, 0),
        Quat::from_parts(0, 0, 0, 1),
    ] {
        assert_eq!(q.rotate_vector(v).magnitude_squared(), v.magnitude_squared());
    }
}

#[test]
fn rotate_matches_sandwich_product() {
    let q = Quat::from_parts(1, 2, -1, 3);
    let v = Vec3::new(2, -5, 4);
    let s = q.mul(Quat::from_parts(v.x, v.y, v.z, 0)).mul(q.inverse());
    assert_eq!(s.w, 0);
    assert_eq!(s.vector_component(), q.rotate_vector(v));
}
