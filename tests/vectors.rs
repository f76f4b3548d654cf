use mathprim::point::{Point2D, Point3D};
use mathprim::scalar::Scalar;
use mathprim::vec::{Vec2, Vec3, Vec4};

#[test]
fn scalar_arithmetic_on_each_type() {
    assert_eq!(7i32.plus(-9), -2);
    assert_eq!(7i64.minus(9), -2);
    assert_eq!(6u32.times(7), 42);
    assert_eq!(<u64 as Scalar>::zero(), 0);
    assert_eq!(<i32 as Scalar>::one(), 1);
    assert!(5i64.equals(&5));
    assert!(!5u32.equals(&6));
}

#[test]
fn cross_of_known_vectors() {
    let a = Vec3::new(1, 2, 3);
    let b = Vec3::new(4, 5, 6);
    assert_eq!(a.cross(&b), Vec3::new(-3, 6, -3));
}

#[test]
fn cross_is_anticommutative_and_perpendicular() {
    let a = Vec3::new(2i64, -7, 5);
    let b = Vec3::new(-3i64, 4, 11);
    assert_eq!(a.cross(&b), b.cross(&a).negate());
    assert_eq!(a.dot(&b.cross(&a)), 0);
    assert_eq!(b.dot(&a.cross(&b)), 0);
}

#[test]
fn cross_of_basis_vectors() {
    let x = Vec3::new(1, 0, 0);
    let y = Vec3::new(0, 1, 0);
    assert_eq!(x.cross(&y), Vec3::new(0, 0, 1));
    assert_eq!(x.cross(&x), Vec3::zero());
}

#[test]
fn vec3_componentwise_arithmetic() {
    let a = Vec3::new(1, -2, 3);
    let b = Vec3::new(10, 20, 30);
    assert_eq!(a.add(b), Vec3::new(11, 18, 33));
    assert_eq!(a.sub(b), Vec3::new(-9, -22, -27));
    assert_eq!(a.mul(3), Vec3::new(3, -6, 9));
    assert_eq!(a.negate(), Vec3::new(-1, 2, -3));
    assert_eq!(a.dot(&b), 10 - 40 + 90);
    assert_eq!(a.magnitude_squared(), 14);
    let mut c = a;
    c.add_assign(b);
    assert_eq!(c, Vec3::new(11, 18, 33));
    c.sub_assign(b);
    assert_eq!(c, a);
}

#[test]
fn vec3_getters_and_channels() {
    let v = Vec3::new(4u32, 5, 6);
    assert_eq!((v.x(), v.y(), v.z()), (4, 5, 6));
    assert_eq!((v.r(), v.g(), v.b()), (4, 5, 6));
    assert_eq!(Vec3::from_array([7, 8, 9]).to_array(), [7, 8, 9]);
}

#[test]
fn vec3_from_points_and_planar_vectors() {
    assert_eq!(Vec3::from_point2(Point2D::new(1, 2)), Vec3::new(1, 2, 0));
    assert_eq!(Vec3::from_point3(Point3D::new(1, 2, 3)), Vec3::new(1, 2, 3));
    assert_eq!(Vec3::from_vec2(Vec2::new(5, 6)), Vec3::new(5, 6, 0));
}

#[test]
fn vec2_arithmetic() {
    let a = Vec2::new(3, 4);
    let b = Vec2::new(-1, 2);
    assert_eq!(a.magnitude_squared(), 25);
    assert_eq!(a.dot(&b), 5);
    assert_eq!(a.add(b), Vec2::new(2, 6));
    assert_eq!(a.sub(b), Vec2::new(4, 2));
    assert_eq!(a.mul(-2), Vec2::new(-6, -8));
    assert_eq!(a.negate(), Vec2::new(-3, -4));
    assert_eq!(Vec2::<i32>::zero(), Vec2::new(0, 0));
    let mut c = a;
    c.add_assign(b);
    c.sub_assign(a);
    assert_eq!(c, b);
    assert_eq!(Vec2::from_array([1, 2]).to_array(), [1, 2]);
}

#[test]
fn vec4_arithmetic_and_access() {
    let a = Vec4::new(1, 2, 3, 4);
    let b = Vec4::new(5, 6, 7, 8);
    assert_eq!(a.dot(&b), 70);
    assert_eq!(a.magnitude_squared(), 30);
    assert_eq!(a.add(b), Vec4::new(6, 8, 10, 12));
    assert_eq!(b.sub(a), Vec4::new(4, 4, 4, 4));
    assert_eq!(a.mul(2), Vec4::new(2, 4, 6, 8));
    assert_eq!(a.negate(), Vec4::new(-1, -2, -3, -4));
    assert_eq!((a.idx(0), a.idx(1), a.idx(2), a.idx(3)), (1, 2, 3, 4));
    assert_eq!((a.x(), a.y(), a.z(), a.w()), (1, 2, 3, 4));
    assert_eq!((a.r(), a.g(), a.b(), a.a()), (1, 2, 3, 4));
    let mut c = a;
    c.add_assign(b);
    assert_eq!(c, Vec4::new(6, 8, 10, 12));
    c.sub_assign(b);
    assert_eq!(c, a);
    assert_eq!(Vec4::from_array([9, 8, 7, 6]).to_array(), [9, 8, 7, 6]);
}

#[test]
fn vec4_is_normal_only_at_unit_length() {
    assert!(Vec4::new(0, 0, -1, 0).is_normal());
    assert!(!Vec4::new(1, 1, 0, 0).is_normal());
    assert!(!Vec4::<i32>::zero().is_normal());
}

#[test]
fn vec4_homogeneous_lifts() {
    assert_eq!(Vec4::from_vec3(Vec3::new(1, 2, 3)), Vec4::new(1, 2, 3, 1));
    assert_eq!(Vec4::from_vec2(Vec2::new(1, 2)), Vec4::new(1, 2, 0, 0));
}
