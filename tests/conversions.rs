use mathprim::mat::{Mat3, Mat4};
use mathprim::point::{Point2D, Point3D};
use mathprim::quat::Quat;
use mathprim::rect::{Rect2D, Rect3D};
use mathprim::size::{Size2D, Size3D};
use mathprim::vec::{Vec2, Vec3, Vec4};

#[test]
fn arrays_convert_both_ways() {
    let v: Vec3<i32> = [1, 2, 3].into();
    assert_eq!(v, Vec3::new(1, 2, 3));
    let a: [i32; 3] = v.into();
    assert_eq!(a, [1, 2, 3]);
    let w: Vec2<u64> = [4, 5].into();
    let b: [u64; 2] = w.into();
    assert_eq!(b, [4, 5]);
    let x: Vec4<i64> = [6, 7, 8, 9].into();
    let c: [i64; 4] = x.into();
    assert_eq!(c, [6, 7, 8, 9]);
    let q: Quat<i32> = [1, 2, 3, 4].into();
    assert_eq!(q, Quat::from_parts(1, 2, 3, 4));
}

#[test]
fn lifts_into_higher_dimensions() {
    assert_eq!(Vec3::from(Vec2::new(1, 2)), Vec3::new(1, 2, 0));
    assert_eq!(Vec3::from(Point2D::new(1, 2)), Vec3::new(1, 2, 0));
    assert_eq!(Vec3::from(Point3D::new(1, 2, 3)), Vec3::new(1, 2, 3));
    assert_eq!(Vec4::from(Vec2::new(1, 2)), Vec4::new(1, 2, 0, 0));
    assert_eq!(Vec4::from(Vec3::new(1, 2, 3)), Vec4::new(1, 2, 3, 1));
    assert_eq!(Vec4::<i32>::from([1, 2, 3]), Vec4::new(1, 2, 3, 1));
}

#[test]
fn matrix_columns_convert_both_ways() {
    let cols = [[1, 2, 3, 4], [5, 6, 7, 8], [9, 10, 11, 12], [13, 14, 15, 16]];
    let m: Mat4<i32> = cols.into();
    assert_eq!(m.col(1), Vec4::new(5, 6, 7, 8));
    assert_eq!(m.row(0), Vec4::new(1, 5, 9, 13));
    let back: [[i32; 4]; 4] = m.into();
    assert_eq!(back, cols);
}

#[test]
fn rect_from_size_sits_at_origin() {
    let r: Rect2D<i32> = Size2D::new(3, 4).into();
    assert_eq!(r, Rect2D::from_top_right_bottom_left(0, 3, 4, 0));
}

#[test]
fn defaults_are_zero() {
    assert_eq!(Vec2::<i32>::default(), Vec2::new(0, 0));
    assert_eq!(Vec3::<u32>::default(), Vec3::new(0, 0, 0));
    assert_eq!(Vec4::<i64>::default(), Vec4::new(0, 0, 0, 0));
    assert_eq!(Mat4::<i32>::default().col(2), Vec4::new(0, 0, 0, 0));
    assert_eq!(Mat3::<i32>::default(), Mat3::from_data(0, 0, 0, 0, 0, 0, 0, 0, 0));
    assert_eq!(Point2D::<i32>::default(), Point2D::new(0, 0));
    assert_eq!(Point3D::<i32>::default(), Point3D::new(0, 0, 0));
    assert_eq!(Size2D::<u32>::default(), Size2D::new(0, 0));
    assert_eq!(Size3D::<u32>::default(), Size3D::new(0, 0, 0));
    assert_eq!(Rect2D::<i32>::default(), Rect2D::from_top_right_bottom_left(0, 0, 0, 0));
    assert_eq!(Rect3D::<i32>::default(), Rect3D::from_top_right_bottom_left_depth(0, 0, 0, 0, 0));
}
