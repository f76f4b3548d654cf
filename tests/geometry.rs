use mathprim::point::{Point2D, Point3D};
use mathprim::quad::Quad3D;
use mathprim::rect::{Rect2D, Rect3D};
use mathprim::size::{Size2D, Size3D};

#[test]
fn points_and_sizes() {
    let p = Point2D::new(3, 9);
    assert_eq!((p.x(), p.y()), (3, 9));
    assert_eq!(p.sub(Point2D::new(5, 4)), Point2D::new(-2, 5));
    assert_eq!(Point2D::<u32>::zero(), Point2D::new(0, 0));
    let q = Point3D::new(1u64, 2, 3);
    assert_eq!((q.x(), q.y(), q.z()), (1, 2, 3));
    let s = Size2D::new(4, 5);
    assert_eq!((s.width(), s.height()), (4, 5));
    let t = Size3D::new(4, 5, 6);
    assert_eq!((t.width(), t.height(), t.depth()), (4, 5, 6));
}

#[test]
fn rect2d_from_top_left_and_size() {
    let r = Rect2D::from_top_left(Point2D::new(10, 20), Size2D::new(30, 40));
    assert_eq!((r.top(), r.right(), r.bottom(), r.left()), (20, 40, 60, 10));
    assert_eq!(r.top_left(), Point2D::new(10, 20));
    assert_eq!(r.top_right(), Point2D::new(40, 20));
    assert_eq!(r.bottom_left(), Point2D::new(10, 60));
    assert_eq!(r.bottom_right(), Point2D::new(40, 60));
    assert_eq!(r.offset(), Point2D::new(10, 20));
    assert_eq!(r.size(), Size2D::new(30, 40));
    assert_eq!((r.width(), r.height()), (30, 40));
    assert_eq!(Rect2D::from_offset_and_size(Point2D::new(10, 20), Size2D::new(30, 40)), r);
}

#[test]
fn rect2d_at_origin() {
    let r = Rect2D::from_width_height(7u32, 8);
    assert_eq!(r, Rect2D::from_top_right_bottom_left(0, 7, 8, 0));
    assert_eq!(Rect2D::from_size(Size2D::new(7u32, 8)), r);
    assert_eq!(r.size(), Size2D::new(7, 8));
}

#[test]
fn rect3d_corners_keep_depth() {
    let r = Rect3D::from_top_left(Point3D::new(1, 2, -5), Size2D::new(3, 4));
    assert_eq!(r, Rect3D::from_top_right_bottom_left_depth(2, 4, 6, 1, -5));
    assert_eq!(r.top_left(), Point3D::new(1, 2, -5));
    assert_eq!(r.top_right(), Point3D::new(4, 2, -5));
    assert_eq!(r.bottom_left(), Point3D::new(1, 6, -5));
    assert_eq!(r.bottom_right(), Point3D::new(4, 6, -5));
}

#[test]
fn quad3d_edges_and_corners() {
    let q = Quad3D::from_top_left(Point3D::new(1i64, 2, 9), Size2D::new(3, 4));
    assert_eq!((q.top(), q.right(), q.bottom(), q.left(), q.depth()), (2, 4, 6, 1, 9));
    assert_eq!(q.top_left(), Point3D::new(1, 2, 9));
    assert_eq!(q.bottom_right(), Point3D::new(4, 6, 9));
    assert_eq!(q, Quad3D::from_top_right_bottom_left_depth(2, 4, 6, 1, 9));
}
