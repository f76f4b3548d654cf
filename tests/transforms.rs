use mathprim::mat::{Mat3, Mat4};
use mathprim::quat::Quat;
use mathprim::vec::{Vec3, Vec4};

fn sample(k: i64) -> Mat4<i64> {
    Mat4::from_data(
        1 + k, 2, 3 - k, 4,
        5, 6 * k, 7, 8,
        9, 10, 11 + k, 12,
        13, 14, 15, 16 - k,
    )
}

#[test]
fn from_data_reads_back_by_rows_and_columns() {
    let m = Mat4::from_data(
        0, 1, 2, 3,
        4, 5, 6, 7,
        8, 9, 10, 11,
        12, 13, 14, 15,
    );
    assert_eq!(m.row(0), Vec4::new(0, 1, 2, 3));
    assert_eq!(m.row(3), Vec4::new(12, 13, 14, 15));
    assert_eq!(m.col(0), Vec4::new(0, 4, 8, 12));
    assert_eq!(m.col(2), Vec4::new(2, 6, 10, 14));
    for r in 0..4 {
        for c in 0..4 {
            assert_eq!(m.row(r).idx(c), (4 * r + c) as i32);
            assert_eq!(m.col(c).idx(r), (4 * r + c) as i32);
        }
    }
    let rebuilt = Mat4::from_data(
        m.row(0).x, m.row(0).y, m.row(0).z, m.row(0).w,
        m.row(1).x, m.row(1).y, m.row(1).z, m.row(1).w,
        m.row(2).x, m.row(2).y, m.row(2).z, m.row(2).w,
        m.row(3).x, m.row(3).y, m.row(3).z, m.row(3).w,
    );
    assert_eq!(rebuilt, m);
}

#[test]
fn rows_array_and_columns_array() {
    let d: [i32; 16] = [1, 2, 3, 4, 5, 6, 7, 8, 9, 10, 11, 12, 13, 14, 15, 16];
    let m = Mat4::from_rows_array(&d);
    assert_eq!(m.row(1), Vec4::new(5, 6, 7, 8));
    let cols = m.to_cols_array();
    assert_eq!(cols[0], [1, 5, 9, 13]);
    assert_eq!(Mat4::from_cols_array(cols), m);
}

#[test]
fn transpose_swaps_rows_and_columns() {
    let m = sample(1);
    let t = m.transposed();
    for i in 0..4 {
        assert_eq!(t.row(i), m.col(i));
        assert_eq!(t.col(i), m.row(i));
    }
    assert_eq!(t.transposed(), m);
}

#[test]
fn identity_is_neutral() {
    let m = sample(2);
    let i = Mat4::identity();
    assert_eq!(m.mul(i), m);
    assert_eq!(i.mul(m), m);
    assert_eq!(i.row(2), Vec4::new(0, 0, 1, 0));
}

#[test]
fn product_is_associative() {
    let a = sample(1);
    let b = sample(-2);
    let c = sample(3);
    assert_eq!(a.mul(b).mul(c), a.mul(b.mul(c)));
}

#[test]
fn product_entries_are_row_column_dots() {
    let a = sample(1);
    let b = sample(5);
    let p = a.mul(b);
    for r in 0..4 {
        for c in 0..4 {
            assert_eq!(p.row(r).idx(c), a.row(r).dot(&b.col(c)));
        }
    }
    assert_ne!(a.mul(b), b.mul(a));
}

#[test]
fn translate_moves_the_origin() {
    let t = Mat4::translate(Vec3::new(1, 2, 3));
    assert_eq!(t.mul_vec4(&Vec4::new(0, 0, 0, 1)), Vec4::new(1, 2, 3, 1));
    assert_eq!(t.mul_vec4(&Vec4::new(5, 5, 5, 0)), Vec4::new(5, 5, 5, 0));
    assert_eq!(t.col(3), Vec4::new(1, 2, 3, 1));
}

#[test]
fn scale_then_translate_composes_right_to_left() {
    let s = Mat4::scale(Vec3::new(2, 3, 4));
    let t = Mat4::translate(Vec3::new(1, 1, 1));
    let p = Vec4::new(1, 1, 1, 1);
    assert_eq!(s.mul_vec4(&p), Vec4::new(2, 3, 4, 1));
    assert_eq!(t.mul(s).mul_vec4(&p), Vec4::new(3, 4, 5, 1));
    assert_eq!(s.mul(t).mul_vec4(&p), Vec4::new(4, 6, 8, 1));
}

#[test]
fn rotation_matrix_of_half_turn_about_z() {
    let q = Quat::from_parts(0, 0, 1, 0);
    let m = Mat4::rotation_from_quat(q);
    assert_eq!(m, Mat4::from_data(
        -1, 0, 0, 0,
        0, -1, 0, 0,
        0, 0, 1, 0,
        0, 0, 0, 1,
    ));
    assert_eq!(m.mul_vec4(&Vec4::new(1, 2, 3, 0)), Vec4::new(-1, -2, 3, 0));
}

#[test]
fn rotation_matrix_of_identity_quaternion() {
    let m = Mat4::rotation_from_quat(Quat::from_parts(0, 0, 0, 1));
    assert_eq!(m, Mat4::identity());
}

#[test]
fn rotation_matrix_agrees_with_rotate_vector() {
    let q = Quat::from_parts(0, 1, 0, 0);
    let v = Vec3::new(3, -4, 5);
    let by_matrix = Mat4::rotation_from_quat(q).mul_vec4(&Vec4::new(v.x, v.y, v.z, 0));
    let by_quat = q.rotate_vector(v);
    assert_eq!(by_matrix, Vec4::new(by_quat.x, by_quat.y, by_quat.z, 0));
}

#[test]
fn mat3_from_data_is_column_major() {
    let m = Mat3::from_data(1, 2, 3, 4, 5, 6, 7, 8, 9);
    assert_eq!(m.c0, Vec3::new(1, 4, 7));
    assert_eq!(m.c2, Vec3::new(3, 6, 9));
}
