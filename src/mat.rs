//! Column-major 3×3 and 4×4 matrices.
//!
//! A matrix is stored as its columns, first to last; `col(i)` hands back
//! column `i` as it is stored and `row(i)` gathers component `i` of every
//! column. Every constructor takes its arguments in reading order (row by
//! row) and places them through that one convention. Vectors are columns:
//! `A.mul(B)` applies `B` first, and `M.mul_vec4(v)` is `M · v`.
use crate::arith::{lemma_assoc, lemma_distribute_left4, lemma_distribute_right4};
use crate::quat::{lemma_unit_cases, qnorm, qpure, qrotate, Quat};
use crate::scalar::Scalar;
use crate::vec::{dot4, dot4_fits, V4, Vec3, Vec4};
use vstd::prelude::*;

verus! {

/// The exact value of a 4×4 matrix: its four columns.
pub type M4 = (V4, V4, V4, V4);

/// Component `i` of `v`, in the order x, y, z, w.
pub open spec fn comp4(v: V4, i: int) -> int {
    if i == 0 {
        v.0
    } else if i == 1 {
        v.1
    } else if i == 2 {
        v.2
    } else {
        v.3
    }
}

/// Row `i` of `m`.
pub open spec fn m4_row(m: M4, i: int) -> V4 {
    (comp4(m.0, i), comp4(m.1, i), comp4(m.2, i), comp4(m.3, i))
}

/// The entry of `m` in row `r` and column `c`.
pub open spec fn m4_entry(m: M4, r: int, c: int) -> int {
    comp4(m4_row(m, r), c)
}

/// `m · v`, with `v` a column.
pub open spec fn m4_apply(m: M4, v: V4) -> V4 {
    (dot4(m4_row(m, 0), v), dot4(m4_row(m, 1), v), dot4(m4_row(m, 2), v), dot4(m4_row(m, 3), v))
}

/// The product `a · b`: column `j` of it is `a` applied to column `j` of `b`.
pub open spec fn m4_mul(a: M4, b: M4) -> M4 {
    (m4_apply(a, b.0), m4_apply(a, b.1), m4_apply(a, b.2), m4_apply(a, b.3))
}

pub open spec fn m4_transpose(m: M4) -> M4 {
    (m4_row(m, 0), m4_row(m, 1), m4_row(m, 2), m4_row(m, 3))
}

pub open spec fn m4_identity() -> M4 {
    ((1, 0, 0, 0), (0, 1, 0, 0), (0, 0, 1, 0), (0, 0, 0, 1))
}

/// The rotation matrix of a unit quaternion `(x, y, z, w)`. Its rows are
/// `[1 − 2(y² + z²), 2(xy − wz), 2(xz + wy), 0]`,
/// `[2(xy + wz), 1 − 2(x² + z²), 2(yz − wx), 0]`,
/// `[2(xz − wy), 2(yz + wx), 1 − 2(x² + y²), 0]`,
/// `[0, 0, 0, 1]`;
/// the value below lists its columns.
pub open spec fn quat_matrix(q: V4) -> M4 {
    let (x, y, z, w) = q;
    (
        (1 - 2 * (y * y + z * z), 2 * (x * y + w * z), 2 * (x * z - w * y), 0),
        (2 * (x * y - w * z), 1 - 2 * (x * x + z * z), 2 * (y * z + w * x), 0),
        (2 * (x * z + w * y), 2 * (y * z - w * x), 1 - 2 * (x * x + y * y), 0),
        (0, 0, 0, 1),
    )
}

/// Whether [`quat_matrix`] can be computed in `T`, term by term.
pub open spec fn quat_matrix_fits<T: Scalar>(q: V4) -> bool {
    let (x, y, z, w) = q;
    &&& T::fits(2)
    &&& T::fits(x * x) &&& T::fits(y * y) &&& T::fits(z * z)
    &&& T::fits(x * y) &&& T::fits(x * z) &&& T::fits(y * z)
    &&& T::fits(w * x) &&& T::fits(w * y) &&& T::fits(w * z)
    &&& T::fits(y * y + z * z) &&& T::fits(x * x + z * z) &&& T::fits(x * x + y * y)
    &&& T::fits(x * y - w * z) &&& T::fits(x * y + w * z)
    &&& T::fits(x * z + w * y) &&& T::fits(x * z - w * y)
    &&& T::fits(y * z - w * x) &&& T::fits(y * z + w * x)
    &&& T::fits(2 * (y * y + z * z)) &&& T::fits(2 * (x * x + z * z)) &&& T::fits(2 * (x * x + y * y))
    &&& T::fits(2 * (x * y - w * z)) &&& T::fits(2 * (x * y + w * z))
    &&& T::fits(2 * (x * z + w * y)) &&& T::fits(2 * (x * z - w * y))
    &&& T::fits(2 * (y * z - w * x)) &&& T::fits(2 * (y * z + w * x))
    &&& T::fits(1 - 2 * (y * y + z * z))
    &&& T::fits(1 - 2 * (x * x + z * z))
    &&& T::fits(1 - 2 * (x * x + y * y))
}

/// Whether `m · v` can be computed in `T` without leaving its range.
pub open spec fn m4_apply_fits<T: Scalar>(m: M4, v: V4) -> bool {
    &&& dot4_fits::<T>(m4_row(m, 0), v)
    &&& dot4_fits::<T>(m4_row(m, 1), v)
    &&& dot4_fits::<T>(m4_row(m, 2), v)
    &&& dot4_fits::<T>(m4_row(m, 3), v)
}

/// Whether `a · b` can be computed in `T` without leaving its range.
pub open spec fn m4_mul_fits<T: Scalar>(a: M4, b: M4) -> bool {
    &&& m4_apply_fits::<T>(a, b.0)
    &&& m4_apply_fits::<T>(a, b.1)
    &&& m4_apply_fits::<T>(a, b.2)
    &&& m4_apply_fits::<T>(a, b.3)
}

/// Building a matrix from sixteen entries given row by row and then reading
/// it back, by rows or by columns, reproduces those entries.
pub proof fn lemma_layout_round_trip<T: Copy>(r0: Vec4<T>, r1: Vec4<T>, r2: Vec4<T>, r3: Vec4<T>)
    ensures
        Mat4::from_rows_spec(r0, r1, r2, r3).row_at(0) == r0,
        Mat4::from_rows_spec(r0, r1, r2, r3).row_at(1) == r1,
        Mat4::from_rows_spec(r0, r1, r2, r3).row_at(2) == r2,
        Mat4::from_rows_spec(r0, r1, r2, r3).row_at(3) == r3,
        forall|r: int, c: int|
            0 <= r < 4 && 0 <= c < 4 ==> #[trigger] Mat4::from_rows_spec(r0, r1, r2, r3).col_at(
                c,
            ).at(r) == (if r == 0 {
                r0
            } else if r == 1 {
                r1
            } else if r == 2 {
                r2
            } else {
                r3
            }).at(c),
{
}

/// Gathering the rows of any matrix and rebuilding from them gives the
/// matrix back, and transposing twice is the identity.
pub proof fn lemma_rows_rebuild<T: Copy>(m: Mat4<T>)
    ensures
        Mat4::from_rows_spec(m.row_at(0), m.row_at(1), m.row_at(2), m.row_at(3)) == m,
        m.transpose_spec().transpose_spec() == m,
{
}

/// The identity is neutral for the product on both sides.
pub proof fn lemma_identity_neutral<T: Scalar>(m: Mat4<T>)
    ensures
        m4_mul(m@, m4_identity()) == m@,
        m4_mul(m4_identity(), m@) == m@,
{
}

/// One entry of the associativity law: `(a · B) · v == a · (B · v)`, with
/// `a` a row and `v` a column.
proof fn lemma_row_product_assoc(a: V4, b: M4, v: V4)
    ensures
        dot4((dot4(a, b.0), dot4(a, b.1), dot4(a, b.2), dot4(a, b.3)), v) == dot4(a, m4_apply(b, v)),
{
    let (p0, p1, p2, p3) = b;
    lemma_distribute_right4(a.0 * p0.0, a.1 * p0.1, a.2 * p0.2, a.3 * p0.3, v.0);
    lemma_distribute_right4(a.0 * p1.0, a.1 * p1.1, a.2 * p1.2, a.3 * p1.3, v.1);
    lemma_distribute_right4(a.0 * p2.0, a.1 * p2.1, a.2 * p2.2, a.3 * p2.3, v.2);
    lemma_distribute_right4(a.0 * p3.0, a.1 * p3.1, a.2 * p3.2, a.3 * p3.3, v.3);
    lemma_distribute_left4(a.0, p0.0 * v.0, p1.0 * v.1, p2.0 * v.2, p3.0 * v.3);
    lemma_distribute_left4(a.1, p0.1 * v.0, p1.1 * v.1, p2.1 * v.2, p3.1 * v.3);
    lemma_distribute_left4(a.2, p0.2 * v.0, p1.2 * v.1, p2.2 * v.2, p3.2 * v.3);
    lemma_distribute_left4(a.3, p0.3 * v.0, p1.3 * v.1, p2.3 * v.2, p3.3 * v.3);
    lemma_assoc(a.0, p0.0, v.0);
    lemma_assoc(a.0, p1.0, v.1);
    lemma_assoc(a.0, p2.0, v.2);
    lemma_assoc(a.0, p3.0, v.3);
    lemma_assoc(a.1, p0.1, v.0);
    lemma_assoc(a.1, p1.1, v.1);
    lemma_assoc(a.1, p2.1, v.2);
    lemma_assoc(a.1, p3.1, v.3);
    lemma_assoc(a.2, p0.2, v.0);
    lemma_assoc(a.2, p1.2, v.1);
    lemma_assoc(a.2, p2.2, v.2);
    lemma_assoc(a.2, p3.2, v.3);
    lemma_assoc(a.3, p0.3, v.0);
    lemma_assoc(a.3, p1.3, v.1);
    lemma_assoc(a.3, p2.3, v.2);
    lemma_assoc(a.3, p3.3, v.3);
}

/// Applying a product is applying its factors in turn: `(A · B) · v == A · (B · v)`.
pub proof fn lemma_apply_product(a: M4, b: M4, v: V4)
    ensures
        m4_apply(m4_mul(a, b), v) == m4_apply(a, m4_apply(b, v)),
{
    lemma_row_product_assoc(m4_row(a, 0), b, v);
    lemma_row_product_assoc(m4_row(a, 1), b, v);
    lemma_row_product_assoc(m4_row(a, 2), b, v);
    lemma_row_product_assoc(m4_row(a, 3), b, v);
}

/// The product of matrices is associative: `(A · B) · C == A · (B · C)`.
pub proof fn lemma_mul_associative<T: Scalar>(a: Mat4<T>, b: Mat4<T>, c: Mat4<T>)
    ensures
        m4_mul(m4_mul(a@, b@), c@) == m4_mul(a@, m4_mul(b@, c@)),
{
    lemma_apply_product(a@, b@, c@.0);
    lemma_apply_product(a@, b@, c@.1);
    lemma_apply_product(a@, b@, c@.2);
    lemma_apply_product(a@, b@, c@.3);
}

/// For a unit quaternion, its rotation matrix and the quaternion rotation
/// agree: `quat_matrix(q) · (v, 0) == (qrotate(q, v), 0)`.
pub proof fn lemma_quat_matrix_rotates<T: Scalar>(q: Quat<T>, v: Vec3<T>)
    requires
        qnorm(q@) == 1,
    ensures
        m4_apply(quat_matrix(q@), qpure(v@)) == qpure(qrotate(q@, v@)),
{
    let (a, b, c) = v@;
    lemma_unit_cases(q@);
    if q@ == (1int, 0int, 0int, 0int) || q@ == (-1int, 0int, 0int, 0int) {
        assert(qrotate((1int, 0int, 0int, 0int), (a, b, c)) == (a, -b, -c)) by (nonlinear_arith);
        assert(qrotate((-1int, 0int, 0int, 0int), (a, b, c)) == (a, -b, -c)) by (nonlinear_arith);
        assert(m4_apply(quat_matrix((1int, 0int, 0int, 0int)), (a, b, c, 0int)) == (a, -b, -c, 0int))
            by (nonlinear_arith);
        assert(m4_apply(quat_matrix((-1int, 0int, 0int, 0int)), (a, b, c, 0int)) == (a, -b, -c, 0int))
            by (nonlinear_arith);
    } else if q@ == (0int, 1int, 0int, 0int) || q@ == (0int, -1int, 0int, 0int) {
        assert(qrotate((0int, 1int, 0int, 0int), (a, b, c)) == (-a, b, -c)) by (nonlinear_arith);
        assert(qrotate((0int, -1int, 0int, 0int), (a, b, c)) == (-a, b, -c)) by (nonlinear_arith);
        assert(m4_apply(quat_matrix((0int, 1int, 0int, 0int)), (a, b, c, 0int)) == (-a, b, -c, 0int))
            by (nonlinear_arith);
        assert(m4_apply(quat_matrix((0int, -1int, 0int, 0int)), (a, b, c, 0int)) == (-a, b, -c, 0int))
            by (nonlinear_arith);
    } else if q@ == (0int, 0int, 1int, 0int) || q@ == (0int, 0int, -1int, 0int) {
        assert(qrotate((0int, 0int, 1int, 0int), (a, b, c)) == (-a, -b, c)) by (nonlinear_arith);
        assert(qrotate((0int, 0int, -1int, 0int), (a, b, c)) == (-a, -b, c)) by (nonlinear_arith);
        assert(m4_apply(quat_matrix((0int, 0int, 1int, 0int)), (a, b, c, 0int)) == (-a, -b, c, 0int))
            by (nonlinear_arith);
        assert(m4_apply(quat_matrix((0int, 0int, -1int, 0int)), (a, b, c, 0int)) == (-a, -b, c, 0int))
            by (nonlinear_arith);
    } else {
        assert(qrotate((0int, 0int, 0int, 1int), (a, b, c)) == (a, b, c)) by (nonlinear_arith);
        assert(qrotate((0int, 0int, 0int, -1int), (a, b, c)) == (a, b, c)) by (nonlinear_arith);
        assert(m4_apply(quat_matrix((0int, 0int, 0int, 1int)), (a, b, c, 0int)) == (a, b, c, 0int))
            by (nonlinear_arith);
        assert(m4_apply(quat_matrix((0int, 0int, 0int, -1int)), (a, b, c, 0int)) == (a, b, c, 0int))
            by (nonlinear_arith);
    }
}

/// A 3×3 matrix for linear transforms, stored column by column.
#[derive(Debug, Clone, Copy, PartialEq, Eq)]
pub struct Mat3<T> {
    pub c0: Vec3<T>,
    pub c1: Vec3<T>,
    pub c2: Vec3<T>,
}

/// A 4×4 matrix for homogeneous transforms, stored column by column.
#[derive(Debug, Clone, Copy, PartialEq, Eq)]
pub struct Mat4<T> {
    pub c0: Vec4<T>,
    pub c1: Vec4<T>,
    pub c2: Vec4<T>,
    pub c3: Vec4<T>,
}

impl<T: Scalar> View for Mat4<T> {
    type V = M4;

    open spec fn view(&self) -> M4 {
        (self.c0@, self.c1@, self.c2@, self.c3@)
    }
}

impl<T: Copy> Mat3<T> {
    /// Builds a matrix from its nine entries given row by row.
    pub fn from_data(
        n00: T, n01: T, n02: T,
        n10: T, n11: T, n12: T,
        n20: T, n21: T, n22: T,
    ) -> (r: Self)
        ensures
            r.c0 == (Vec3 { x: n00, y: n10, z: n20 }),
            r.c1 == (Vec3 { x: n01, y: n11, z: n21 }),
            r.c2 == (Vec3 { x: n02, y: n12, z: n22 }),
    {
        Mat3 {
            c0: Vec3::new(n00, n10, n20),
            c1: Vec3::new(n01, n11, n21),
            c2: Vec3::new(n02, n12, n22),
        }
    }
}

impl<T: Copy> Mat4<T> {
    /// Column `c`.
    pub open spec fn col_at(self, c: int) -> Vec4<T> {
        if c == 0 {
            self.c0
        } else if c == 1 {
            self.c1
        } else if c == 2 {
            self.c2
        } else {
            self.c3
        }
    }

    /// Row `r`: component `r` of every column.
    pub open spec fn row_at(self, r: int) -> Vec4<T> {
        Vec4 { x: self.c0.at(r), y: self.c1.at(r), z: self.c2.at(r), w: self.c3.at(r) }
    }

    /// The entry in row `r` and column `c`.
    pub open spec fn entry(self, r: int, c: int) -> T {
        self.col_at(c).at(r)
    }

    pub open spec fn transpose_spec(self) -> Self {
        Mat4 { c0: self.row_at(0), c1: self.row_at(1), c2: self.row_at(2), c3: self.row_at(3) }
    }

    /// The matrix whose rows are `r0` to `r3`.
    pub open spec fn from_rows_spec(r0: Vec4<T>, r1: Vec4<T>, r2: Vec4<T>, r3: Vec4<T>) -> Self {
        Mat4 {
            c0: Vec4 { x: r0.x, y: r1.x, z: r2.x, w: r3.x },
            c1: Vec4 { x: r0.y, y: r1.y, z: r2.y, w: r3.y },
            c2: Vec4 { x: r0.z, y: r1.z, z: r2.z, w: r3.z },
            c3: Vec4 { x: r0.w, y: r1.w, z: r2.w, w: r3.w },
        }
    }

    /// Builds a matrix from its sixteen entries given row by row: `nRC` is
    /// the entry in row `R` and column `C`.
    pub fn from_data(
        n00: T, n01: T, n02: T, n03: T,
        n10: T, n11: T, n12: T, n13: T,
        n20: T, n21: T, n22: T, n23: T,
        n30: T, n31: T, n32: T, n33: T,
    ) -> (r: Self)
        ensures
            r == Self::from_rows_spec(
                Vec4 { x: n00, y: n01, z: n02, w: n03 },
                Vec4 { x: n10, y: n11, z: n12, w: n13 },
                Vec4 { x: n20, y: n21, z: n22, w: n23 },
                Vec4 { x: n30, y: n31, z: n32, w: n33 },
            ),
    {
        Mat4 {
            c0: Vec4::new(n00, n10, n20, n30),
            c1: Vec4::new(n01, n11, n21, n31),
            c2: Vec4::new(n02, n12, n22, n32),
            c3: Vec4::new(n03, n13, n23, n33),
        }
    }

    /// Builds a matrix from its sixteen entries given row by row.
    pub fn from_rows_array(d: &[T; 16]) -> (r: Self)
        ensures
            r == Self::from_rows_spec(
                Vec4 { x: d@[0], y: d@[1], z: d@[2], w: d@[3] },
                Vec4 { x: d@[4], y: d@[5], z: d@[6], w: d@[7] },
                Vec4 { x: d@[8], y: d@[9], z: d@[10], w: d@[11] },
                Vec4 { x: d@[12], y: d@[13], z: d@[14], w: d@[15] },
            ),
    {
        Self::from_data(
            d[0], d[1], d[2], d[3],
            d[4], d[5], d[6], d[7],
            d[8], d[9], d[10], d[11],
            d[12], d[13], d[14], d[15],
        )
    }

    /// The matrix whose column `c` is `data[c]`.
    pub open spec fn from_cols_spec(data: [[T; 4]; 4]) -> Self {
        Mat4 {
            c0: Vec4 { x: data@[0]@[0], y: data@[0]@[1], z: data@[0]@[2], w: data@[0]@[3] },
            c1: Vec4 { x: data@[1]@[0], y: data@[1]@[1], z: data@[1]@[2], w: data@[1]@[3] },
            c2: Vec4 { x: data@[2]@[0], y: data@[2]@[1], z: data@[2]@[2], w: data@[2]@[3] },
            c3: Vec4 { x: data@[3]@[0], y: data@[3]@[1], z: data@[3]@[2], w: data@[3]@[3] },
        }
    }

    /// The columns of the matrix, each as an array.
    pub open spec fn to_cols_spec(self) -> [[T; 4]; 4] {
        [
            [self.c0.x, self.c0.y, self.c0.z, self.c0.w],
            [self.c1.x, self.c1.y, self.c1.z, self.c1.w],
            [self.c2.x, self.c2.y, self.c2.z, self.c2.w],
            [self.c3.x, self.c3.y, self.c3.z, self.c3.w],
        ]
    }

    /// Builds a matrix from its columns, each given as an array.
    pub fn from_cols_array(data: [[T; 4]; 4]) -> (r: Self)
        ensures
            r == Self::from_cols_spec(data),
    {
        Mat4 {
            c0: Vec4::from_array(data[0]),
            c1: Vec4::from_array(data[1]),
            c2: Vec4::from_array(data[2]),
            c3: Vec4::from_array(data[3]),
        }
    }

    /// The columns of the matrix, each as an array.
    pub fn to_cols_array(self) -> (r: [[T; 4]; 4])
        ensures
            r == self.to_cols_spec(),
    {
        [self.c0.to_array(), self.c1.to_array(), self.c2.to_array(), self.c3.to_array()]
    }

    /// Row `idx`, gathered from the columns.
    pub fn row(&self, idx: usize) -> (r: Vec4<T>)
        requires
            idx < 4,
        ensures
            r == self.row_at(idx as int),
    {
        Vec4::new(self.c0.idx(idx), self.c1.idx(idx), self.c2.idx(idx), self.c3.idx(idx))
    }

    /// Column `idx`, as stored.
    pub fn col(&self, idx: usize) -> (r: Vec4<T>)
        requires
            idx < 4,
        ensures
            r == self.col_at(idx as int),
    {
        if idx == 0 {
            self.c0
        } else if idx == 1 {
            self.c1
        } else if idx == 2 {
            self.c2
        } else {
            self.c3
        }
    }

    pub fn transposed(self) -> (r: Self)
        ensures
            r == self.transpose_spec(),
    {
        Mat4 { c0: self.row(0), c1: self.row(1), c2: self.row(2), c3: self.row(3) }
    }
}

impl<T: Scalar> Mat4<T> {
    proof fn lemma_row_view(self, i: int)
        requires
            0 <= i < 4,
        ensures
            self.row_at(i)@ == m4_row(self@, i),
    {
    }

    pub fn identity() -> (r: Self)
        ensures
            r@ == m4_identity(),
    {
        let o = T::zero();
        let l = T::one();
        Self::from_data(
            l, o, o, o,
            o, l, o, o,
            o, o, l, o,
            o, o, o, l,
        )
    }

    /// Scales x, y and z by the components of `v`.
    pub fn scale(v: Vec3<T>) -> (r: Self)
        ensures
            r@ == ((v@.0, 0int, 0int, 0int), (0int, v@.1, 0int, 0int), (0int, 0int, v@.2, 0int), (
                0int,
                0int,
                0int,
                1int,
            )),
    {
        let o = T::zero();
        let l = T::one();
        Self::from_data(
            v.x, o, o, o,
            o, v.y, o, o,
            o, o, v.z, o,
            o, o, o, l,
        )
    }

    /// Moves points by `v`: the identity with `v` in the first three rows of
    /// the last column.
    pub fn translate(v: Vec3<T>) -> (r: Self)
        ensures
            r@ == ((1int, 0int, 0int, 0int), (0int, 1int, 0int, 0int), (0int, 0int, 1int, 0int), (
                v@.0,
                v@.1,
                v@.2,
                1int,
            )),
    {
        let o = T::zero();
        let l = T::one();
        Self::from_data(
            l, o, o, v.x,
            o, l, o, v.y,
            o, o, l, v.z,
            o, o, o, l,
        )
    }

    /// The rotation matrix of `quat`, taken to be of unit length, by the
    /// formula [`quat_matrix`].
    pub fn rotation_from_quat(quat: Quat<T>) -> (r: Self)
        requires
            quat_matrix_fits::<T>(quat@),
        ensures
            r@ == quat_matrix(quat@),
    {
        let (x, y, z, w) = (quat.x, quat.y, quat.z, quat.w);
        let o = T::zero();
        let l = T::one();
        let two = l.plus(l);
        let x2 = x.times(x);
        let y2 = y.times(y);
        let z2 = z.times(z);
        let xy = x.times(y);
        let xz = x.times(z);
        let yz = y.times(z);
        let wx = w.times(x);
        let wy = w.times(y);
        let wz = w.times(z);
        Self::from_data(
            l.minus(two.times(y2.plus(z2))), two.times(xy.minus(wz)), two.times(xz.plus(wy)), o,
            two.times(xy.plus(wz)), l.minus(two.times(x2.plus(z2))), two.times(yz.minus(wx)), o,
            two.times(xz.minus(wy)), two.times(yz.plus(wx)), l.minus(two.times(x2.plus(y2))), o,
            o, o, o, l,
        )
    }

    /// `self · v`, with `v` a column.
    pub fn mul_vec4(&self, v: &Vec4<T>) -> (r: Vec4<T>)
        requires
            m4_apply_fits::<T>(self@, v@),
        ensures
            r@ == m4_apply(self@, v@),
    {
        proof {
            self.lemma_row_view(0);
            self.lemma_row_view(1);
            self.lemma_row_view(2);
            self.lemma_row_view(3);
        }
        let r0 = self.row(0);
        let r1 = self.row(1);
        let r2 = self.row(2);
        let r3 = self.row(3);
        Vec4::new(r0.dot(v), r1.dot(v), r2.dot(v), r3.dot(v))
    }

    /// The product `self · rhs`: each entry is the dot product of a row of
    /// `self` with a column of `rhs`.
    pub fn mul(self, rhs: Self) -> (r: Self)
        requires
            m4_mul_fits::<T>(self@, rhs@),
        ensures
            r@ == m4_mul(self@, rhs@),
    {
        Mat4 {
            c0: self.mul_vec4(&rhs.c0),
            c1: self.mul_vec4(&rhs.c1),
            c2: self.mul_vec4(&rhs.c2),
            c3: self.mul_vec4(&rhs.c3),
        }
    }
}

impl<T: Copy> From<[[T; 4]; 4]> for Mat4<T> {
    fn from(data: [[T; 4]; 4]) -> (r: Self) {
        Mat4::from_cols_array(data)
    }
}

impl<T: Copy> vstd::std_specs::convert::FromSpecImpl<[[T; 4]; 4]> for Mat4<T> {
    open spec fn obeys_from_spec() -> bool {
        true
    }

    open spec fn from_spec(data: [[T; 4]; 4]) -> Self {
        Mat4::from_cols_spec(data)
    }
}

impl<T: Copy> From<Mat4<T>> for [[T; 4]; 4] {
    fn from(m: Mat4<T>) -> (r: Self) {
        m.to_cols_array()
    }
}

impl<T: Copy> vstd::std_specs::convert::FromSpecImpl<Mat4<T>> for [[T; 4]; 4] {
    open spec fn obeys_from_spec() -> bool {
        true
    }

    open spec fn from_spec(m: Mat4<T>) -> Self {
        m.to_cols_spec()
    }
}

impl<T: Scalar> Default for Mat3<T> {
    /// The zero matrix.
    fn default() -> (r: Self)
        ensures
            r.c0@ == (0int, 0int, 0int),
            r.c1@ == (0int, 0int, 0int),
            r.c2@ == (0int, 0int, 0int),
    {
        Mat3 { c0: Vec3::zero(), c1: Vec3::zero(), c2: Vec3::zero() }
    }
}

impl<T: Scalar> Default for Mat4<T> {
    /// The zero matrix.
    fn default() -> (r: Self)
        ensures
            r@ == ((0int, 0int, 0int, 0int), (0int, 0int, 0int, 0int), (0int, 0int, 0int, 0int), (
                0int,
                0int,
                0int,
                0int,
            )),
    {
        Mat4 { c0: Vec4::zero(), c1: Vec4::zero(), c2: Vec4::zero(), c3: Vec4::zero() }
    }
}

} // verus!
