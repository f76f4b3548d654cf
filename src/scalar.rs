//! The numeric element abstraction shared by every geometric type.
//!
//! A `Scalar` is a copyable number with an exact integer value; the
//! arithmetic it offers is checked against that value, and each operation
//! asks that its exact result be representable.
use vstd::prelude::*;

verus! {

pub trait Scalar: Copy + Sized {
    /// The exact mathematical value.
    spec fn val(self) -> int;

    /// Whether `v` is representable by this type.
    spec fn fits(v: int) -> bool;

    /// The element whose value is `v`, where `v` fits.
    spec fn of_int(v: int) -> Self;

    proof fn lemma_val_fits(x: Self)
        ensures
            Self::fits(x.val()),
    ;

    proof fn lemma_of_int(v: int)
        requires
            Self::fits(v),
        ensures
            Self::of_int(v).val() == v,
    ;

    proof fn lemma_val_injective(x: Self, y: Self)
        ensures
            x.val() == y.val() ==> x == y,
    ;

    fn zero() -> (r: Self)
        ensures
            r.val() == 0,
    ;

    fn one() -> (r: Self)
        ensures
            r.val() == 1,
    ;

    fn equals(&self, o: &Self) -> (r: bool)
        ensures
            r == (self.val() == o.val()),
    ;

    fn plus(self, o: Self) -> (r: Self)
        requires
            Self::fits(self.val() + o.val()),
        ensures
            r.val() == self.val() + o.val(),
    ;

    fn minus(self, o: Self) -> (r: Self)
        requires
            Self::fits(self.val() - o.val()),
        ensures
            r.val() == self.val() - o.val(),
    ;

    fn times(self, o: Self) -> (r: Self)
        requires
            Self::fits(self.val() * o.val()),
        ensures
            r.val() == self.val() * o.val(),
    ;
}

/// An element is the element of its own value.
pub proof fn lemma_of_val<T: Scalar>(x: T)
    ensures
        T::of_int(x.val()) == x,
{
    T::lemma_val_fits(x);
    T::lemma_of_int(x.val());
    T::lemma_val_injective(T::of_int(x.val()), x);
}


impl Scalar for i32 {
    open spec fn val(self) -> int {
        self as int
    }

    open spec fn fits(v: int) -> bool {
        i32::MIN <= v <= i32::MAX
    }

    open spec fn of_int(v: int) -> i32 {
        v as i32
    }

    proof fn lemma_val_fits(x: i32) {
    }

    proof fn lemma_of_int(v: int) {
    }

    proof fn lemma_val_injective(x: i32, y: i32) {
    }

    fn zero() -> (r: i32) {
        0
    }

    fn one() -> (r: i32) {
        1
    }

    fn equals(&self, o: &i32) -> (r: bool) {
        *self == *o
    }

    fn plus(self, o: i32) -> (r: i32) {
        self + o
    }

    fn minus(self, o: i32) -> (r: i32) {
        self - o
    }

    fn times(self, o: i32) -> (r: i32) {
        self * o
    }
}

impl Scalar for i64 {
    open spec fn val(self) -> int {
        self as int
    }

    open spec fn fits(v: int) -> bool {
        i64::MIN <= v <= i64::MAX
    }

    open spec fn of_int(v: int) -> i64 {
        v as i64
    }

    proof fn lemma_val_fits(x: i64) {
    }

    proof fn lemma_of_int(v: int) {
    }

    proof fn lemma_val_injective(x: i64, y: i64) {
    }

    fn zero() -> (r: i64) {
        0
    }

    fn one() -> (r: i64) {
        1
    }

    fn equals(&self, o: &i64) -> (r: bool) {
        *self == *o
    }

    fn plus(self, o: i64) -> (r: i64) {
        self + o
    }

    fn minus(self, o: i64) -> (r: i64) {
        self - o
    }

    fn times(self, o: i64) -> (r: i64) {
        self * o
    }
}

impl Scalar for u32 {
    open spec fn val(self) -> int {
        self as int
    }

    open spec fn fits(v: int) -> bool {
        u32::MIN <= v <= u32::MAX
    }

    open spec fn of_int(v: int) -> u32 {
        v as u32
    }

    proof fn lemma_val_fits(x: u32) {
    }

    proof fn lemma_of_int(v: int) {
    }

    proof fn lemma_val_injective(x: u32, y: u32) {
    }

    fn zero() -> (r: u32) {
        0
    }

    fn one() -> (r: u32) {
        1
    }

    fn equals(&self, o: &u32) -> (r: bool) {
        *self == *o
    }

    fn plus(self, o: u32) -> (r: u32) {
        self + o
    }

    fn minus(self, o: u32) -> (r: u32) {
        self - o
    }

    fn times(self, o: u32) -> (r: u32) {
        self * o
    }
}

impl Scalar for u64 {
    open spec fn val(self) -> int {
        self as int
    }

    open spec fn fits(v: int) -> bool {
        u64::MIN <= v <= u64::MAX
    }

    open spec fn of_int(v: int) -> u64 {
        v as u64
    }

    proof fn lemma_val_fits(x: u64) {
    }

    proof fn lemma_of_int(v: int) {
    }

    proof fn lemma_val_injective(x: u64, y: u64) {
    }

    fn zero() -> (r: u64) {
        0
    }

    fn one() -> (r: u64) {
        1
    }

    fn equals(&self, o: &u64) -> (r: bool) {
        *self == *o
    }

    fn plus(self, o: u64) -> (r: u64) {
        self + o
    }

    fn minus(self, o: u64) -> (r: u64) {
        self - o
    }

    fn times(self, o: u64) -> (r: u64) {
        self * o
    }
}

} // verus!
