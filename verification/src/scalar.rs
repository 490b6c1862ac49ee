//! The scalar types a coordinate may range over.

use vstd::prelude::*;

verus! {

/// A numeric scalar: a `Copy` value that can be added, subtracted and
/// multiplied, and that has a zero value. In specifications a scalar is
/// modelled by the mathematical integer `sval`; `in_range` bounds the
/// integers that the concrete type can hold, so each operation asks its
/// caller to keep the exact result representable.
pub trait Scalar: Sized + Copy {
    /// The mathematical value of this scalar.
    spec fn sval(self) -> int;

    /// Whether the mathematical integer `v` fits in this scalar type.
    spec fn in_range(v: int) -> bool;

    /// Every value the type holds is in range.
    proof fn lemma_sval_in_range(self)
        ensures
            Self::in_range(self.sval()),
    ;

    /// Addition, exact while the sum stays in range.
    fn add_val(self, other: Self) -> (r: Self)
        requires
            Self::in_range(self.sval() + other.sval()),
        ensures
            r.sval() == self.sval() + other.sval(),
    ;

    /// Subtraction, exact while the difference stays in range.
    fn sub_val(self, other: Self) -> (r: Self)
        requires
            Self::in_range(self.sval() - other.sval()),
        ensures
            r.sval() == self.sval() - other.sval(),
    ;

    /// Multiplication, exact while the product stays in range.
    fn mul_val(self, other: Self) -> (r: Self)
        requires
            Self::in_range(self.sval() * other.sval()),
        ensures
            r.sval() == self.sval() * other.sval(),
    ;

    /// The additive identity, the type's default value.
    fn zero() -> (r: Self)
        ensures
            r.sval() == 0,
    ;
}

impl Scalar for i32 {
    open spec fn sval(self) -> int {
        self as int
    }

    open spec fn in_range(v: int) -> bool {
        i32::MIN <= v <= i32::MAX
    }

    proof fn lemma_sval_in_range(self) {
    }

    fn add_val(self, other: i32) -> (r: i32) {
        self + other
    }

    fn sub_val(self, other: i32) -> (r: i32) {
        self - other
    }

    fn mul_val(self, other: i32) -> (r: i32) {
        self * other
    }

    fn zero() -> (r: i32) {
        0
    }
}

impl Scalar for u32 {
    open spec fn sval(self) -> int {
        self as int
    }

    open spec fn in_range(v: int) -> bool {
        0 <= v <= u32::MAX
    }

    proof fn lemma_sval_in_range(self) {
    }

    fn add_val(self, other: u32) -> (r: u32) {
        self + other
    }

    fn sub_val(self, other: u32) -> (r: u32) {
        self - other
    }

    fn mul_val(self, other: u32) -> (r: u32) {
        self * other
    }

    fn zero() -> (r: u32) {
        0
    }
}

} // verus!
