use vstd::prelude::*;

verus! {

/// Quotient of `a` by `b`, rounded toward zero, as machine division does.
///
/// Spec-level `/` is Euclidean division, which rounds toward zero whenever the
/// dividend is not negative; a negative dividend is handled through its
/// negation.
pub open spec fn trunc_div(a: int, b: int) -> int {
    if a >= 0 {
        a / b
    } else {
        -((-a) / b)
    }
}

/// A machine number with addition, subtraction, multiplication and division.
///
/// `val` is the mathematical integer a value stands for, and `fits` tells
/// which integers the type can hold. Each operation is exact whenever its
/// mathematical result fits.
pub trait Scalar: Copy + Sized {
    spec fn val(&self) -> int;

    spec fn fits(v: int) -> bool;

    /// Two values that stand for the same integer are the same value.
    proof fn lemma_val_injective(a: Self, b: Self)
        ensures
            a.val() == b.val() ==> a == b,
    ;

    fn plus(self, o: Self) -> (r: Self)
        requires
            Self::fits(self.val() + o.val()),
        ensures
            r.val() == self.val() + o.val(),
    ;

    fn minus(self, o: Self) -> (r: Self)
        requires
            Self::fits(self.val() - o.val()),
        ensures
            r.val() == self.val() - o.val(),
    ;

    fn times(self, o: Self) -> (r: Self)
        requires
            Self::fits(self.val() * o.val()),
        ensures
            r.val() == self.val() * o.val(),
    ;

    fn divided_by(self, o: Self) -> (r: Self)
        requires
            o.val() != 0,
            Self::fits(trunc_div(self.val(), o.val())),
        ensures
            r.val() == trunc_div(self.val(), o.val()),
    ;
}

impl Scalar for u64 {
    open spec fn val(&self) -> int {
        *self as int
    }

    open spec fn fits(v: int) -> bool {
        0 <= v <= u64::MAX
    }

    proof fn lemma_val_injective(a: Self, b: Self) {
    }

    fn plus(self, o: Self) -> (r: Self) {
        self + o
    }

    fn minus(self, o: Self) -> (r: Self) {
        self - o
    }

    fn times(self, o: Self) -> (r: Self) {
        self * o
    }

    fn divided_by(self, o: Self) -> (r: Self) {
        self / o
    }
}

impl Scalar for i64 {
    open spec fn val(&self) -> int {
        *self as int
    }

    open spec fn fits(v: int) -> bool {
        i64::MIN <= v <= i64::MAX
    }

    proof fn lemma_val_injective(a: Self, b: Self) {
    }

    fn plus(self, o: Self) -> (r: Self) {
        self + o
    }

    fn minus(self, o: Self) -> (r: Self) {
        self - o
    }

    fn times(self, o: Self) -> (r: Self) {
        self * o
    }

    fn divided_by(self, o: Self) -> (r: Self) {
        proof {
            if self == i64::MIN && o == -1 {
                assert((-(self as int)) / (o as int) == -0x8000_0000_0000_0000int) by (nonlinear_arith)
                    requires
                        self == i64::MIN,
                        o == -1,
                ;
            }
        }
        self / o
    }
}

impl Scalar for u32 {
    open spec fn val(&self) -> int {
        *self as int
    }

    open spec fn fits(v: int) -> bool {
        0 <= v <= u32::MAX
    }

    proof fn lemma_val_injective(a: Self, b: Self) {
    }

    fn plus(self, o: Self) -> (r: Self) {
        self + o
    }

    fn minus(self, o: Self) -> (r: Self) {
        self - o
    }

    fn times(self, o: Self) -> (r: Self) {
        self * o
    }

    fn divided_by(self, o: Self) -> (r: Self) {
        self / o
    }
}

impl Scalar for i32 {
    open spec fn val(&self) -> int {
        *self as int
    }

    open spec fn fits(v: int) -> bool {
        i32::MIN <= v <= i32::MAX
    }

    proof fn lemma_val_injective(a: Self, b: Self) {
    }

    fn plus(self, o: Self) -> (r: Self) {
        self + o
    }

    fn minus(self, o: Self) -> (r: Self) {
        self - o
    }

    fn times(self, o: Self) -> (r: Self) {
        self * o
    }

    fn divided_by(self, o: Self) -> (r: Self) {
        proof {
            if self == i32::MIN && o == -1 {
                assert((-(self as int)) / (o as int) == -0x8000_0000int) by (nonlinear_arith)
                    requires
                        self == i32::MIN,
                        o == -1,
                ;
            }
        }
        self / o
    }
}

} // verus!
