//! Linear interpolation and element-wise arithmetic on numeric sequences.
//!
//! Every value of a numeric type is modelled by the mathematical integer it
//! stands for (`Scalar::val`); contracts are stated over that model, and each
//! operation asks that its mathematical result fits the machine type.
use vstd::prelude::*;

pub mod elementwise;
pub mod scalar;

pub use scalar::{trunc_div, Scalar};

verus! {

/// The point at parameter `t` on the line through `a` (at 0) and `b` (at 1).
pub open spec fn lerp_value(a: int, b: int, t: int) -> int {
    a + (b - a) * t
}

/// Whether every intermediate result of interpolating from `a` to `b` at `t`
/// fits the type `T`.
pub open spec fn lerp_fits<T: Scalar>(a: int, b: int, t: int) -> bool {
    &&& T::fits(b - a)
    &&& T::fits((b - a) * t)
    &&& T::fits(lerp_value(a, b, t))
}

/// Interpolates the triple `(a, b, t)`: returns `a + (b - a) * t`.
///
/// `t` is not restricted to `[0, 1]`; values outside extrapolate.
pub fn lerp<T: Scalar>(n: [T; 3]) -> (r: T)
    requires
        lerp_fits::<T>(n@[0].val(), n@[1].val(), n@[2].val()),
    ensures
        r.val() == lerp_value(n@[0].val(), n@[1].val(), n@[2].val()),
{
    let a = n[0];
    let b = n[1];
    let t = n[2];
    a.plus(b.minus(a).times(t))
}

/// Interpolating at 0 gives the start, and at 1 gives the end: the value
/// there is that of `a` (of `b`), and so is every value of `T` standing for it.
pub proof fn lemma_lerp_endpoints<T: Scalar>(a: T, b: T)
    ensures
        lerp_value(a.val(), b.val(), 0) == a.val(),
        lerp_value(a.val(), b.val(), 1) == b.val(),
        forall|r: T| r.val() == lerp_value(a.val(), b.val(), 0) ==> r == a,
        forall|r: T| r.val() == lerp_value(a.val(), b.val(), 1) ==> r == b,
{
    assert forall|r: T| r.val() == lerp_value(a.val(), b.val(), 0) implies r == a by {
        T::lemma_val_injective(r, a);
    }
    assert forall|r: T| r.val() == lerp_value(a.val(), b.val(), 1) implies r == b by {
        T::lemma_val_injective(r, b);
    }
}

} // verus!
