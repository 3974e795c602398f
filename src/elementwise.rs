use vstd::prelude::*;

use crate::scalar::{trunc_div, Scalar};

verus! {

/// One of the four element-wise operations.
#[derive(Clone, Copy, Debug, PartialEq, Eq, Structural)]
pub enum ArithOp {
    Add,
    Sub,
    Mul,
    Div,
}

impl ArithOp {
    /// The operation on mathematical integers.
    pub open spec fn apply(self, x: int, y: int) -> int {
        match self {
            ArithOp::Add => x + y,
            ArithOp::Sub => x - y,
            ArithOp::Mul => x * y,
            ArithOp::Div => trunc_div(x, y),
        }
    }

    /// Whether the operation is defined on `x` and `y` in the type `T`: the
    /// result fits, and a divisor is not zero.
    pub open spec fn defined<T: Scalar>(self, x: int, y: int) -> bool {
        &&& self is Div ==> y != 0
        &&& T::fits(self.apply(x, y))
    }

    /// Applies the operation to two machine values.
    pub fn exec<T: Scalar>(self, x: T, y: T) -> (r: T)
        requires
            self.defined::<T>(x.val(), y.val()),
        ensures
            r.val() == self.apply(x.val(), y.val()),
    {
        match self {
            ArithOp::Add => x.plus(y),
            ArithOp::Sub => x.minus(y),
            ArithOp::Mul => x.times(y),
            ArithOp::Div => x.divided_by(y),
        }
    }
}

/// Whether `v` is `a op b` element by element: as long as `a`, and each
/// element stands for `a[i] op b[i]`.
pub open spec fn is_combination<T: Scalar>(op: ArithOp, a: Seq<T>, b: Seq<T>, v: Seq<T>) -> bool {
    &&& v.len() == a.len()
    &&& forall|i: int|
        0 <= i < a.len() ==> #[trigger] v[i].val() == op.apply(a[i].val(), b[i].val())
}

/// Whether `op` is defined on every pair of elements at a shared index.
pub open spec fn combine_defined<T: Scalar>(op: ArithOp, a: Seq<T>, b: Seq<T>) -> bool {
    forall|i: int|
        0 <= i < a.len() && i < b.len() ==> #[trigger] op.defined::<T>(a[i].val(), b[i].val())
}

/// The lengths of two operands of an element-wise operation differ.
#[derive(Clone, Copy, Debug, PartialEq, Eq, Structural)]
pub struct LengthMismatch {
    /// Length of the receiver.
    pub expected: usize,
    /// Length of the other operand.
    pub found: usize,
}

/// What an element-wise operation returns for `a op b`: the combined
/// sequence when the lengths agree, and a length mismatch otherwise.
pub open spec fn combine_result<T: Scalar>(
    op: ArithOp,
    a: Seq<T>,
    b: Seq<T>,
    r: Result<Seq<T>, LengthMismatch>,
) -> bool {
    if a.len() == b.len() {
        r matches Ok(v) && is_combination(op, a, b, v)
    } else {
        r == Err::<Seq<T>, LengthMismatch>(
            LengthMismatch { expected: a.len() as usize, found: b.len() as usize },
        )
    }
}

/// Applies `op` to `a` and `b` element by element.
pub fn combine<T: Scalar>(op: ArithOp, a: &Vec<T>, b: &Vec<T>) -> (r: Result<Vec<T>, LengthMismatch>)
    requires
        a@.len() == b@.len() ==> combine_defined(op, a@, b@),
    ensures
        combine_result(
            op,
            a@,
            b@,
            match r {
                Ok(v) => Ok(v@),
                Err(e) => Err(e),
            },
        ),
{
    if a.len() != b.len() {
        return Err(LengthMismatch { expected: a.len(), found: b.len() });
    }
    let mut out: Vec<T> = Vec::with_capacity(a.len());
    let mut i: usize = 0;
    while i < a.len()
        invariant
            a@.len() == b@.len(),
            i <= a@.len(),
            combine_defined(op, a@, b@),
            out@.len() == i,
            forall|j: int| 0 <= j < i ==> #[trigger] out@[j].val() == op.apply(a@[j].val(), b@[j].val()),
        decreases a@.len() - i,
    {
        let x = op.exec(a[i], b[i]);
        out.push(x);
        i = i + 1;
    }
    Ok(out)
}

/// Adding `b` to `a` and then subtracting `b` gives back `a`.
pub proof fn lemma_sum_sub_round_trip<T: Scalar>(a: Seq<T>, b: Seq<T>)
    requires
        a.len() == b.len(),
    ensures
        forall|s: Seq<T>, d: Seq<T>|
            is_combination(ArithOp::Add, a, b, s) && is_combination(ArithOp::Sub, s, b, d)
                ==> d == a,
{
    assert forall|s: Seq<T>, d: Seq<T>|
        is_combination(ArithOp::Add, a, b, s) && is_combination(ArithOp::Sub, s, b, d)
            implies d == a by {
        assert forall|i: int| 0 <= i < a.len() implies d[i] == a[i] by {
            assert(s[i].val() == a[i].val() + b[i].val());
            assert(d[i].val() == s[i].val() - b[i].val());
            T::lemma_val_injective(d[i], a[i]);
        }
        assert(d =~= a);
    }
}

/// On sequences of one element, each operation is the scalar operation.
pub proof fn lemma_single_element<T: Scalar>(op: ArithOp, x: T, y: T)
    ensures
        forall|v: Seq<T>|
            is_combination(op, seq![x], seq![y], v) <==> (v.len() == 1 && v[0].val() == op.apply(
                x.val(),
                y.val(),
            )),
{
    assert forall|v: Seq<T>|
        v.len() == 1 && v[0].val() == op.apply(x.val(), y.val()) implies is_combination(
        op,
        seq![x],
        seq![y],
        v,
    ) by {
        assert forall|i: int| 0 <= i < 1 implies #[trigger] v[i].val() == op.apply(
            seq![x][i].val(),
            seq![y][i].val(),
        ) by {
            assert(i == 0);
        }
    }
}

/// A numeric sequence with element-wise arithmetic against a `Vec` of the
/// same element type.
pub trait Interporable<T: Scalar>: Sized {
    /// The elements, in order.
    spec fn elems(&self) -> Seq<T>;

    /// `s` copies of `n`.
    fn from_single(n: T, s: usize) -> (r: Self)
        ensures
            r.elems() == Seq::new(s as nat, |_i: int| n),
    ;

    /// Element-wise sum.
    fn sum(&self, other: Vec<T>) -> (r: Result<Self, LengthMismatch>)
        requires
            self.elems().len() == other@.len() ==> combine_defined(
                ArithOp::Add,
                self.elems(),
                other@,
            ),
        ensures
            combine_result(
                ArithOp::Add,
                self.elems(),
                other@,
                match r {
                    Ok(v) => Ok(v.elems()),
                    Err(e) => Err(e),
                },
            ),
    ;

    /// Element-wise difference.
    fn sub(&self, other: Vec<T>) -> (r: Result<Self, LengthMismatch>)
        requires
            self.elems().len() == other@.len() ==> combine_defined(
                ArithOp::Sub,
                self.elems(),
                other@,
            ),
        ensures
            combine_result(
                ArithOp::Sub,
                self.elems(),
                other@,
                match r {
                    Ok(v) => Ok(v.elems()),
                    Err(e) => Err(e),
                },
            ),
    ;

    /// Element-wise product.
    fn mul(&self, other: Vec<T>) -> (r: Result<Self, LengthMismatch>)
        requires
            self.elems().len() == other@.len() ==> combine_defined(
                ArithOp::Mul,
                self.elems(),
                other@,
            ),
        ensures
            combine_result(
                ArithOp::Mul,
                self.elems(),
                other@,
                match r {
                    Ok(v) => Ok(v.elems()),
                    Err(e) => Err(e),
                },
            ),
    ;

    /// Element-wise quotient, rounded toward zero.
    fn div(&self, other: Vec<T>) -> (r: Result<Self, LengthMismatch>)
        requires
            self.elems().len() == other@.len() ==> combine_defined(
                ArithOp::Div,
                self.elems(),
                other@,
            ),
        ensures
            combine_result(
                ArithOp::Div,
                self.elems(),
                other@,
                match r {
                    Ok(v) => Ok(v.elems()),
                    Err(e) => Err(e),
                },
            ),
    ;
}

impl<T: Scalar> Interporable<T> for Vec<T> {
    open spec fn elems(&self) -> Seq<T> {
        self@
    }

    fn from_single(n: T, s: usize) -> (r: Self) {
        let mut out: Vec<T> = Vec::with_capacity(s);
        let mut i: usize = 0;
        while i < s
            invariant
                i <= s,
                out@ == Seq::new(i as nat, |_j: int| n),
            decreases s - i,
        {
            out.push(n);
            i = i + 1;
            assert(out@ =~= Seq::new(i as nat, |_j: int| n));
        }
        out
    }

    fn sum(&self, other: Vec<T>) -> (r: Result<Self, LengthMismatch>) {
        combine(ArithOp::Add, self, &other)
    }

    fn sub(&self, other: Vec<T>) -> (r: Result<Self, LengthMismatch>) {
        combine(ArithOp::Sub, self, &other)
    }

    fn mul(&self, other: Vec<T>) -> (r: Result<Self, LengthMismatch>) {
        combine(ArithOp::Mul, self, &other)
    }

    fn div(&self, other: Vec<T>) -> (r: Result<Self, LengthMismatch>) {
        combine(ArithOp::Div, self, &other)
    }
}

} // verus!
