//! The arithmetic unit that the host lends.
//!
//! Rounded binary32 arithmetic is done by the host. It hands the library a
//! function from an operation and two operands to the result, and the
//! library decides which operations are carried out, on what, in which order.
//! Contracts speak of the unit through [`yields`].

use vstd::prelude::*;
use crate::scalar::Scalar;

verus! {

/// One of the four basic operations of binary32 arithmetic.
#[derive(Clone, Copy, Debug, PartialEq, Eq, Hash, Structural)]
pub enum Operation {
    Add,
    Sub,
    Mul,
    Div,
}

/// A pair of scalars: a point or an offset in the plane, or a factor for
/// each axis.
#[derive(Clone, Copy, Debug, PartialEq, Eq, Hash, Structural)]
pub struct Vector2 {
    pub x: Scalar,
    pub y: Scalar,
}

impl Vector2 {
    /// The same number on each axis.
    pub open spec fn spec_same_number(self, other: Vector2) -> bool {
        self.x.spec_same_number(other.x) && self.y.spec_same_number(other.y)
    }

    /// Each axis negated.
    pub open spec fn spec_negated(self) -> Vector2 {
        Vector2 { x: self.x.spec_negated(), y: self.y.spec_negated() }
    }

    /// A NaN on either axis.
    pub open spec fn spec_is_nan(self) -> bool {
        self.x.spec_is_nan() || self.y.spec_is_nan()
    }

    /// The vector with the given scalars on its axes.
    pub fn new(x: Scalar, y: Scalar) -> (v: Vector2)
        ensures
            v == (Vector2 { x, y }),
    {
        Vector2 { x, y }
    }

    /// Whether the two are the same number on each axis.
    #[verifier::when_used_as_spec(spec_same_number)]
    pub fn same_number(self, other: Vector2) -> (r: bool)
        ensures
            r == self.spec_same_number(other),
    {
        self.x.same_number(other.x) && self.y.same_number(other.y)
    }

    /// The vector that points the other way: each axis negated.
    #[verifier::when_used_as_spec(spec_negated)]
    pub fn negated(self) -> (r: Vector2)
        ensures
            r == self.spec_negated(),
    {
        Vector2 { x: self.x.negated(), y: self.y.negated() }
    }

    /// Whether either axis holds a NaN.
    #[verifier::when_used_as_spec(spec_is_nan)]
    pub fn is_nan(self) -> (r: bool)
        ensures
            r == self.spec_is_nan(),
    {
        self.x.is_nan() || self.y.is_nan()
    }
}

/// The unit accepts every operation on every pair of operands.
pub open spec fn total<U: Fn(Operation, Scalar, Scalar) -> Scalar>(unit: &U) -> bool {
    forall|op: Operation, a: Scalar, b: Scalar| call_requires(*unit, (op, a, b))
}

/// The unit may give `r` for `a op b`.
pub open spec fn yields<U: Fn(Operation, Scalar, Scalar) -> Scalar>(
    unit: &U,
    op: Operation,
    a: Scalar,
    b: Scalar,
    r: Scalar,
) -> bool {
    call_ensures(*unit, (op, a, b), r)
}

/// The unit may give `r` when it is applied to each axis of `a` and `b`.
pub open spec fn yields_on_axes<U: Fn(Operation, Scalar, Scalar) -> Scalar>(
    unit: &U,
    op: Operation,
    a: Vector2,
    b: Vector2,
    r: Vector2,
) -> bool {
    yields(unit, op, a.x, b.x, r.x) && yields(unit, op, a.y, b.y, r.y)
}

/// Applies the operation to each axis.
pub fn on_axes<U: Fn(Operation, Scalar, Scalar) -> Scalar>(
    unit: &U,
    op: Operation,
    a: Vector2,
    b: Vector2,
) -> (r: Vector2)
    requires
        total(unit),
    ensures
        yields_on_axes(unit, op, a, b, r),
{
    let x = unit(op, a.x, b.x);
    let y = unit(op, a.y, b.y);
    Vector2 { x, y }
}

} // verus!
