//! Arithmetic on expressions.
//!
//! An infix operator between two [`Lazy`] handles computes nothing: it builds
//! a [`LazyOp`] node that holds both operands and the operator. Evaluating the
//! node evaluates the left operand, then the right one, each once, and
//! applies the operator to the two values.
//!
//! What an operator does to two values is `T`'s own affair. The contracts
//! here pass on what `T` states of its `+`, `-`, `*` and `/`: for the integer
//! types that is the exact result, provided it fits the type and the divisor
//! is not zero.

use std::marker::PhantomData;
use std::ops::{Add, Div, Mul, Sub};
use vstd::prelude::*;
use vstd::std_specs::ops::{
    AddSpec, AddSpecImpl, DivSpec, DivSpecImpl, MulSpec, MulSpecImpl, SubSpec, SubSpecImpl,
};

use crate::slots::Slots;
use crate::{Expression, Lazy};

verus! {

/// A binary operator on values of type `T`.
pub trait Operator<T>: Sized {
    /// Whether the operator may be applied to these operands.
    spec fn defined(&self, left: T, right: T) -> bool;

    /// Whether `value` may be what the operator makes of these operands.
    spec fn produces(&self, left: T, right: T, value: T) -> bool;

    /// Applies the operator.
    fn apply(self, left: T, right: T) -> (value: T)
        requires
            self.defined(left, right),
        ensures
            self.produces(left, right, value),
    ;
}

/// Addition, as `T`'s own `+` defines it.
#[derive(Debug, Clone, Copy)]
pub struct Plus;

impl<T: Add<Output = T>> Operator<T> for Plus {
    open spec fn defined(&self, left: T, right: T) -> bool {
        left.add_req(right)
    }

    open spec fn produces(&self, left: T, right: T, value: T) -> bool {
        T::obeys_add_spec() ==> value == left.add_spec(right)
    }

    fn apply(self, left: T, right: T) -> (value: T) {
        left + right
    }
}

/// Subtraction, as `T`'s own `-` defines it.
#[derive(Debug, Clone, Copy)]
pub struct Minus;

impl<T: Sub<Output = T>> Operator<T> for Minus {
    open spec fn defined(&self, left: T, right: T) -> bool {
        left.sub_req(right)
    }

    open spec fn produces(&self, left: T, right: T, value: T) -> bool {
        T::obeys_sub_spec() ==> value == left.sub_spec(right)
    }

    fn apply(self, left: T, right: T) -> (value: T) {
        left - right
    }
}

/// Multiplication, as `T`'s own `*` defines it.
#[derive(Debug, Clone, Copy)]
pub struct Times;

impl<T: Mul<Output = T>> Operator<T> for Times {
    open spec fn defined(&self, left: T, right: T) -> bool {
        left.mul_req(right)
    }

    open spec fn produces(&self, left: T, right: T, value: T) -> bool {
        T::obeys_mul_spec() ==> value == left.mul_spec(right)
    }

    fn apply(self, left: T, right: T) -> (value: T) {
        left * right
    }
}

/// Division, as `T`'s own `/` defines it.
#[derive(Debug, Clone, Copy)]
pub struct Over;

impl<T: Div<Output = T>> Operator<T> for Over {
    open spec fn defined(&self, left: T, right: T) -> bool {
        left.div_req(right)
    }

    open spec fn produces(&self, left: T, right: T, value: T) -> bool {
        T::obeys_div_spec() ==> value == left.div_spec(right)
    }

    fn apply(self, left: T, right: T) -> (value: T) {
        left / right
    }
}

/// Two operand expressions of one value type and the operator that combines
/// their values.
#[derive(Debug)]
pub struct LazyOp<T, L, R, O>(pub L, pub R, pub O, pub PhantomData<T>);

impl<T, L: Clone, R: Clone, O: Clone> Clone for LazyOp<T, L, R, O> {
    fn clone(&self) -> (copy: Self)
        ensures
            cloned(self.0, copy.0),
            cloned(self.1, copy.1),
            cloned(self.2, copy.2),
    {
        LazyOp(self.0.clone(), self.1.clone(), self.2.clone(), PhantomData)
    }
}

impl<T, P, L: Expression<T, P>, R: Expression<T, P>, O: Operator<T>> Expression<T, P> for LazyOp<
    T,
    L,
    R,
    O,
> {
    /// The left operand is ready, the right operand is ready on whatever
    /// store the left one leaves, and the operator is defined on whatever
    /// pair of values the two may yield.
    open spec fn ready(&self, slots: Seq<Option<P>>) -> bool {
        &&& self.0.ready(slots)
        &&& forall|left: T, middle: Seq<Option<P>>| #[trigger]
            self.0.yields(slots, left, middle) ==> self.1.ready(middle)
        &&& forall|left: T, middle: Seq<Option<P>>, right: T, after: Seq<Option<P>>|
            #[trigger] self.0.yields(slots, left, middle) && #[trigger] self.1.yields(
                middle,
                right,
                after,
            ) ==> self.2.defined(left, right)
    }

    /// The value is the operator's result on a value of the left operand and
    /// a value that the right operand yields on the store that the left one
    /// left.
    open spec fn yields(&self, before: Seq<Option<P>>, value: T, after: Seq<Option<P>>) -> bool {
        exists|left: T, middle: Seq<Option<P>>, right: T|
            #[trigger] self.0.yields(before, left, middle) && #[trigger] self.1.yields(
                middle,
                right,
                after,
            ) && self.2.produces(left, right, value)
    }

    fn evaluate(self, slots: &mut Slots<P>) -> (value: T)
        ensures
            exists|left: T, middle: Seq<Option<P>>, right: T|
                #[trigger] self.0.yields(old(slots)@, left, middle) && #[trigger] self.1.yields(
                    middle,
                    right,
                    final(slots)@,
                ) && self.2.produces(left, right, value),
    {
        let LazyOp(left_expr, right_expr, op, _) = self;
        let left = left_expr.evaluate(slots);
        let right = right_expr.evaluate(slots);
        op.apply(left, right)
    }
}

impl<T: Add<Output = T>, L, R> AddSpecImpl<Lazy<T, R>> for Lazy<T, L> {
    open spec fn obeys_add_spec() -> bool {
        true
    }

    open spec fn add_req(self, rhs: Lazy<T, R>) -> bool {
        true
    }

    open spec fn add_spec(self, rhs: Lazy<T, R>) -> Self::Output {
        Lazy(LazyOp(self, rhs, Plus, PhantomData), PhantomData)
    }
}

impl<T: Add<Output = T>, L, R> Add<Lazy<T, R>> for Lazy<T, L> {
    type Output = Lazy<T, LazyOp<T, Lazy<T, L>, Lazy<T, R>, Plus>>;

    /// The expression of the sum of the two operands' values.
    /// Nothing is evaluated here: the result holds both operands, in this
    /// order, and [`lemma_operator_combines`] says what it yields.
    fn add(self, rhs: Lazy<T, R>) -> (sum: Self::Output)
        ensures
            sum.0.0 == self,
            sum.0.1 == rhs,
    {
        Lazy::new(LazyOp(self, rhs, Plus, PhantomData))
    }
}

impl<T: Sub<Output = T>, L, R> SubSpecImpl<Lazy<T, R>> for Lazy<T, L> {
    open spec fn obeys_sub_spec() -> bool {
        true
    }

    open spec fn sub_req(self, rhs: Lazy<T, R>) -> bool {
        true
    }

    open spec fn sub_spec(self, rhs: Lazy<T, R>) -> Self::Output {
        Lazy(LazyOp(self, rhs, Minus, PhantomData), PhantomData)
    }
}

impl<T: Sub<Output = T>, L, R> Sub<Lazy<T, R>> for Lazy<T, L> {
    type Output = Lazy<T, LazyOp<T, Lazy<T, L>, Lazy<T, R>, Minus>>;

    /// The expression of the left operand's value less the right one's.
    /// Nothing is evaluated here: the result holds both operands, in this
    /// order, and [`lemma_operator_combines`] says what it yields.
    fn sub(self, rhs: Lazy<T, R>) -> (difference: Self::Output)
        ensures
            difference.0.0 == self,
            difference.0.1 == rhs,
    {
        Lazy::new(LazyOp(self, rhs, Minus, PhantomData))
    }
}

impl<T: Mul<Output = T>, L, R> MulSpecImpl<Lazy<T, R>> for Lazy<T, L> {
    open spec fn obeys_mul_spec() -> bool {
        true
    }

    open spec fn mul_req(self, rhs: Lazy<T, R>) -> bool {
        true
    }

    open spec fn mul_spec(self, rhs: Lazy<T, R>) -> Self::Output {
        Lazy(LazyOp(self, rhs, Times, PhantomData), PhantomData)
    }
}

impl<T: Mul<Output = T>, L, R> Mul<Lazy<T, R>> for Lazy<T, L> {
    type Output = Lazy<T, LazyOp<T, Lazy<T, L>, Lazy<T, R>, Times>>;

    /// The expression of the product of the two operands' values.
    /// Nothing is evaluated here: the result holds both operands, in this
    /// order, and [`lemma_operator_combines`] says what it yields.
    fn mul(self, rhs: Lazy<T, R>) -> (product: Self::Output)
        ensures
            product.0.0 == self,
            product.0.1 == rhs,
    {
        Lazy::new(LazyOp(self, rhs, Times, PhantomData))
    }
}

impl<T: Div<Output = T>, L, R> DivSpecImpl<Lazy<T, R>> for Lazy<T, L> {
    open spec fn obeys_div_spec() -> bool {
        true
    }

    open spec fn div_req(self, rhs: Lazy<T, R>) -> bool {
        true
    }

    open spec fn div_spec(self, rhs: Lazy<T, R>) -> Self::Output {
        Lazy(LazyOp(self, rhs, Over, PhantomData), PhantomData)
    }
}

impl<T: Div<Output = T>, L, R> Div<Lazy<T, R>> for Lazy<T, L> {
    type Output = Lazy<T, LazyOp<T, Lazy<T, L>, Lazy<T, R>, Over>>;

    /// The expression of the left operand's value divided by the right one's.
    /// Nothing is evaluated here: the result holds both operands, in this
    /// order, and [`lemma_operator_combines`] says what it yields.
    fn div(self, rhs: Lazy<T, R>) -> (quotient: Self::Output)
        ensures
            quotient.0.0 == self,
            quotient.0.1 == rhs,
    {
        Lazy::new(LazyOp(self, rhs, Over, PhantomData))
    }
}

/// Evaluating `combine(a, b, op)` gives `op` of what evaluating `a` and then
/// `b` gives.
///
/// The combined expression is ready exactly when `a` is ready, `b` is ready
/// on every store that `a` may leave, and `op` is defined on every pair of
/// values that the two may yield; it yields `value` exactly when `a` yields
/// some `left`, `b` yields some `right` on the store that `a` left, and `op`
/// produces `value` from `left` and `right`.
pub proof fn lemma_operator_combines<
    T,
    P,
    L: Expression<T, P>,
    R: Expression<T, P>,
    O: Operator<T>,
>(combined: Lazy<T, LazyOp<T, L, R, O>>)
    ensures
        forall|slots: Seq<Option<P>>| #[trigger]
            combined.ready(slots) <==> {
                &&& combined.0.0.ready(slots)
                &&& forall|left: T, middle: Seq<Option<P>>| #[trigger]
                    combined.0.0.yields(slots, left, middle) ==> combined.0.1.ready(middle)
                &&& forall|left: T, middle: Seq<Option<P>>, right: T, after: Seq<Option<P>>|
                    #[trigger] combined.0.0.yields(slots, left, middle)
                        && #[trigger] combined.0.1.yields(middle, right, after)
                        ==> combined.0.2.defined(left, right)
            },
        forall|before: Seq<Option<P>>, value: T, after: Seq<Option<P>>| #[trigger]
            combined.yields(before, value, after) <==> exists|
                left: T,
                middle: Seq<Option<P>>,
                right: T,
            |
                #[trigger] combined.0.0.yields(before, left, middle)
                    && #[trigger] combined.0.1.yields(middle, right, after)
                    && combined.0.2.produces(left, right, value),
{
}

} // verus!
