//! Deferred computations with late-bound parameters.
//!
//! An expression is a tree of pending operations. Building one computes
//! nothing; a single consuming `evaluate` walks the tree, children before
//! parents and left before right, and hands back the final value. Parameters
//! are leaves whose value is bound after the tree was built: each one names a
//! slot of a [`slots::Slots`] store, written through its
//! [`param::ParameterContent`] handle and emptied by the evaluation that reads
//! it.
//!
//! Contracts speak of an expression through two spec functions of the
//! [`Expression`] trait: `ready`, which says on which stores the expression
//! may be evaluated, and `yields`, which relates the store before, the value
//! returned and the store after. Callables are known by what they require
//! and ensure, so `yields` is a relation: a thunk yields whatever its
//! callable may return.
//!
//! For each kind of node a lemma spells out `ready` and `yields` in terms of
//! the node's parts: [`lemma_wrapper_forwards`], [`lemma_function_calls`],
//! [`lemma_map_applies_transform`], [`ops::lemma_operator_combines`]. A proof
//! about a graph that holds closures calls the lemma of each node that it
//! built.

use std::marker::PhantomData;
use vstd::prelude::*;

pub mod ops;
pub mod param;
pub mod prelude;
pub mod slots;

use crate::slots::{only_emptied, Slots};

verus! {

/// A pending computation of a `T` whose parameters hold values of type `P`.
pub trait Expression<T, P>: Sized {
    /// Whether the expression may be evaluated on a store with these slots.
    spec fn ready(&self, slots: Seq<Option<P>>) -> bool;

    /// Whether evaluating on the slots `before` may return `value` and leave
    /// the slots `after`.
    spec fn yields(&self, before: Seq<Option<P>>, value: T, after: Seq<Option<P>>) -> bool;

    /// Carries out the expression, children first, and returns its value.
    /// The expression is consumed: it cannot be evaluated again.
    fn evaluate(self, slots: &mut Slots<P>) -> (value: T)
        requires
            self.ready(old(slots)@),
        ensures
            self.yields(old(slots)@, value, final(slots)@),
            only_emptied(old(slots)@, final(slots)@),
    ;

    /// Wraps the expression in a node that applies `f` to its value. Nothing
    /// is evaluated; `f` runs when the returned expression is evaluated.
    /// [`lemma_map_applies_transform`] says what the returned expression
    /// yields.
    fn map<U, F: Fn(T) -> U>(self, f: F) -> (mapped: Lazy<U, LazyMap<T, Self, U, F>>)
        ensures
            mapped.0.0 == self,
            mapped.0.1 == f,
    {
        Lazy::new(LazyMap(self, f, PhantomData, PhantomData))
    }
}

/// Wraps a value in an expression that evaluates to it.
pub fn lazy<T, P>(value: T) -> (expr: Lazy<T, Value<T, P>>)
    ensures
        expr.0.0 == value,
        forall|slots: Seq<Option<P>>| #[trigger] expr.ready(slots),
        forall|before: Seq<Option<P>>, result: T, after: Seq<Option<P>>| #[trigger]
            expr.yields(before, result, after) <==> result == value && after == before,
{
    Lazy::new(Value(value, PhantomData))
}

/// Wraps an argument-less callable in an expression that evaluates to what it
/// returns.
pub fn lazyf<T, F: FnOnce() -> T, P>(f: F) -> (expr: Lazy<T, Function<T, F, P>>)
    ensures
        expr.0.0 == f,
        forall|slots: Seq<Option<P>>| #[trigger] expr.ready(slots) <==> f.requires(()),
        forall|before: Seq<Option<P>>, result: T, after: Seq<Option<P>>| #[trigger]
            expr.yields(before, result, after) <==> f.ensures((), result) && after == before,
{
    Lazy::new(Function(f, PhantomData))
}

/// The handle that users hold: exactly one expression node, to which
/// `evaluate` and `map` are forwarded and on which the arithmetic operators
/// are defined.
#[derive(Debug)]
pub struct Lazy<T, E>(pub E, pub PhantomData<T>);

impl<T, E> Lazy<T, E> {
    /// Wraps the given expression.
    pub fn new(expr: E) -> (wrapped: Self)
        ensures
            wrapped.0 == expr,
    {
        Lazy(expr, PhantomData)
    }
}

impl<T, E: Clone> Clone for Lazy<T, E> {
    fn clone(&self) -> (copy: Self)
        ensures
            cloned(self.0, copy.0),
    {
        Lazy(self.0.clone(), PhantomData)
    }
}

impl<T, P, E: Expression<T, P>> Expression<T, P> for Lazy<T, E> {
    open spec fn ready(&self, slots: Seq<Option<P>>) -> bool {
        self.0.ready(slots)
    }

    open spec fn yields(&self, before: Seq<Option<P>>, value: T, after: Seq<Option<P>>) -> bool {
        self.0.yields(before, value, after)
    }

    fn evaluate(self, slots: &mut Slots<P>) -> (value: T) {
        self.0.evaluate(slots)
    }
}

/// A known value. Evaluating it returns the value and leaves every slot as it
/// was.
#[derive(Debug)]
pub struct Value<T, P>(pub T, pub PhantomData<P>);

impl<T: Clone, P> Clone for Value<T, P> {
    fn clone(&self) -> (copy: Self)
        ensures
            cloned(self.0, copy.0),
    {
        Value(self.0.clone(), PhantomData)
    }
}

impl<T, P> Expression<T, P> for Value<T, P> {
    open spec fn ready(&self, slots: Seq<Option<P>>) -> bool {
        true
    }

    open spec fn yields(&self, before: Seq<Option<P>>, value: T, after: Seq<Option<P>>) -> bool {
        value == self.0 && after == before
    }

    fn evaluate(self, slots: &mut Slots<P>) -> (value: T)
        ensures
            value == self.0,
            final(slots)@ == old(slots)@,
    {
        self.0
    }
}

/// An argument-less callable. Evaluating it calls it once and returns what it
/// returned; no slot changes.
pub struct Function<T, F, P>(pub F, pub PhantomData<(T, P)>);

impl<T, F: FnOnce() -> T, P> Expression<T, P> for Function<T, F, P> {
    open spec fn ready(&self, slots: Seq<Option<P>>) -> bool {
        self.0.requires(())
    }

    open spec fn yields(&self, before: Seq<Option<P>>, value: T, after: Seq<Option<P>>) -> bool {
        self.0.ensures((), value) && after == before
    }

    fn evaluate(self, slots: &mut Slots<P>) -> (value: T)
        ensures
            self.0.ensures((), value),
            final(slots)@ == old(slots)@,
    {
        (self.0)()
    }
}

/// The node that `map` builds: an expression and a transform of its value.
/// Evaluating it evaluates the expression first and then applies the
/// transform to the result.
#[derive(Debug)]
pub struct LazyMap<T, E, U, F>(pub E, pub F, pub PhantomData<T>, pub PhantomData<U>);

impl<T, E: Clone, U, F: Clone> Clone for LazyMap<T, E, U, F> {
    fn clone(&self) -> (copy: Self)
        ensures
            cloned(self.0, copy.0),
            cloned(self.1, copy.1),
    {
        LazyMap(self.0.clone(), self.1.clone(), PhantomData, PhantomData)
    }
}

impl<T, P, E: Expression<T, P>, U, F: Fn(T) -> U> Expression<U, P> for LazyMap<T, E, U, F> {
    open spec fn ready(&self, slots: Seq<Option<P>>) -> bool {
        &&& self.0.ready(slots)
        &&& forall|inner: T, after: Seq<Option<P>>| #[trigger]
            self.0.yields(slots, inner, after) ==> self.1.requires((inner,))
    }

    open spec fn yields(&self, before: Seq<Option<P>>, value: U, after: Seq<Option<P>>) -> bool {
        exists|inner: T| #[trigger]
            self.0.yields(before, inner, after) && self.1.ensures((inner,), value)
    }

    fn evaluate(self, slots: &mut Slots<P>) -> (value: U)
        ensures
            exists|inner: T| #[trigger]
                self.0.yields(old(slots)@, inner, final(slots)@) && self.1.ensures(
                    (inner,),
                    value,
                ),
    {
        let LazyMap(expr, f, _, _) = self;
        let inner = expr.evaluate(slots);
        f(inner)
    }
}

/// The wrapper adds nothing of its own: it is ready exactly when the node it
/// holds is ready, and yields exactly what that node yields.
pub proof fn lemma_wrapper_forwards<T, P, E: Expression<T, P>>(wrapped: Lazy<T, E>)
    ensures
        forall|slots: Seq<Option<P>>| #[trigger] wrapped.ready(slots) <==> wrapped.0.ready(slots),
        forall|before: Seq<Option<P>>, value: T, after: Seq<Option<P>>| #[trigger]
            wrapped.yields(before, value, after) <==> wrapped.0.yields(before, value, after),
{
}

/// Evaluating a thunk calls the callable it holds: the thunk is ready exactly
/// when the callable may be called, its value is a value that the callable
/// returns, and no slot changes.
pub proof fn lemma_function_calls<T, F: FnOnce() -> T, P>(thunk: Function<T, F, P>)
    ensures
        forall|slots: Seq<Option<P>>| #[trigger] thunk.ready(slots) <==> thunk.0.requires(()),
        forall|before: Seq<Option<P>>, value: T, after: Seq<Option<P>>| #[trigger]
            thunk.yields(before, value, after) <==> thunk.0.ensures((), value) && after
                == before,
{
}

/// Evaluating `map(e, g)` gives `g` of what evaluating `e` gives.
///
/// The mapped expression is ready exactly when `e` is ready and `g` accepts
/// every value that `e` may yield; it yields `value` exactly when `e` yields
/// some `inner`, with the same effect on the store, and `g` returns `value`
/// for `inner`.
pub proof fn lemma_map_applies_transform<T, P, E: Expression<T, P>, U, F: Fn(T) -> U>(
    mapped: Lazy<U, LazyMap<T, E, U, F>>,
)
    ensures
        forall|slots: Seq<Option<P>>| #[trigger]
            mapped.ready(slots) <==> mapped.0.0.ready(slots) && forall|
                inner: T,
                after: Seq<Option<P>>,
            | #[trigger]
                mapped.0.0.yields(slots, inner, after) ==> mapped.0.1.requires((inner,)),
        forall|before: Seq<Option<P>>, value: U, after: Seq<Option<P>>| #[trigger]
            mapped.yields(before, value, after) <==> exists|inner: T| #[trigger]
                mapped.0.0.yields(before, inner, after) && mapped.0.1.ensures((inner,), value),
{
}

} // verus!
