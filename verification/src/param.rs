//! Parameters: values that are bound after the expression was built.
//!
//! A parameter is a pair of handles on one slot of a store. The write side,
//! [`ParameterContent`], sets the slot's value any number of times; the read
//! side, [`Parameter`], is a leaf expression whose evaluation takes the value
//! out and leaves the slot empty.

use std::marker::PhantomData;
use vstd::prelude::*;

use crate::slots::{occupied, Slots};
use crate::Expression;

verus! {

/// The handle through which a parameter's value is assigned.
///
/// It may be used after the parameter itself went into an expression, up to
/// the moment the expression is evaluated.
pub struct ParameterContent<T>(usize, PhantomData<T>);

impl<T> ParameterContent<T> {
    /// The index of the slot that this handle writes.
    pub closed spec fn slot(&self) -> int {
        self.0 as int
    }

    /// Stores `value` in the parameter's slot. What the slot held before is
    /// dropped; every other slot stays as it was.
    pub fn set(&mut self, slots: &mut Slots<T>, value: T)
        requires
            old(self).slot() < old(slots)@.len(),
        ensures
            *final(self) == *old(self),
            final(slots)@ == old(slots)@.update(old(self).slot(), Some(value)),
    {
        slots.replace(self.0, Some(value));
    }
}

impl<T> Clone for ParameterContent<T> {
    fn clone(&self) -> (copy: Self)
        ensures
            copy == *self,
    {
        ParameterContent(self.0, PhantomData)
    }
}

/// A value that is unknown when the expression is written and known before it
/// is evaluated.
pub struct Parameter<T>(usize, PhantomData<T>);

impl<T> Parameter<T> {
    /// The index of the slot that this parameter reads.
    pub closed spec fn slot(&self) -> int {
        self.0 as int
    }

    fn create_with(slots: &mut Slots<T>, value: Option<T>) -> (pair: (Self, ParameterContent<T>))
        ensures
            pair.0.slot() == old(slots)@.len(),
            pair.1.slot() == old(slots)@.len(),
            final(slots)@ == old(slots)@.push(value),
    {
        let slot: usize = slots.open(value);
        (Parameter(slot, PhantomData), ParameterContent(slot, PhantomData))
    }

    /// Opens a new, empty slot in `slots` and returns the two handles on it.
    pub fn empty(slots: &mut Slots<T>) -> (pair: (Self, ParameterContent<T>))
        ensures
            pair.0.slot() == old(slots)@.len(),
            pair.1.slot() == old(slots)@.len(),
            final(slots)@ == old(slots)@.push(None),
    {
        Self::create_with(slots, None)
    }

    /// Opens a new slot in `slots` that holds `value` and returns the two
    /// handles on it. The value can still be changed through the second.
    pub fn new(slots: &mut Slots<T>, value: T) -> (pair: (Self, ParameterContent<T>))
        ensures
            pair.0.slot() == old(slots)@.len(),
            pair.1.slot() == old(slots)@.len(),
            final(slots)@ == old(slots)@.push(Some(value)),
    {
        Self::create_with(slots, Some(value))
    }

    fn take(&mut self, slots: &mut Slots<T>) -> (content: Option<T>)
        requires
            old(self).slot() < old(slots)@.len(),
        ensures
            *final(self) == *old(self),
            content == old(slots)@[old(self).slot()],
            final(slots)@ == old(slots)@.update(old(self).slot(), None),
    {
        slots.replace(self.0, None)
    }
}

impl<T> Clone for Parameter<T> {
    fn clone(&self) -> (copy: Self)
        ensures
            copy == *self,
    {
        Parameter(self.0, PhantomData)
    }
}

impl<T> Expression<T, T> for Parameter<T> {
    /// A parameter may be evaluated once its slot holds a value.
    open spec fn ready(&self, slots: Seq<Option<T>>) -> bool {
        occupied(slots, self.slot())
    }

    /// Evaluation returns the value in the slot and leaves the slot empty.
    open spec fn yields(&self, before: Seq<Option<T>>, value: T, after: Seq<Option<T>>) -> bool {
        &&& occupied(before, self.slot())
        &&& before[self.slot()] == Some(value)
        &&& after == before.update(self.slot(), None)
    }

    fn evaluate(self, slots: &mut Slots<T>) -> (value: T)
        ensures
            old(slots)@[self.slot()] == Some(value),
            final(slots)@ == old(slots)@.update(self.slot(), None),
    {
        let mut node = self;
        node.take(slots).expect("Parameter value not provided")
    }
}

/// Whatever a slot held, once a value is set through the write handle, the
/// read handle on the same slot is ready, and evaluating it returns exactly
/// that value and leaves the slot empty and every other slot untouched.
pub proof fn lemma_evaluate_reads_last_set<T>(
    param: Parameter<T>,
    setter: ParameterContent<T>,
    slots: Seq<Option<T>>,
    x: T,
)
    requires
        param.slot() == setter.slot(),
        0 <= setter.slot() < slots.len(),
    ensures
        ({
            let bound = slots.update(setter.slot(), Some(x));
            let taken = slots.update(setter.slot(), None);
            &&& param.ready(bound)
            &&& param.yields(bound, x, taken)
            &&& forall|value: T, after: Seq<Option<T>>| #[trigger]
                param.yields(bound, value, after) ==> value == x && after == taken
        }),
{
    let bound = slots.update(setter.slot(), Some(x));
    let taken = slots.update(setter.slot(), None);
    assert(bound.update(param.slot(), None) =~= taken);
}

/// Round trip: for the pair of handles that `empty` returns, setting `x` and
/// then evaluating the parameter yields `x`, and the slot is empty again.
pub proof fn lemma_set_then_evaluate<T>(
    param: Parameter<T>,
    setter: ParameterContent<T>,
    slots: Seq<Option<T>>,
    x: T,
)
    requires
        param.slot() == slots.len(),
        setter.slot() == slots.len(),
    ensures
        ({
            let opened = slots.push(None);
            let bound = opened.update(setter.slot(), Some(x));
            &&& param.ready(bound)
            &&& param.yields(bound, x, opened)
            &&& forall|value: T, after: Seq<Option<T>>| #[trigger]
                param.yields(bound, value, after) ==> value == x && after == opened
        }),
{
    let opened = slots.push(None);
    lemma_evaluate_reads_last_set(param, setter, opened, x);
    assert(opened.update(setter.slot(), None) =~= opened);
}

/// Overwrite: for the pair of handles that `new(x)` returns, setting `y`
/// before the evaluation makes the parameter yield `y`; it yields `x` only
/// if the two are equal.
pub proof fn lemma_set_overwrites<T>(
    param: Parameter<T>,
    setter: ParameterContent<T>,
    slots: Seq<Option<T>>,
    x: T,
    y: T,
)
    requires
        param.slot() == slots.len(),
        setter.slot() == slots.len(),
    ensures
        ({
            let opened = slots.push(Some(x));
            let bound = opened.update(setter.slot(), Some(y));
            &&& param.ready(bound)
            &&& param.yields(bound, y, slots.push(None))
            &&& forall|value: T, after: Seq<Option<T>>| #[trigger]
                param.yields(bound, value, after) ==> value == y && after == slots.push(None)
        }),
{
    let opened = slots.push(Some(x));
    lemma_evaluate_reads_last_set(param, setter, opened, y);
    assert(opened.update(setter.slot(), None) =~= slots.push(None));
}

/// Unbound: for the parameter that `empty` returns, as long as nothing was
/// set, the parameter is not ready, so no evaluation of it is admitted, and
/// there is no value that it could yield.
pub proof fn lemma_unbound_is_not_ready<T>(param: Parameter<T>, slots: Seq<Option<T>>)
    requires
        param.slot() == slots.len(),
    ensures
        !param.ready(slots.push(None)),
        forall|value: T, after: Seq<Option<T>>|
            !#[trigger] param.yields(slots.push(None), value, after),
{
}

} // verus!
