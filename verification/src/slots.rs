//! The store of parameter slots.
//!
//! Every parameter owns one slot of a store. A slot is either empty or holds
//! one value; the store's view is the sequence of its slots in the order in
//! which they were opened.
//!
//! The store is an ordinary owned value that is handed to whoever binds a
//! parameter or evaluates an expression. Both handles of a parameter name
//! the same slot by its index, so a contract can say exactly what a binding
//! or an evaluation does to it, and that it does nothing to the others. The
//! parameters of one graph share one store and so hold values of one type.

use vstd::prelude::*;

verus! {

/// A growing row of single-value slots, each empty (`None`) or occupied.
pub struct Slots<P> {
    cells: Vec<Option<P>>,
}

impl<P> View for Slots<P> {
    type V = Seq<Option<P>>;

    closed spec fn view(&self) -> Seq<Option<P>> {
        self.cells@
    }
}

/// Whether `slot` names a slot of `slots` that holds a value.
pub open spec fn occupied<P>(slots: Seq<Option<P>>, slot: int) -> bool {
    0 <= slot < slots.len() && slots[slot] is Some
}

/// Whether `after` has the slots of `before`, each with the content it had
/// or empty: no slot was opened, filled or overwritten.
pub open spec fn only_emptied<P>(before: Seq<Option<P>>, after: Seq<Option<P>>) -> bool {
    &&& after.len() == before.len()
    &&& forall|slot: int|
        0 <= slot < before.len() ==> #[trigger] after[slot] == before[slot] || after[slot] is None
}

impl<P> Slots<P> {
    /// A store without any slot.
    pub fn new() -> (store: Self)
        ensures
            store@ == Seq::<Option<P>>::empty(),
    {
        Slots { cells: Vec::new() }
    }

    /// The number of slots opened so far.
    pub fn len(&self) -> (n: usize)
        ensures
            n == self@.len(),
    {
        self.cells.len()
    }

    /// Opens a new slot with the given content and returns its index. The
    /// slots opened before keep their index and content.
    pub fn open(&mut self, content: Option<P>) -> (slot: usize)
        ensures
            slot == old(self)@.len(),
            final(self)@ == old(self)@.push(content),
    {
        let slot: usize = self.cells.len();
        self.cells.push(content);
        slot
    }

    /// Puts `content` into `slot` and hands back what the slot held. No other
    /// slot changes.
    pub fn replace(&mut self, slot: usize, content: Option<P>) -> (previous: Option<P>)
        requires
            slot < old(self)@.len(),
        ensures
            previous == old(self)@[slot as int],
            final(self)@ == old(self)@.update(slot as int, content),
    {
        let mut held: Option<P> = content;
        self.cells.set_and_swap(slot, &mut held);
        held
    }
}

} // verus!
