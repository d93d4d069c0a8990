//! A cell that is filled once and borrowed under run-time rules from then on.

use vstd::prelude::*;
use crate::atomic_ref_cell::AtomicRef;
use crate::atomic_ref_cell::AtomicRefCell;
use crate::atomic_ref_cell::AtomicRefMut;
use crate::atomic_ref_cell::BorrowGuard;
use crate::atomic_ref_cell::MutBorrowGuard;
use crate::atomic_ref_cell::Snapshot;
use crate::borrow_state::zone;
use crate::init_cell::debug_frame;
use crate::init_cell::framed;
use crate::borrow_state::UNUSED;

verus! {

/// An [`AtomicRefCell`] around a value that arrives later. The views it
/// hands out show the value itself, not the slot that holds it.
pub struct AtomicInitCell<T>(AtomicRefCell<Option<T>>);

impl<T> View for AtomicInitCell<T> {
    type V = Snapshot<Option<T>>;

    closed spec fn view(&self) -> Snapshot<Option<T>> {
        self.0@
    }
}

/// The value in a filled slot.
fn filled<T>(slot: &Option<T>) -> (value: &T)
    requires
        slot is Some,
    ensures
        *value == slot->0,
{
    slot.as_ref().unwrap()
}

/// The value in a filled slot, for writing. The slot ends up holding what
/// the reference leaves behind.
fn filled_mut<T>(slot: &mut Option<T>) -> (value: &mut T)
    requires
        *old(slot) is Some,
    ensures
        *value == old(slot)->0,
        *final(slot) == Some(*final(value)),
{
    slot.as_mut().unwrap()
}

impl<T> AtomicInitCell<T> {
    /// An empty cell on which no view is live.
    pub fn new() -> (cell: AtomicInitCell<T>)
        ensures
            cell@ == (Snapshot { bits: UNUSED, value: None::<T> }),
    {
        AtomicInitCell(AtomicRefCell::new(None))
    }

    /// Fills the cell. It must be empty, and no view may be live.
    pub fn init(&mut self, value: T)
        requires
            zone(old(self)@.bits) is Unused,
            old(self)@.value is None,
        ensures
            final(self)@ == (Snapshot { bits: UNUSED, value: Some(value) }),
    {
        let mut borrow = self.0.borrow_mut();
        *borrow = Some(value);
        let guard = borrow.into_guard();
        self.0.release_mut(guard);
    }

    /// Takes a shared view of the value. The cell must have been filled, and
    /// the exclusive view must not be live.
    pub fn borrow<'a>(&'a mut self) -> (view: AtomicRef<'a, T>)
        requires
            !(zone(old(self)@.bits) is Writing),
            old(self)@.value is Some,
        ensures
            *view.value == old(self)@.value->0,
            Some(final(self)@) == old(self)@.read_acquired(),
    {
        let borrow = self.0.borrow();
        AtomicRef::map(borrow, filled)
    }

    /// Takes the exclusive view of the value. The cell must have been filled,
    /// and no view may be live. What the cell holds afterwards is what the
    /// view leaves behind.
    pub fn borrow_mut<'a>(&'a mut self) -> (view: AtomicRefMut<'a, T>)
        requires
            zone(old(self)@.bits) is Unused,
            old(self)@.value is Some,
        ensures
            *view.value == old(self)@.value->0,
            Some(final(self)@) == old(self)@.write_acquired(Some(*final(view.value))),
    {
        let borrow = self.0.borrow_mut();
        AtomicRefMut::map(borrow, filled_mut)
    }

    /// Ends a shared claim: one reader fewer.
    pub fn release(&mut self, guard: BorrowGuard)
        requires
            zone(old(self)@.bits) is Reading,
        ensures
            final(self)@ == old(self)@.read_released(),
    {
        self.0.release(guard);
    }

    /// Ends the exclusive claim: the cell is free again.
    pub fn release_mut(&mut self, guard: MutBorrowGuard)
        requires
            zone(old(self)@.bits) is Writing,
        ensures
            final(self)@ == old(self)@.write_released(),
    {
        self.0.release_mut(guard);
    }

    /// The text by which the cell shows itself: that of a filled
    /// [`crate::init_cell::InitCell`], built around what `render` gives for
    /// the value. The cell must have been filled, and the exclusive view must
    /// not be live.
    pub fn debug_text<F>(&self, render: F) -> (text: String) where F: FnOnce(&T) -> String
        requires
            !(zone(self@.bits) is Writing),
            self@.value is Some,
            call_requires(render, (&self@.value->0,)),
        ensures
            exists|shown: String| #[trigger]
                call_ensures(render, (&self@.value->0,), shown) && text@ == framed(shown@),
    {
        let inner = filled(self.0.peek().unwrap());
        let shown = render(inner);
        debug_frame(shown.as_str())
    }
}

} // verus!
