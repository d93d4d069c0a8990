//! A cell whose borrow rules are checked while the program runs.
//!
//! [`AtomicRefCell`] pairs a value with a borrow-state register. A shared
//! view of the value is granted while no exclusive view is live; the exclusive
//! view is granted only while no view at all is live. A request that cannot be
//! granted is answered at once, never by waiting.
//!
//! The cell is held by a single owner, which is what lets its contracts name
//! the register. A view borrows the value it shows; the claim it holds on the
//! register is a guard that can be parked (the view gives up its reference
//! and keeps the claim) and resumed later. Several claims can thus be live
//! on one cell, and a request made while they are live is decided by the
//! register alone. A claim ends when its guard is handed back to the cell.
//!
//! For a register that threads work on through a shared reference, see
//! [`crate::shared_state`].

use vstd::prelude::*;
use vstd::string::StringExecFns;
use crate::borrow_state::BorrowState;
use crate::borrow_state::Zone;
use crate::borrow_state::zone;
use crate::borrow_state::read_attempt;
use crate::borrow_state::after_read_acquire;
use crate::borrow_state::after_write_acquire;
use crate::borrow_state::after_read_release;
use crate::borrow_state::after_write_release;
use crate::borrow_state::UNUSED;
use crate::borrow_state::WRITING;

verus! {

/// What a cell is at one instant: the value of its register and the value it
/// guards.
pub struct Snapshot<T> {
    /// The value of the register.
    pub bits: usize,
    /// The guarded value.
    pub value: T,
}

impl<T> Snapshot<T> {
    /// The same register around another value.
    pub open spec fn holding(self, value: T) -> Snapshot<T> {
        Snapshot { bits: self.bits, value }
    }

    /// The cell once a shared view has been granted, or `None` where the
    /// request is refused. The value stays as it is.
    pub open spec fn read_acquired(self) -> Option<Snapshot<T>> {
        match after_read_acquire(self.bits) {
            Some(next) => Some(Snapshot { bits: next, value: self.value }),
            None => None,
        }
    }

    /// The cell once the exclusive view has been granted and has left `left`
    /// behind, or `None` where the request is refused.
    pub open spec fn write_acquired(self, left: T) -> Option<Snapshot<T>> {
        match after_write_acquire(self.bits) {
            Some(next) => Some(Snapshot { bits: next, value: left }),
            None => None,
        }
    }

    /// The cell once one shared claim has ended.
    pub open spec fn read_released(self) -> Snapshot<T>
        recommends
            zone(self.bits) is Reading,
    {
        Snapshot { bits: after_read_release(self.bits), value: self.value }
    }

    /// The cell once the exclusive claim has ended.
    pub open spec fn write_released(self) -> Snapshot<T>
        recommends
            zone(self.bits) is Writing,
    {
        Snapshot { bits: after_write_release(self.bits), value: self.value }
    }
}

/// A value together with the register that guards it.
pub struct AtomicRefCell<T> {
    borrow: BorrowState,
    value: T,
}

/// The claim of one shared view on the register of its cell. Only a cell
/// makes one, and it cannot be copied: a claim is ended once at most.
pub struct BorrowGuard {
    seal: (),
}

/// The claim of the exclusive view on the register of its cell. Only a cell
/// makes one, and it cannot be copied: a claim is ended once at most.
pub struct MutBorrowGuard {
    seal: (),
}

/// A shared view: a reference to the guarded value, or to a part of it,
/// together with the claim that keeps writers away.
///
/// A view that goes out of scope keeps its claim. To end the claim, park the
/// view and hand the guard back to the cell.
pub struct AtomicRef<'a, T> {
    /// What the view shows.
    pub value: &'a T,
    /// The claim the view holds.
    pub borrow: BorrowGuard,
}

/// The exclusive view: a mutable reference to the guarded value, or to a part
/// of it, together with the claim that keeps every other view away.
///
/// A view that goes out of scope keeps its claim, and the cell then refuses
/// every further request. To end the claim, park the view and hand the guard
/// back to the cell.
pub struct AtomicRefMut<'a, T> {
    /// What the view shows, and what it leaves behind.
    pub value: &'a mut T,
    /// The claim the view holds.
    pub borrow: MutBorrowGuard,
}

impl<T> View for AtomicRefCell<T> {
    type V = Snapshot<T>;

    closed spec fn view(&self) -> Snapshot<T> {
        Snapshot { bits: self.borrow.bits(), value: self.value }
    }
}

impl<T> AtomicRefCell<T> {
    /// Wraps `value` in a cell on which no view is live.
    pub fn new(value: T) -> (cell: AtomicRefCell<T>)
        ensures
            cell@ == (Snapshot { bits: UNUSED, value }),
    {
        AtomicRefCell { borrow: BorrowState::new(), value }
    }

    /// Unwraps the value. No view may be live.
    pub fn into_inner(self) -> (value: T)
        requires
            zone(self@.bits) is Unused,
        ensures
            value == self@.value,
    {
        self.value
    }

    /// Asks for a shared view. It is granted unless the exclusive view is
    /// live; a refusal leaves the cell as it was.
    pub fn try_borrow<'a>(&'a mut self) -> (view: Option<AtomicRef<'a, T>>)
        ensures
            match old(self)@.read_acquired() {
                Some(after) => view is Some && *view->0.value == old(self)@.value && final(self)@
                    == after,
                None => view is None && final(self)@ == old(self)@,
            },
    {
        if self.borrow.try_acquire_read() {
            Some(AtomicRef { value: &self.value, borrow: BorrowGuard { seal: () } })
        } else {
            None
        }
    }

    /// Takes a shared view. The exclusive view must not be live.
    pub fn borrow<'a>(&'a mut self) -> (view: AtomicRef<'a, T>)
        requires
            !(zone(old(self)@.bits) is Writing),
        ensures
            *view.value == old(self)@.value,
            Some(final(self)@) == old(self)@.read_acquired(),
    {
        self.try_borrow().expect("Already mutably borrowed")
    }

    /// Asks for the exclusive view. It is granted only while no view is live;
    /// a refusal leaves the cell as it was. What the cell holds afterwards is
    /// what the view leaves behind.
    pub fn try_borrow_mut<'a>(&'a mut self) -> (view: Option<AtomicRefMut<'a, T>>)
        ensures
            match view {
                Some(granted) => *granted.value == old(self)@.value && Some(final(self)@) == old(
                    self,
                )@.write_acquired(*final(granted.value)),
                None => after_write_acquire(old(self)@.bits) is None && final(self)@ == old(
                    self,
                )@,
            },
    {
        if self.borrow.try_acquire_write() {
            Some(AtomicRefMut { value: &mut self.value, borrow: MutBorrowGuard { seal: () } })
        } else {
            None
        }
    }

    /// Takes the exclusive view. No view may be live.
    pub fn borrow_mut<'a>(&'a mut self) -> (view: AtomicRefMut<'a, T>)
        requires
            zone(old(self)@.bits) is Unused,
        ensures
            *view.value == old(self)@.value,
            Some(final(self)@) == old(self)@.write_acquired(*final(view.value)),
    {
        self.try_borrow_mut().expect("Already immutably borrowed")
    }

    /// Resumes a parked shared claim: the view shows the value again.
    pub fn resume<'a>(&'a self, guard: BorrowGuard) -> (view: AtomicRef<'a, T>)
        requires
            zone(self@.bits) is Reading,
        ensures
            *view.value == self@.value,
            view.borrow == guard,
    {
        AtomicRef { value: &self.value, borrow: guard }
    }

    /// Resumes the parked exclusive claim. What the cell holds afterwards is
    /// what the view leaves behind.
    pub fn resume_mut<'a>(&'a mut self, guard: MutBorrowGuard) -> (view: AtomicRefMut<'a, T>)
        requires
            zone(old(self)@.bits) is Writing,
        ensures
            *view.value == old(self)@.value,
            view.borrow == guard,
            final(self)@ == old(self)@.holding(*final(view.value)),
    {
        AtomicRefMut { value: &mut self.value, borrow: guard }
    }

    /// Ends a shared claim: one reader fewer.
    pub fn release(&mut self, guard: BorrowGuard)
        requires
            zone(old(self)@.bits) is Reading,
        ensures
            final(self)@ == old(self)@.read_released(),
    {
        let BorrowGuard { seal: _ } = guard;
        self.borrow.release_read();
    }

    /// Ends the exclusive claim: the cell is free again.
    pub fn release_mut(&mut self, guard: MutBorrowGuard)
        requires
            zone(old(self)@.bits) is Writing,
        ensures
            final(self)@ == old(self)@.write_released(),
    {
        let MutBorrowGuard { seal: _ } = guard;
        self.borrow.release_write();
    }
}

/// The text of a cell whose value is shown as `shown`, or of a cell whose
/// value cannot be looked at.
pub open spec fn framed(shown: Option<Seq<char>>) -> Seq<char> {
    match shown {
        Some(inner) => "AtomicRefCell { value: "@ + inner + " }"@,
        None => "AtomicRefCell { value: <borrowed> }"@,
    }
}

/// Builds the text by which a cell shows itself, from the text of its value;
/// `None` stands for a value that cannot be looked at.
pub fn debug_frame(shown: Option<&str>) -> (text: String)
    ensures
        text@ == framed(
            match shown {
                Some(inner) => Some(inner@),
                None => None,
            },
        ),
{
    match shown {
        Some(inner) => {
            let mut text = String::from_str("AtomicRefCell { value: ");
            text.append(inner);
            text.append(" }");
            text
        },
        None => String::from_str("AtomicRefCell { value: <borrowed> }"),
    }
}

impl<T> AtomicRefCell<T> {
    /// The text by which the cell shows itself. While the exclusive view is
    /// live the value cannot be looked at, and the text says so instead of
    /// failing; otherwise the text is built around what `render` gives for
    /// the value.
    pub fn debug_text<F>(&self, render: F) -> (text: String) where F: FnOnce(&T) -> String
        requires
            !(zone(self@.bits) is Writing) ==> call_requires(render, (&self@.value,)),
        ensures
            zone(self@.bits) is Writing ==> text@ == framed(None),
            !(zone(self@.bits) is Writing) ==> exists|shown: String| #[trigger]
                call_ensures(render, (&self@.value,), shown) && text@ == framed(Some(shown@)),
    {
        match self.peek() {
            Some(value) => {
                let shown = render(value);
                debug_frame(Some(shown.as_str()))
            },
            None => debug_frame(None),
        }
    }

    /// A look at the value that lasts no longer than the borrow of the cell,
    /// and so needs no claim of its own. It is refused, as a shared view would
    /// be, while the exclusive view is live.
    pub(crate) fn peek(&self) -> (value: Option<&T>)
        ensures
            match after_read_acquire(self@.bits) {
                Some(_) => value is Some && *value->0 == self@.value,
                None => value is None,
            },
    {
        match read_attempt(self.borrow.load()) {
            Some(_) => Some(&self.value),
            None => None,
        }
    }
}

/// What is written through the exclusive view is what the next shared view
/// shows: on a free cell the exclusive view is granted; once it has left
/// `value` behind and has ended, a shared view is granted and shows `value`.
pub proof fn lemma_write_then_read<T>(before: Snapshot<T>, value: T)
    requires
        zone(before.bits) is Unused,
    ensures
        before.write_acquired(value) is Some,
        zone(before.write_acquired(value)->0.bits) is Writing,
        before.write_acquired(value)->0.write_released().read_acquired() is Some,
        before.write_acquired(value)->0.write_released().read_acquired()->0.value == value,
{
}

/// Two shared views of one cell are live side by side, and both show the
/// value the cell held before: narrowing each to a part of its own never
/// involves the register again.
pub proof fn lemma_shared_views_coexist<T>(before: Snapshot<T>)
    requires
        !(zone(before.bits) is Writing),
        before.bits + 2 < WRITING,
    ensures
        before.read_acquired() is Some,
        before.read_acquired()->0.read_acquired() is Some,
        before.read_acquired()->0.read_acquired()->0 == (Snapshot {
            bits: (before.bits + 2) as usize,
            value: before.value,
        }),
        zone(before.read_acquired()->0.read_acquired()->0.bits) is Reading,
{
}

impl<'a, T> AtomicRef<'a, T> {
    /// Narrows a shared view to a part of what it shows. The register is not
    /// asked again: the claim moves to the new view, and `orig` is used up.
    pub fn map<U, F>(orig: AtomicRef<'a, T>, f: F) -> (view: AtomicRef<'a, U>) where
        F: FnOnce(&T) -> &U,

        requires
            call_requires(f, (orig.value,)),
        ensures
            call_ensures(f, (orig.value,), view.value),
            view.borrow == orig.borrow,
    {
        AtomicRef { value: f(orig.value), borrow: orig.borrow }
    }

    /// Parks the view: gives up the reference and keeps the claim.
    pub fn into_guard(self) -> (guard: BorrowGuard)
        ensures
            guard == self.borrow,
    {
        self.borrow
    }
}

impl<'a, T> std::ops::Deref for AtomicRef<'a, T> {
    type Target = T;

    fn deref(&self) -> (target: &T)
        ensures
            *target == *self.value,
    {
        self.value
    }
}

impl<'a, T> AtomicRefMut<'a, T> {
    /// Narrows the exclusive view to a part of what it shows. The register is
    /// not asked again: the claim moves to the new view, and `orig` is used up.
    ///
    /// `f` is called once, on a reference that shows what `orig` shows and
    /// leaves behind what `orig` leaves behind; the new view shows, and leaves
    /// behind, what the reference returned by `f` does.
    pub fn map<U, F>(orig: AtomicRefMut<'a, T>, f: F) -> (view: AtomicRefMut<'a, U>) where
        F: FnOnce(&mut T) -> &mut U,

        requires
            forall|whole: &mut T| *whole == *old(orig.value) ==> call_requires(f, (whole,)),
        ensures
            exists|whole: &mut T, part: &mut U|
                *whole == *old(orig.value) && *final(whole) == *final(orig.value)
                    && #[trigger] call_ensures(f, (whole,), part) && *part == *view.value
                    && *final(part) == *final(view.value),
            view.borrow == orig.borrow,
    {
        AtomicRefMut { value: f(orig.value), borrow: orig.borrow }
    }

    /// Parks the view: gives up the reference and keeps the claim. What the
    /// view showed last is what it leaves behind.
    pub fn into_guard(self) -> (guard: MutBorrowGuard)
        ensures
            guard == self.borrow,
            *final(self.value) == *old(self.value),
    {
        self.borrow
    }
}

impl<'a, T> std::ops::Deref for AtomicRefMut<'a, T> {
    type Target = T;

    fn deref(&self) -> (target: &T)
        ensures
            *target == *old(self.value),
    {
        &*self.value
    }
}

impl<'a, T> std::ops::DerefMut for AtomicRefMut<'a, T> {
    fn deref_mut(&mut self) -> (target: &mut T)
        ensures
            *target == *old(self).value,
            *final(self).value == *final(target),
            *final(final(self).value) == *final(old(self).value),
            final(self).borrow == old(self).borrow,
    {
        &mut *self.value
    }
}

} // verus!
