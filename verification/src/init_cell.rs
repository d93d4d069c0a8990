//! A cell that is filled once.

use vstd::prelude::*;
use vstd::string::StringExecFns;

verus! {

/// The text of a filled cell whose value is shown as `shown`.
pub open spec fn framed(shown: Seq<char>) -> Seq<char> {
    "InitCell("@ + shown + ")"@
}

/// Builds the text by which a filled cell shows itself, from the text of its
/// value.
pub fn debug_frame(shown: &str) -> (text: String)
    ensures
        text@ == framed(shown@),
{
    let mut text = String::from_str("InitCell(");
    text.append(shown);
    text.append(")");
    text
}

/// A place for a value that is not known when the place is made. It starts
/// empty, is filled once by [`InitCell::init`], and is read freely from then on.
pub struct InitCell<T> {
    slot: Option<T>,
}

impl<T> View for InitCell<T> {
    type V = Option<T>;

    closed spec fn view(&self) -> Option<T> {
        self.slot
    }
}

impl<T> InitCell<T> {
    /// An empty cell.
    pub fn new() -> (cell: InitCell<T>)
        ensures
            cell@ is None,
    {
        InitCell { slot: None }
    }

    /// Fills the cell. It must be empty: a cell is filled once.
    pub fn init(&mut self, value: T)
        requires
            old(self)@ is None,
        ensures
            final(self)@ == Some(value),
    {
        self.slot = Some(value);
    }

    /// The value, if the cell has been filled.
    pub fn get(&self) -> (value: Option<&T>)
        ensures
            value is Some <==> self@ is Some,
            value is Some ==> *value->0 == self@->0,
    {
        self.slot.as_ref()
    }

    /// The value for writing, if the cell has been filled. An empty cell
    /// stays empty; a filled one ends up holding what the reference leaves
    /// behind.
    pub fn get_mut(&mut self) -> (value: Option<&mut T>)
        ensures
            match old(self)@ {
                Some(held) => value is Some && *value->0 == held && final(self)@ == Some(
                    *final(value->0),
                ),
                None => value is None && final(self)@ is None,
            },
    {
        self.slot.as_mut()
    }

    /// The text by which the cell shows itself, built around what `render`
    /// gives for the value. The cell must have been filled.
    pub fn debug_text<F>(&self, render: F) -> (text: String) where F: FnOnce(&T) -> String
        requires
            self@ is Some,
            call_requires(render, (&self@->0,)),
        ensures
            exists|shown: String| #[trigger]
                call_ensures(render, (&self@->0,), shown) && text@ == framed(shown@),
    {
        let shown = render(self.slot.as_ref().unwrap());
        debug_frame(shown.as_str())
    }
}

} // verus!
