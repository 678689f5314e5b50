//! An option together with its place in the list, and the page of such
//! options that is handed to a renderer.

use vstd::prelude::*;

verus! {

/// An option of a list, with its index in that list.
#[derive(Clone, Debug, PartialEq, Eq)]
pub struct ListOption<T> {
    /// Index of the option in the whole list.
    pub index: usize,
    /// The option itself.
    pub value: T,
}

impl<T> ListOption<T> {
    /// Pairs an option with its index.
    pub fn new(index: usize, value: T) -> (option: Self)
        ensures
            option == (ListOption { index, value }),
    {
        ListOption { index, value }
    }

    /// The same option, borrowed.
    pub fn as_ref(&self) -> (borrowed: ListOption<&T>)
        ensures
            borrowed.index == self.index,
            *borrowed.value == self.value,
    {
        ListOption { index: self.index, value: &self.value }
    }
}

/// The part of a list that is on screen.
#[derive(Clone, Debug, PartialEq, Eq)]
pub struct Page<T> {
    /// Whether this page begins at the start of the list.
    pub first: bool,
    /// Whether this page reaches the end of the list.
    pub last: bool,
    /// The items of the page, in order.
    pub content: Vec<T>,
    /// Position within `content` of the highlighted item, if it is there.
    pub cursor: Option<usize>,
    /// How many items the whole list has.
    pub total: usize,
}

} // verus!
