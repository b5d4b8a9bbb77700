//! The single-choice menu of files that the user picks a document from.
use vstd::prelude::*;

verus! {

/// The entries of a directory listing, offered in listing order.
pub struct FileMenu {
    pub items: Vec<String>,
}

impl FileMenu {
    /// A menu that offers each entry of `names` once, in the order given.
    pub fn new(names: Vec<String>) -> (r: FileMenu)
        ensures
            r.items@ == names@,
    {
        FileMenu { items: names }
    }

    /// How many choices the menu offers.
    pub fn choice_count(&self) -> (r: usize)
        ensures
            r == self.items@.len(),
    {
        self.items.len()
    }

    /// The choice that stands selected before the user moves: the first.
    pub fn default_index(&self) -> (r: usize)
        ensures
            r == 0,
    {
        0
    }

    /// The entry at `index`, or `None` where the menu has no such choice.
    pub fn entry(&self, index: usize) -> (r: Option<&String>)
        ensures
            index < self.items@.len() ==> r == Some(&self.items@[index as int]),
            index >= self.items@.len() ==> r is None,
    {
        if index < self.items.len() {
            Some(&self.items[index])
        } else {
            None
        }
    }
}

} // verus!
