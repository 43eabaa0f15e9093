//! A single entry of a checklist: a text and a completion mark.

use vstd::prelude::*;

verus! {

/// One checklist entry.
#[derive(Debug, Clone)]
pub struct TodoItem {
    pub text: String,
    pub completed: bool,
}

impl TodoItem {
    /// A fresh, not yet completed entry.
    pub fn new(text: String) -> (r: TodoItem)
        ensures
            r.text@ == text@,
            !r.completed,
    {
        TodoItem { text, completed: false }
    }

    /// Flips the completion mark and keeps the text, so toggling twice
    /// restores the original state.
    pub fn toggle(&mut self)
        ensures
            final(self).completed == !old(self).completed,
            final(self).text@ == old(self).text@,
    {
        self.completed = !self.completed;
    }
}

} // verus!
