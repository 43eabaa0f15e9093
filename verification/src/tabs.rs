//! The two-tab view switch of a data pane: a table rendering and a raw
//! rendering, cycled by a single key.

use vstd::prelude::*;

verus! {

/// The tab currently shown in a data view.
#[derive(Debug, Clone, Copy, PartialEq, Eq, Structural)]
pub enum ActiveTab {
    Table,
    Raw,
}

impl ActiveTab {
    /// The position of this tab in the tab bar.
    pub fn index(&self) -> (r: usize)
        ensures
            self is Table ==> r == 0,
            self is Raw ==> r == 1,
    {
        match self {
            ActiveTab::Table => 0,
            ActiveTab::Raw => 1,
        }
    }

    /// The other tab: cycling from either tab reaches the other one, so two
    /// steps lead back to the start.
    pub fn next(&self) -> (r: ActiveTab)
        ensures
            self is Table ==> r is Raw,
            self is Raw ==> r is Table,
    {
        match self {
            ActiveTab::Table => ActiveTab::Raw,
            ActiveTab::Raw => ActiveTab::Table,
        }
    }
}

} // verus!
