//! Events sent from a worker task to its consumer.

use vstd::prelude::*;

verus! {

/// An event emitted by a worker task. `Complete` and `Error` are terminal:
/// exactly one of them ends every run, and nothing follows it.
#[derive(Debug, Clone, PartialEq, Eq)]
pub enum Event {
    /// `done` of `total` units are finished; the reported progress fraction
    /// is `done / total`.
    Progress { done: u32, total: u32 },
    /// A free-form human-readable line.
    Log(String),
    /// The run finished all of its units.
    Complete,
    /// The run stopped early; carries the cause.
    Error(String),
}

/// The mathematical shape of an `Event`.
pub enum EventV {
    Progress { done: nat, total: nat },
    Log(Seq<char>),
    Complete,
    Error(Seq<char>),
}

impl View for Event {
    type V = EventV;

    open spec fn view(&self) -> EventV {
        match self {
            Event::Progress { done, total } => EventV::Progress {
                done: *done as nat,
                total: *total as nat,
            },
            Event::Log(s) => EventV::Log(s@),
            Event::Complete => EventV::Complete,
            Event::Error(s) => EventV::Error(s@),
        }
    }
}

/// Whether an event ends a run.
pub open spec fn is_terminal(e: EventV) -> bool {
    e is Complete || e is Error
}

/// The views of a sequence of events.
pub open spec fn event_views(s: Seq<Event>) -> Seq<EventV> {
    s.map_values(|e: Event| e@)
}

} // verus!
