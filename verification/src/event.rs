//! What the process layer reports of the backend.

use vstd::prelude::*;

verus! {

/// One event of the backend process, as the process layer delivers it.
#[derive(Debug, PartialEq, Eq)]
pub enum BackendEvent {
    /// Bytes the backend wrote to standard output.
    Stdout(Vec<u8>),
    /// Bytes the backend wrote to standard error.
    Stderr(Vec<u8>),
    /// The process layer ran into an error after the launch; the detail is
    /// its own wording.
    Error(String),
    /// The backend ended. The exit code is absent where the platform cannot
    /// report one.
    Terminated(Option<i32>),
    /// An event of any other sort.
    Other,
}

/// The mathematical content of a [`BackendEvent`].
pub enum EventView {
    Stdout(Seq<u8>),
    Stderr(Seq<u8>),
    Error(Seq<char>),
    Terminated(Option<i32>),
    Other,
}

impl View for BackendEvent {
    type V = EventView;

    open spec fn view(&self) -> EventView {
        match self {
            BackendEvent::Stdout(bytes) => EventView::Stdout(bytes@),
            BackendEvent::Stderr(bytes) => EventView::Stderr(bytes@),
            BackendEvent::Error(detail) => EventView::Error(detail@),
            BackendEvent::Terminated(code) => EventView::Terminated(*code),
            BackendEvent::Other => EventView::Other,
        }
    }
}

} // verus!
