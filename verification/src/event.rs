//! What a worker process reports on its output streams.

use vstd::prelude::*;

verus! {

/// How a worker process ended: its exit code and the signal that ended it,
/// as far as the platform told.
#[derive(Clone, Copy, Debug, PartialEq, Eq, Structural)]
pub struct ExitInfo {
    pub code: Option<i32>,
    pub signal: Option<i32>,
}

/// One unit of output from the worker.
#[derive(Debug, PartialEq, Eq)]
pub enum WorkerEvent {
    /// A line from standard output. This is what answers a request.
    OutputLine(Vec<u8>),
    /// A line from standard error. Diagnostic only.
    ErrorLine(Vec<u8>),
    /// The process has ended.
    Terminated(ExitInfo),
    /// Anything else the process layer reports. Ignored.
    Other,
}

/// The mathematical content of a `WorkerEvent`.
pub enum EventView {
    OutputLine(Seq<u8>),
    ErrorLine(Seq<u8>),
    Terminated(ExitInfo),
    Other,
}

impl View for WorkerEvent {
    type V = EventView;

    open spec fn view(&self) -> EventView {
        match self {
            WorkerEvent::OutputLine(bytes) => EventView::OutputLine(bytes@),
            WorkerEvent::ErrorLine(bytes) => EventView::ErrorLine(bytes@),
            WorkerEvent::Terminated(exit) => EventView::Terminated(*exit),
            WorkerEvent::Other => EventView::Other,
        }
    }
}

impl EventView {
    /// An event that ends the wait for a response: an output line or the
    /// end of the process. Every other event is passed over.
    pub open spec fn settles(self) -> bool {
        self is OutputLine || self is Terminated
    }
}

impl Clone for WorkerEvent {
    fn clone(&self) -> (copy: Self)
        ensures
            copy@ == self@,
    {
        match self {
            WorkerEvent::OutputLine(bytes) => WorkerEvent::OutputLine(bytes.clone()),
            WorkerEvent::ErrorLine(bytes) => WorkerEvent::ErrorLine(bytes.clone()),
            WorkerEvent::Terminated(exit) => WorkerEvent::Terminated(*exit),
            WorkerEvent::Other => WorkerEvent::Other,
        }
    }
}

impl WorkerEvent {
    /// Whether this event ends the wait for a response.
    pub fn settles(&self) -> (r: bool)
        ensures
            r == self@.settles(),
    {
        match self {
            WorkerEvent::OutputLine(_) => true,
            WorkerEvent::Terminated(_) => true,
            _ => false,
        }
    }
}

} // verus!
