//! What passes between a capture session and the program around it:
//! events going in, steps with their requests coming out.

use vstd::prelude::*;
use crate::error::{CaptureError, Diagnostic, DiagnosticView};
use crate::naming::{Sender, SenderView};

verus! {

/// What happened outside since the last step.
#[derive(Debug, PartialEq, Eq)]
pub enum Event {
    /// The output directory has been created.
    DirectoryReady,
    /// Creating the output directory failed; `already_exists` tells whether
    /// it failed because the directory is there.
    DirectoryFailed { already_exists: bool, detail: String },
    /// The socket is bound.
    Bound,
    /// The socket could not be bound.
    BindFailed { detail: String },
    /// A datagram arrived: what the receive handed over, who sent it, and
    /// what the clock said right after: nanoseconds since the Unix epoch,
    /// or why it could not tell.
    Received { payload: Vec<u8>, sender: Sender, clock: Result<u128, String> },
    /// The receive failed.
    ReceiveFailed { detail: String },
    /// The capture file at `path` was written for a datagram of `sender`.
    Saved { sender: Sender, path: String },
    /// The capture file could not be written.
    SaveFailed { detail: String },
}

/// The mathematical value of an [`Event`].
pub enum EventView {
    DirectoryReady,
    DirectoryFailed { already_exists: bool, detail: Seq<char> },
    Bound,
    BindFailed { detail: Seq<char> },
    Received { payload: Seq<u8>, sender: SenderView, clock: Result<u128, Seq<char>> },
    ReceiveFailed { detail: Seq<char> },
    Saved { sender: SenderView, path: Seq<char> },
    SaveFailed { detail: Seq<char> },
}

impl View for Event {
    type V = EventView;

    open spec fn view(&self) -> EventView {
        match *self {
            Event::DirectoryReady => EventView::DirectoryReady,
            Event::DirectoryFailed { already_exists, detail } => EventView::DirectoryFailed {
                already_exists,
                detail: detail@,
            },
            Event::Bound => EventView::Bound,
            Event::BindFailed { detail } => EventView::BindFailed { detail: detail@ },
            Event::Received { payload, sender, clock } => EventView::Received {
                payload: payload@,
                sender: sender@,
                clock: match clock {
                    Ok(nanos) => Ok(nanos),
                    Err(detail) => Err(detail@),
                },
            },
            Event::ReceiveFailed { detail } => EventView::ReceiveFailed { detail: detail@ },
            Event::Saved { sender, path } => EventView::Saved { sender: sender@, path: path@ },
            Event::SaveFailed { detail } => EventView::SaveFailed { detail: detail@ },
        }
    }
}

/// The outside work that a step asks for. Each request is answered by one
/// event.
#[derive(Debug, PartialEq, Eq)]
pub enum Request {
    /// Create the directory `path`, but none of its parents. Answered by
    /// `DirectoryReady` or `DirectoryFailed`.
    PrepareDirectory { path: String },
    /// Bind a UDP socket. Answered by `Bound` or `BindFailed`.
    Bind { address: String, port: u16 },
    /// Wait for the next datagram with a buffer of `capacity` bytes.
    /// Answered by `Received` or `ReceiveFailed`.
    Receive { capacity: usize },
    /// Create the file `path` with exactly `contents`; a file that is
    /// there already is a failure. Answered by `Saved` or `SaveFailed`.
    Save { sender: Sender, path: String, contents: Vec<u8> },
}

/// The mathematical value of a [`Request`].
pub enum RequestView {
    PrepareDirectory { path: Seq<char> },
    Bind { address: Seq<char>, port: u16 },
    Receive { capacity: usize },
    Save { sender: SenderView, path: Seq<char>, contents: Seq<u8> },
}

impl View for Request {
    type V = RequestView;

    open spec fn view(&self) -> RequestView {
        match *self {
            Request::PrepareDirectory { path } => RequestView::PrepareDirectory { path: path@ },
            Request::Bind { address, port } => RequestView::Bind { address: address@, port },
            Request::Receive { capacity } => RequestView::Receive { capacity },
            Request::Save { sender, path, contents } => RequestView::Save {
                sender: sender@,
                path: path@,
                contents: contents@,
            },
        }
    }
}

/// The answer to an event that does not end the process.
#[derive(Debug, PartialEq, Eq)]
pub struct Step {
    /// Lines for the standard output, in order.
    pub status: Vec<String>,
    /// The error that was met and that the session survives, with its line
    /// for the diagnostic stream.
    pub diagnostic: Option<Diagnostic>,
    /// What to do next.
    pub request: Request,
}

/// The mathematical value of a [`Step`].
pub struct StepView {
    pub status: Seq<Seq<char>>,
    pub diagnostic: Option<DiagnosticView>,
    pub request: RequestView,
}

impl View for Step {
    type V = StepView;

    open spec fn view(&self) -> StepView {
        StepView {
            status: self.status.deep_view(),
            diagnostic: match self.diagnostic {
                Some(failure) => Some(failure@),
                None => None,
            },
            request: self.request@,
        }
    }
}

impl StepView {
    /// A step that prints nothing.
    pub open spec fn quiet(request: RequestView) -> StepView {
        StepView { status: seq![], diagnostic: None, request }
    }

    /// A step that prints `lines` on the standard output.
    pub open spec fn report(lines: Seq<Seq<char>>, request: RequestView) -> StepView {
        StepView { status: lines, diagnostic: None, request }
    }

    /// A step that reports an error on the diagnostic stream.
    pub open spec fn complaint(
        error: CaptureError,
        detail: Seq<char>,
        request: RequestView,
    ) -> StepView {
        StepView {
            status: seq![],
            diagnostic: Some(DiagnosticView { error, message: error.line(detail) }),
            request,
        }
    }
}

} // verus!
