//! The writer: the one task that writes to the subprocess's input.
//!
//! It takes the queued lines in the order in which they were queued, writes
//! each one followed by a line break, and flushes after every write, since
//! the subprocess reads one line at a time. The first failure ends it, as
//! does the end of the queue. It tells no waiting request that it ended:
//! that is for the shutdown of the connection to do. A writer starts by
//! waiting for a line.

use vstd::prelude::*;
use vstd::string::StringExecFns;

verus! {

/// What happened to the writer's last action.
#[derive(Debug)]
pub enum WriterEvent {
    /// The queue handed out its next line, or `None`: it is closed and empty.
    Dequeued(Option<String>),
    /// The write ended; `true` where it succeeded.
    Written(bool),
    /// The flush ended; `true` where it succeeded.
    Flushed(bool),
}

/// What the writer has to do next.
#[derive(Debug)]
pub enum WriterAction {
    /// Wait for the next queued line.
    Receive,
    /// Write this text to the subprocess's input.
    Write(String),
    /// Flush the subprocess's input.
    Flush,
    /// End the task.
    Stop,
}

/// The content of a [`WriterAction`].
pub enum WriterActionView {
    Receive,
    Write(Seq<char>),
    Flush,
    Stop,
}

impl View for WriterAction {
    type V = WriterActionView;

    open spec fn view(&self) -> WriterActionView {
        match self {
            WriterAction::Receive => WriterActionView::Receive,
            WriterAction::Write(text) => WriterActionView::Write(text@),
            WriterAction::Flush => WriterActionView::Flush,
            WriterAction::Stop => WriterActionView::Stop,
        }
    }
}

/// What the writer does after an event.
pub open spec fn writer_next(event: WriterEvent) -> WriterActionView {
    match event {
        WriterEvent::Dequeued(Some(line)) => WriterActionView::Write(line@ + "\n"@),
        WriterEvent::Dequeued(None) => WriterActionView::Stop,
        WriterEvent::Written(true) => WriterActionView::Flush,
        WriterEvent::Written(false) => WriterActionView::Stop,
        WriterEvent::Flushed(true) => WriterActionView::Receive,
        WriterEvent::Flushed(false) => WriterActionView::Stop,
    }
}

/// One step of the writer: what to do after the event that it was given.
pub fn writer_task(event: WriterEvent) -> (action: WriterAction)
    ensures
        action@ == writer_next(event),
{
    match event {
        WriterEvent::Dequeued(Some(line)) => {
            let mut text = line;
            text.append("\n");
            WriterAction::Write(text)
        },
        WriterEvent::Dequeued(None) => WriterAction::Stop,
        WriterEvent::Written(true) => WriterAction::Flush,
        WriterEvent::Written(false) => WriterAction::Stop,
        WriterEvent::Flushed(true) => WriterAction::Receive,
        WriterEvent::Flushed(false) => WriterAction::Stop,
    }
}

} // verus!
