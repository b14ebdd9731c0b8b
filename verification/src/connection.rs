//! One connection to an agent subprocess: its lifecycle, its request ids,
//! its pending requests, and what its reader and its writer do next.
//!
//! The connection holds no process and no stream. The host starts the
//! subprocess, moves lines in and out, keeps time, and asks the connection
//! what each event means.

use crate::codec::{
    decode_line, encode_notification, notification_line, outcome_view, request_line, Inbound,
    InboundView,
};
use crate::error::{RpcError, RpcErrorView};
use crate::fields::document_view;
use crate::json::JsonView;
use crate::pending::PendingTable;
use crate::router::{route, Routed, RoutedView, SessionUpdateEvent, SessionUpdateEventView};
use crate::text::single_line;
use crate::types::{JsonRpcError, JsonRpcErrorView, JsonRpcRequest};
use vstd::prelude::*;

verus! {

/// The number of lines that the outbound queue holds before a sender has to
/// wait.
pub const OUTBOUND_QUEUE_CAPACITY: usize = 64;

/// Where a connection stands in its life.
#[derive(Debug, Clone, Copy, PartialEq, Eq, Structural)]
pub enum ConnectionState {
    /// The subprocess is being started and its streams are being taken.
    Spawning,
    /// Requests and notifications are accepted.
    Ready,
    /// Shutdown has begun.
    ShuttingDown,
    /// The connection is gone for good.
    Closed,
}

/// A request that was registered and is ready to be queued.
#[derive(Debug)]
pub struct Dispatch {
    /// The id under which the response will come.
    pub id: u64,
    /// The line for the outbound queue, without the line break.
    pub line: String,
}

/// The content of a [`Dispatch`].
pub struct DispatchView {
    pub id: u64,
    pub line: Seq<char>,
}

impl View for Dispatch {
    type V = DispatchView;

    open spec fn view(&self) -> DispatchView {
        DispatchView { id: self.id, line: self.line@ }
    }
}

/// What the reader was given.
#[derive(Debug)]
pub enum ReaderEvent {
    /// One line of the subprocess's output, without its line break.
    Line(String),
    /// The output ended, or reading it failed.
    End,
}

/// The content of a [`ReaderEvent`].
pub enum ReaderEventView {
    Line(Seq<char>),
    End,
}

impl View for ReaderEvent {
    type V = ReaderEventView;

    open spec fn view(&self) -> ReaderEventView {
        match self {
            ReaderEvent::Line(line) => ReaderEventView::Line(line@),
            ReaderEvent::End => ReaderEventView::End,
        }
    }
}

/// What the reader has to do before it reads on.
pub enum ReaderAction<S> {
    /// Nothing: the line was blank.
    Skip,
    /// Note that the line was not a message, and read on.
    Malformed,
    /// Fulfil the slot with the outcome of its request.
    Complete { slot: S, outcome: Result<serde_json::Value, JsonRpcError> },
    /// Nothing: no request waits for the response `id`.
    Discard { id: u64 },
    /// Hand the event to the host's event sink, without waiting for it.
    Forward(SessionUpdateEvent),
    /// Queue the line for the agent, whether or not the queue takes it.
    Reply(String),
    /// Note that the agent called a method that this side does not know.
    UnknownMethod(String),
    /// Note that the message is neither a response nor a call: it names no
    /// method.
    Unroutable,
    /// Nothing: the call lacks what its method needs.
    Ignore,
    /// Stop reading.
    Stop,
}

/// The content of a [`ReaderAction`].
pub enum ReaderActionView<S> {
    Skip,
    Malformed,
    Complete { slot: S, outcome: Result<JsonView, JsonRpcErrorView> },
    Discard { id: u64 },
    Forward(SessionUpdateEventView),
    Reply(Seq<char>),
    UnknownMethod(Seq<char>),
    Unroutable,
    Ignore,
    Stop,
}

impl<S> View for ReaderAction<S> {
    type V = ReaderActionView<S>;

    open spec fn view(&self) -> ReaderActionView<S> {
        match self {
            ReaderAction::Skip => ReaderActionView::Skip,
            ReaderAction::Malformed => ReaderActionView::Malformed,
            ReaderAction::Complete { slot, outcome } => ReaderActionView::Complete {
                slot: *slot,
                outcome: outcome_view(*outcome),
            },
            ReaderAction::Discard { id } => ReaderActionView::Discard { id: *id },
            ReaderAction::Forward(event) => ReaderActionView::Forward(event@),
            ReaderAction::Reply(line) => ReaderActionView::Reply(line@),
            ReaderAction::UnknownMethod(method) => ReaderActionView::UnknownMethod(method@),
            ReaderAction::Unroutable => ReaderActionView::Unroutable,
            ReaderAction::Ignore => ReaderActionView::Ignore,
            ReaderAction::Stop => ReaderActionView::Stop,
        }
    }
}

/// One step of tearing a connection down.
#[derive(Debug, Clone, Copy, PartialEq, Eq, Structural)]
pub enum ShutdownStep {
    /// Take the process handle and kill the process.
    KillProcess,
    /// Abort the reader task.
    AbortReader,
    /// Abort the writer task.
    AbortWriter,
    /// Let every request that waited fail with a closed connection.
    FailPending,
}

/// What a shutdown asks of the host.
pub struct Shutdown<S> {
    /// The steps, in the order in which they are to be taken.
    pub steps: Vec<ShutdownStep>,
    /// The requests that waited. Dropping a slot unfulfilled fails its
    /// request with a closed connection.
    pub cancelled: PendingTable<S>,
}

/// The content of an [`AcpConnection`].
pub struct ConnectionView<S> {
    pub workspace_id: Seq<char>,
    pub state: ConnectionState,
    /// The id that the next request gets, or `None` once the last id of all
    /// is given out.
    pub next_id: Option<u64>,
    pub pending: Map<u64, S>,
}

impl<S> ConnectionView<S> {
    /// A connection that is about to start its subprocess.
    pub open spec fn fresh(workspace_id: Seq<char>) -> ConnectionView<S> {
        ConnectionView {
            workspace_id,
            state: ConnectionState::Spawning,
            next_id: Some(1),
            pending: Map::empty(),
        }
    }

    /// What holds of every connection: only a ready connection has requests
    /// that wait, and no id is taken before it is ready.
    pub open spec fn wf(self) -> bool {
        &&& self.state != ConnectionState::Ready ==> self.pending == Map::<u64, S>::empty()
        &&& self.state == ConnectionState::Spawning ==> self.next_id == Some(1u64)
    }

    /// The counter after the id `id` was taken: the next greater id, or
    /// nothing after the last id of all. The counter never starts over.
    pub open spec fn id_after(id: u64) -> Option<u64> {
        if id == u64::MAX {
            None
        } else {
            Some((id + 1) as u64)
        }
    }

    /// The connection after its next id was taken, if one is left.
    pub open spec fn counted(self) -> ConnectionView<S> {
        match self.next_id {
            Some(id) => ConnectionView { next_id: Self::id_after(id), ..self },
            None => self,
        }
    }

    /// The connection once the subprocess runs and both tasks are started.
    pub open spec fn launched(self) -> ConnectionView<S> {
        if self.state == ConnectionState::Spawning {
            ConnectionView { state: ConnectionState::Ready, ..self }
        } else {
            self
        }
    }

    /// The connection once the subprocess could not be started.
    pub open spec fn launch_failed(self) -> ConnectionView<S> {
        if self.state == ConnectionState::Spawning {
            ConnectionView { state: ConnectionState::Closed, ..self }
        } else {
            self
        }
    }

    /// Sending a request. A ready connection takes its next id, registers
    /// the slot under it and hands out the line. A connection that is shut
    /// down takes the id all the same and then refuses, since its queue is
    /// gone: nothing is registered and no line is made. A connection that
    /// is not yet ready refuses and stays as it is, and so does a ready one
    /// that has no id left.
    pub open spec fn send(self, method: Seq<char>, params: Option<JsonView>, slot: S) -> (
        ConnectionView<S>,
        Result<DispatchView, RpcErrorView>,
    ) {
        match self.state {
            ConnectionState::Spawning => (self, Err(RpcErrorView::ChannelClosed)),
            ConnectionState::ShuttingDown | ConnectionState::Closed => (
                self.counted(),
                Err(RpcErrorView::ChannelClosed),
            ),
            ConnectionState::Ready => match self.next_id {
                None => (self, Err(RpcErrorView::ChannelClosed)),
                Some(id) => (
                    ConnectionView { pending: self.pending.insert(id, slot), ..self.counted() },
                    Ok(DispatchView { id, line: request_line("2.0"@, id, method, params) }),
                ),
            },
        }
    }

    /// Sending a notification: the line to queue, from a ready connection.
    pub open spec fn notify(self, method: Seq<char>, params: Option<JsonView>) -> Result<
        Seq<char>,
        RpcErrorView,
    > {
        if self.state != ConnectionState::Ready {
            Err(RpcErrorView::ChannelClosed)
        } else {
            Ok(notification_line(method, params))
        }
    }

    /// What the reader does with a decoded line, and what becomes of the
    /// connection. Only a response to a request that waits changes the
    /// connection: the request leaves the table.
    pub open spec fn receive(self, inbound: InboundView) -> (
        ConnectionView<S>,
        ReaderActionView<S>,
    ) {
        match inbound {
            InboundView::Blank => (self, ReaderActionView::Skip),
            InboundView::Malformed => (self, ReaderActionView::Malformed),
            InboundView::Response { id, outcome } => if self.pending.contains_key(id) {
                (
                    ConnectionView { pending: self.pending.remove(id), ..self },
                    ReaderActionView::Complete { slot: self.pending[id], outcome },
                )
            } else {
                (self, ReaderActionView::Discard { id })
            },
            InboundView::Call { id, method, params } => (
                self,
                match RoutedView::of(id, method, params, self.workspace_id) {
                    RoutedView::Forward(event) => ReaderActionView::Forward(event),
                    RoutedView::Reply(line) => ReaderActionView::Reply(line),
                    RoutedView::UnknownMethod(method) => ReaderActionView::UnknownMethod(method),
                    RoutedView::Ignored => ReaderActionView::Ignore,
                },
            ),
            InboundView::Unroutable => (self, ReaderActionView::Unroutable),
        }
    }

    /// What the reader does with an event, and what becomes of the
    /// connection.
    pub open spec fn read(self, event: ReaderEventView) -> (
        ConnectionView<S>,
        ReaderActionView<S>,
    ) {
        match event {
            ReaderEventView::Line(line) => self.receive(InboundView::of_line(line)),
            ReaderEventView::End => (self, ReaderActionView::Stop),
        }
    }

    /// The steps of a shutdown, in order: a ready connection has a process
    /// and two tasks to stop; every connection has its table to clear.
    pub open spec fn shutdown_steps(self) -> Seq<ShutdownStep> {
        if self.state == ConnectionState::Ready {
            seq![
                ShutdownStep::KillProcess,
                ShutdownStep::AbortReader,
                ShutdownStep::AbortWriter,
                ShutdownStep::FailPending,
            ]
        } else {
            seq![ShutdownStep::FailPending]
        }
    }

    /// The connection after a shutdown was asked for.
    pub open spec fn shut_down(self) -> ConnectionView<S> {
        ConnectionView {
            state: if self.state == ConnectionState::Closed {
                ConnectionState::Closed
            } else {
                ConnectionState::ShuttingDown
            },
            pending: Map::empty(),
            ..self
        }
    }

    /// The connection once the steps of its shutdown are taken.
    pub open spec fn closed(self) -> ConnectionView<S> {
        if self.state == ConnectionState::ShuttingDown {
            ConnectionView { state: ConnectionState::Closed, ..self }
        } else {
            self
        }
    }
}

/// The protocol state of one connection. `S` is the host's completion slot:
/// what a waiting caller holds the other end of.
pub struct AcpConnection<S> {
    workspace_id: String,
    state: ConnectionState,
    next_id: Option<u64>,
    pending: PendingTable<S>,
}

impl<S> View for AcpConnection<S> {
    type V = ConnectionView<S>;

    closed spec fn view(&self) -> ConnectionView<S> {
        ConnectionView {
            workspace_id: self.workspace_id@,
            state: self.state,
            next_id: self.next_id,
            pending: self.pending@,
        }
    }
}

impl<S> AcpConnection<S> {
    /// A connection for the workspace, about to start its subprocess. Its
    /// first request will have the id 1.
    pub fn spawn(workspace_id: String) -> (connection: Self)
        ensures
            connection@ == ConnectionView::<S>::fresh(workspace_id@),
    {
        AcpConnection {
            workspace_id,
            state: ConnectionState::Spawning,
            next_id: Some(1),
            pending: PendingTable::new(),
        }
    }

    /// The workspace that the connection serves.
    pub fn workspace_id(&self) -> (id: &str)
        ensures
            id@ == self@.workspace_id,
    {
        self.workspace_id.as_str()
    }

    /// Where the connection stands in its life.
    pub fn state(&self) -> (state: ConnectionState)
        ensures
            state == self@.state,
    {
        self.state
    }

    /// The id that the next request gets, or `None` once the last id of all
    /// is given out.
    pub fn next_id(&self) -> (next: Option<u64>)
        ensures
            next == self@.next_id,
    {
        self.next_id
    }

    /// The number of requests that wait for a response.
    pub fn pending_count(&self) -> (count: usize)
        ensures
            count == self@.pending.len(),
    {
        self.pending.len()
    }

    /// Whether the request `id` waits for a response.
    pub fn is_pending(&self, id: u64) -> (waiting: bool)
        ensures
            waiting == self@.pending.contains_key(id),
    {
        self.pending.contains(id)
    }

    /// Records that the subprocess runs and that the reader and the writer
    /// are started: the connection is ready.
    pub fn launched(&mut self)
        ensures
            final(self)@ == old(self)@.launched(),
    {
        if self.state == ConnectionState::Spawning {
            self.state = ConnectionState::Ready;
        }
    }

    /// Records that the subprocess could not be started: the connection is
    /// closed without ever having been ready.
    pub fn launch_failed(&mut self)
        ensures
            final(self)@ == old(self)@.launch_failed(),
    {
        if self.state == ConnectionState::Spawning {
            self.state = ConnectionState::Closed;
        }
    }

    /// Begins a request: takes the next id, registers `slot` under that id
    /// and hands out the line to queue, which holds no line break. The slot
    /// is registered before the line exists outside, so that no response can
    /// come too early to be matched. On a ready connection that has an id
    /// left this succeeds. Any other connection refuses with `ChannelClosed`;
    /// one that is shut down has taken the id before it refuses.
    pub fn send_request(
        &mut self,
        method: &str,
        params: Option<serde_json::Value>,
        slot: S,
    ) -> (sent: Result<Dispatch, RpcError>)
        ensures
            final(self)@ == old(self)@.send(method@, document_view(params), slot).0,
            match sent {
                Ok(dispatch) => old(self)@.send(method@, document_view(params), slot).1 == Ok::<
                    DispatchView,
                    RpcErrorView,
                >(dispatch@),
                Err(error) => old(self)@.send(method@, document_view(params), slot).1 == Err::<
                    DispatchView,
                    RpcErrorView,
                >(error@),
            },
            sent matches Ok(dispatch) ==> single_line(dispatch.line@),
    {
        if self.state == ConnectionState::Spawning {
            return Err(RpcError::ChannelClosed);
        }
        let id = match self.next_id {
            Some(id) => id,
            None => return Err(RpcError::ChannelClosed),
        };
        self.next_id = if id == u64::MAX {
            None
        } else {
            Some(id + 1)
        };
        if self.state != ConnectionState::Ready {
            return Err(RpcError::ChannelClosed);
        }
        let _ = self.pending.insert(id, slot);
        let line = JsonRpcRequest::new(id, method, params).to_line();
        Ok(Dispatch { id, line })
    }

    /// Prepares a notification: the line to queue. Nothing is registered,
    /// since no response will come. A connection that is not ready refuses
    /// with `ChannelClosed`.
    pub fn send_notification(&self, method: &str, params: Option<serde_json::Value>) -> (sent:
        Result<String, RpcError>)
        ensures
            match sent {
                Ok(line) => self@.notify(method@, document_view(params)) == Ok::<
                    Seq<char>,
                    RpcErrorView,
                >(line@),
                Err(error) => self@.notify(method@, document_view(params)) == Err::<
                    Seq<char>,
                    RpcErrorView,
                >(error@),
            },
            sent matches Ok(line) ==> single_line(line@),
    {
        if self.state != ConnectionState::Ready {
            return Err(RpcError::ChannelClosed);
        }
        Ok(encode_notification(method, &params))
    }

    /// One step of the reader: what to do with the event that it was given.
    /// No line, however malformed, makes the reader stop; only the end of the
    /// output does.
    pub fn reader_task(&mut self, event: ReaderEvent) -> (action: ReaderAction<S>)
        ensures
            final(self)@ == old(self)@.read(event@).0,
            action@ == old(self)@.read(event@).1,
            action matches ReaderAction::Reply(line) ==> single_line(line@),
            event matches ReaderEvent::Line(line) && line@.len() == 0 ==> action@ is Skip,
    {
        let line = match event {
            ReaderEvent::Line(line) => line,
            ReaderEvent::End => return ReaderAction::Stop,
        };
        match decode_line(line.as_str()) {
            Inbound::Blank => ReaderAction::Skip,
            Inbound::Malformed => ReaderAction::Malformed,
            Inbound::Response { id, outcome } => match self.pending.remove(id) {
                Some(slot) => ReaderAction::Complete { slot, outcome },
                None => {
                    assert(self.pending@ =~= old(self).pending@);
                    ReaderAction::Discard { id }
                },
            },
            Inbound::Call { id, method, params } => match route(
                id,
                method,
                params,
                self.workspace_id.as_str(),
            ) {
                Routed::Forward(event) => ReaderAction::Forward(event),
                Routed::Reply(line) => ReaderAction::Reply(line),
                Routed::UnknownMethod(method) => ReaderAction::UnknownMethod(method),
                Routed::Ignored => ReaderAction::Ignore,
            },
            Inbound::Unroutable => ReaderAction::Unroutable,
        }
    }

    /// Begins the shutdown and says what the host has to do, in order: kill
    /// the process, abort the reader, abort the writer, and let every
    /// request that waits fail. Killing the process first makes the streams
    /// of both tasks invalid at once. A second call finds nothing left to
    /// stop.
    pub fn shutdown(&mut self) -> (shutdown: Shutdown<S>)
        ensures
            final(self)@ == old(self)@.shut_down(),
            shutdown.steps@ == old(self)@.shutdown_steps(),
            shutdown.cancelled@ == old(self)@.pending,
    {
        let mut steps: Vec<ShutdownStep> = Vec::new();
        if self.state == ConnectionState::Ready {
            steps.push(ShutdownStep::KillProcess);
            steps.push(ShutdownStep::AbortReader);
            steps.push(ShutdownStep::AbortWriter);
        }
        steps.push(ShutdownStep::FailPending);
        let cancelled = self.pending.clear();
        if self.state != ConnectionState::Closed {
            self.state = ConnectionState::ShuttingDown;
        }
        assert(steps@ =~= old(self)@.shutdown_steps());
        Shutdown { steps, cancelled }
    }

    /// Records that the steps of the shutdown are taken: the connection is
    /// closed.
    pub fn closed(&mut self)
        ensures
            final(self)@ == old(self)@.closed(),
    {
        if self.state == ConnectionState::ShuttingDown {
            self.state = ConnectionState::Closed;
        }
    }
}

} // verus!
