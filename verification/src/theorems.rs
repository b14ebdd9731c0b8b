//! What holds of a connection over any course of events.
//!
//! A course of events is a sequence of steps, each one of the operations of
//! a connection. The statements below speak of the connection's content
//! after any number of them, whatever they are and in whatever order they
//! come.

use crate::codec::{request_line, InboundView};
use crate::commands::{connect_plan, ConnectPlanView};
use crate::connection::{
    ConnectionState, ConnectionView, DispatchView, ReaderActionView, ReaderEventView,
    ShutdownStep,
};
use crate::error::{outcome_of, Completion, RpcErrorView};
use crate::handshake::{
    initialize_call, initialized_call, ConnectActionView, ConnectEvent, ConnectPhase,
    HandshakeView,
};
use crate::json::JsonView;
use crate::types::JsonRpcErrorView;
use vstd::prelude::*;

verus! {

/// One operation on a connection.
pub enum Step<S> {
    /// The subprocess was started.
    Launched,
    /// The subprocess could not be started.
    LaunchFailed,
    /// A request is sent, with the slot that waits for its response.
    Send { method: Seq<char>, params: Option<JsonView>, slot: S },
    /// The reader is given an event.
    Read(ReaderEventView),
    /// The connection is shut down.
    Shutdown,
    /// The steps of the shutdown are taken.
    Closed,
}

/// The connection after one step.
pub open spec fn after<S>(connection: ConnectionView<S>, step: Step<S>) -> ConnectionView<S> {
    match step {
        Step::Launched => connection.launched(),
        Step::LaunchFailed => connection.launch_failed(),
        Step::Send { method, params, slot } => connection.send(method, params, slot).0,
        Step::Read(event) => connection.read(event).0,
        Step::Shutdown => connection.shut_down(),
        Step::Closed => connection.closed(),
    }
}

/// The connection after the first `count` steps.
pub open spec fn after_steps<S>(
    connection: ConnectionView<S>,
    steps: Seq<Step<S>>,
    count: int,
) -> ConnectionView<S>
    decreases count,
{
    if count <= 0 {
        connection
    } else {
        after(after_steps(connection, steps, count - 1), steps[count - 1])
    }
}

/// How far the counter of ids has come: the id that is next, or one more
/// than the last id of all once every id is given out.
pub open spec fn ids_taken<S>(connection: ConnectionView<S>) -> int {
    match connection.next_id {
        Some(id) => id as int,
        None => u64::MAX + 1,
    }
}

/// The id that the step at `at` handed out, if it is a request that was
/// accepted.
pub open spec fn id_given<S>(
    connection: ConnectionView<S>,
    steps: Seq<Step<S>>,
    at: int,
) -> Option<u64> {
    match steps[at] {
        Step::Send { method, params, slot } => match after_steps(connection, steps, at).send(
            method,
            params,
            slot,
        ).1 {
            Ok(dispatch) => Some(dispatch.id),
            Err(_) => None,
        },
        _ => None,
    }
}

/// Whether the step is the arrival of a response to the request `id`.
pub open spec fn answers<S>(step: Step<S>, id: u64) -> bool {
    step matches Step::Read(ReaderEventView::Line(line)) && InboundView::of_line(line)
        matches InboundView::Response { id: answered, .. } && answered == id
}

/// What the reader does at the step at `at`, if that step gives it an event.
pub open spec fn reader_action<S>(
    connection: ConnectionView<S>,
    steps: Seq<Step<S>>,
    at: int,
) -> Option<ReaderActionView<S>> {
    match steps[at] {
        Step::Read(event) => Some(after_steps(connection, steps, at).read(event).1),
        _ => None,
    }
}

proof fn lemma_counter_grows<S>(
    connection: ConnectionView<S>,
    steps: Seq<Step<S>>,
    low: int,
    high: int,
)
    requires
        0 <= low <= high,
    ensures
        ids_taken(after_steps(connection, steps, low)) <= ids_taken(
            after_steps(connection, steps, high),
        ),
    decreases high - low,
{
    if low < high {
        lemma_counter_grows(connection, steps, low, high - 1);
    }
}

proof fn lemma_id_is_passed<S>(connection: ConnectionView<S>, steps: Seq<Step<S>>, at: int)
    requires
        0 <= at < steps.len(),
        id_given(connection, steps, at) is Some,
    ensures
        after_steps(connection, steps, at).next_id == id_given(connection, steps, at),
        id_given(connection, steps, at).unwrap() < ids_taken(
            after_steps(connection, steps, at + 1),
        ),
{
}

/// A connection is well formed in every state: only a ready connection has
/// requests that wait, and none has given out an id before it was ready.
pub proof fn well_formed_in_every_state<S>(
    workspace_id: Seq<char>,
    steps: Seq<Step<S>>,
    count: int,
)
    requires
        0 <= count <= steps.len(),
    ensures
        after_steps(ConnectionView::<S>::fresh(workspace_id), steps, count).wf(),
    decreases count,
{
    if count > 0 {
        well_formed_in_every_state(workspace_id, steps, count - 1);
        let before = after_steps(ConnectionView::<S>::fresh(workspace_id), steps, count - 1);
        match steps[count - 1] {
            Step::Read(ReaderEventView::Line(line)) => {
                match InboundView::of_line(line) {
                    InboundView::Response { id, outcome } => {
                        if before.state != ConnectionState::Ready {
                            assert(!before.pending.contains_key(id));
                        }
                    },
                    _ => {},
                }
            },
            _ => {},
        }
    }
}

/// The ids of one connection are strictly increasing, and so none is given
/// out twice: of two requests that were accepted, the later has the greater
/// id, whatever happened between them.
pub proof fn request_ids_increase<S>(
    connection: ConnectionView<S>,
    steps: Seq<Step<S>>,
    earlier: int,
    later: int,
)
    requires
        0 <= earlier < later < steps.len(),
        id_given(connection, steps, earlier) is Some,
        id_given(connection, steps, later) is Some,
    ensures
        id_given(connection, steps, earlier).unwrap() < id_given(
            connection,
            steps,
            later,
        ).unwrap(),
{
    lemma_id_is_passed(connection, steps, earlier);
    lemma_id_is_passed(connection, steps, later);
    lemma_counter_grows(connection, steps, earlier + 1, later);
}

/// The first request that a connection accepts has the id 1.
pub proof fn first_request_has_id_one<S>(workspace_id: Seq<char>, steps: Seq<Step<S>>, at: int)
    requires
        0 <= at < steps.len(),
        id_given(ConnectionView::<S>::fresh(workspace_id), steps, at) is Some,
        forall|k: int|
            0 <= k < at ==> id_given(ConnectionView::<S>::fresh(workspace_id), steps, k) is None,
    ensures
        id_given(ConnectionView::<S>::fresh(workspace_id), steps, at) == Some(1u64),
{
    lemma_first_id(workspace_id, steps, at);
}

proof fn lemma_first_id<S>(workspace_id: Seq<char>, steps: Seq<Step<S>>, count: int)
    requires
        0 <= count <= steps.len(),
        forall|k: int|
            0 <= k < count ==> id_given(ConnectionView::<S>::fresh(workspace_id), steps, k) is None,
    ensures
        ({
            let now = after_steps(ConnectionView::<S>::fresh(workspace_id), steps, count);
            now.next_id == Some(1u64) || now.state == ConnectionState::ShuttingDown || now.state
                == ConnectionState::Closed
        }),
    decreases count,
{
    if count > 0 {
        lemma_first_id(workspace_id, steps, count - 1);
        assert(id_given(ConnectionView::<S>::fresh(workspace_id), steps, count - 1) is None);
    }
}

proof fn lemma_waiting_ids_are_past<S>(
    connection: ConnectionView<S>,
    steps: Seq<Step<S>>,
    count: int,
)
    requires
        0 <= count <= steps.len(),
        forall|id: u64| connection.pending.contains_key(id) ==> id < ids_taken(connection),
    ensures
        forall|id: u64| #[trigger]
            after_steps(connection, steps, count).pending.contains_key(id) ==> id < ids_taken(
                after_steps(connection, steps, count),
            ),
    decreases count,
{
    if count > 0 {
        lemma_waiting_ids_are_past(connection, steps, count - 1);
    }
}

/// A request that is accepted gets an id under which nothing waits: every
/// id is free when it is given out.
pub proof fn accepted_request_gets_a_free_id<S>(
    workspace_id: Seq<char>,
    steps: Seq<Step<S>>,
    at: int,
)
    requires
        0 <= at < steps.len(),
        id_given(ConnectionView::<S>::fresh(workspace_id), steps, at) is Some,
    ensures
        !after_steps(ConnectionView::<S>::fresh(workspace_id), steps, at).pending.contains_key(
            id_given(ConnectionView::<S>::fresh(workspace_id), steps, at).unwrap(),
        ),
{
    lemma_waiting_ids_are_past(ConnectionView::<S>::fresh(workspace_id), steps, at);
    lemma_id_is_passed(ConnectionView::<S>::fresh(workspace_id), steps, at);
}

/// Every call of a request takes an id, also one that a connection refuses
/// because it is shut down: only a connection that is not yet ready, or has
/// no id left, keeps its counter where it was.
pub proof fn refused_request_takes_its_id<S>(
    connection: ConnectionView<S>,
    method: Seq<char>,
    params: Option<JsonView>,
    slot: S,
)
    requires
        connection.state == ConnectionState::ShuttingDown || connection.state
            == ConnectionState::Closed,
    ensures
        connection.send(method, params, slot).1 == Err::<DispatchView, RpcErrorView>(
            RpcErrorView::ChannelClosed,
        ),
        connection.send(method, params, slot).0 == connection.counted(),
        connection.next_id matches Some(id) ==> ids_taken(connection.send(method, params, slot).0)
            == id + 1,
{
}

/// A ready connection that has an id left accepts every request: it hands
/// out a line under that id and registers the slot.
pub proof fn ready_connection_accepts<S>(
    connection: ConnectionView<S>,
    method: Seq<char>,
    params: Option<JsonView>,
    slot: S,
)
    requires
        connection.state == ConnectionState::Ready,
        connection.next_id is Some,
    ensures
        connection.send(method, params, slot).1 == Ok::<DispatchView, RpcErrorView>(
            DispatchView {
                id: connection.next_id.unwrap(),
                line: request_line("2.0"@, connection.next_id.unwrap(), method, params),
            },
        ),
        connection.send(method, params, slot).0.pending == connection.pending.insert(
            connection.next_id.unwrap(),
            slot,
        ),
{
}

/// A response to a request that does not wait, because it never did or
/// because it was answered or cancelled before, is dropped and changes
/// nothing.
pub proof fn stray_response_is_discarded<S>(
    connection: ConnectionView<S>,
    id: u64,
    outcome: Result<JsonView, JsonRpcErrorView>,
)
    requires
        !connection.pending.contains_key(id),
    ensures
        connection.receive(InboundView::Response { id, outcome }) == (
            connection,
            ReaderActionView::<S>::Discard { id },
        ),
{
}

proof fn lemma_request_keeps_waiting<S>(
    connection: ConnectionView<S>,
    steps: Seq<Step<S>>,
    sent: int,
    until: int,
)
    requires
        0 <= sent < until <= steps.len(),
        id_given(connection, steps, sent) is Some,
        forall|k: int|
            sent < k < until ==> !(#[trigger] steps[k] is Shutdown) && !answers(
                steps[k],
                id_given(connection, steps, sent).unwrap(),
            ),
    ensures
        after_steps(connection, steps, until).pending.contains_key(
            id_given(connection, steps, sent).unwrap(),
        ),
        after_steps(connection, steps, until).pending[id_given(connection, steps, sent).unwrap()]
            == steps[sent]->Send_slot,
        after_steps(connection, steps, until).state == ConnectionState::Ready,
    decreases until - sent,
{
    let id = id_given(connection, steps, sent).unwrap();
    if until == sent + 1 {
    } else {
        lemma_request_keeps_waiting(connection, steps, sent, until - 1);
        let before = after_steps(connection, steps, until - 1);
        lemma_id_is_passed(connection, steps, sent);
        lemma_counter_grows(connection, steps, sent + 1, until - 1);
        assert(ids_taken(before) > id);
        match steps[until - 1] {
            Step::Read(ReaderEventView::Line(line)) => {
                assert(!answers(steps[until - 1], id));
            },
            Step::Shutdown => {
                assert(steps[until - 1] is Shutdown);
            },
            _ => {},
        }
    }
}

/// Every response reaches the request that it answers, in whatever order
/// requests and responses come. Take a request that was accepted and the
/// first response after it that carries its id, with no shutdown between the
/// two: whatever else was sent and received meanwhile, the reader fulfils
/// the slot of that request, with the outcome that the response holds.
pub proof fn response_reaches_its_request<S>(
    connection: ConnectionView<S>,
    steps: Seq<Step<S>>,
    sent: int,
    answered: int,
    outcome: Result<JsonView, JsonRpcErrorView>,
)
    requires
        0 <= sent < answered < steps.len(),
        id_given(connection, steps, sent) is Some,
        steps[answered] matches Step::Read(ReaderEventView::Line(line)) && InboundView::of_line(
            line,
        ) == (InboundView::Response {
            id: id_given(connection, steps, sent).unwrap(),
            outcome,
        }),
        forall|k: int|
            sent < k < answered ==> !(#[trigger] steps[k] is Shutdown) && !answers(
                steps[k],
                id_given(connection, steps, sent).unwrap(),
            ),
    ensures
        reader_action(connection, steps, answered) == Some(
            ReaderActionView::Complete { slot: steps[sent]->Send_slot, outcome },
        ),
        !after_steps(connection, steps, answered + 1).pending.contains_key(
            id_given(connection, steps, sent).unwrap(),
        ),
{
    lemma_request_keeps_waiting(connection, steps, sent, answered);
}

/// A request that gets no response keeps no other request from getting
/// its own: the reader fulfils a waiting request whatever else waits, and
/// leaves every other waiting request as it is.
pub proof fn unanswered_requests_block_nothing<S>(
    connection: ConnectionView<S>,
    id: u64,
    outcome: Result<JsonView, JsonRpcErrorView>,
    other: u64,
)
    requires
        connection.pending.contains_key(id),
        connection.pending.contains_key(other),
        other != id,
    ensures
        connection.receive(InboundView::Response { id, outcome }).1 == (
        ReaderActionView::Complete { slot: connection.pending[id], outcome }),
        connection.receive(InboundView::Response { id, outcome }).0.pending.contains_key(other),
        connection.receive(InboundView::Response { id, outcome }).0.pending[other]
            == connection.pending[other],
        connection.receive(InboundView::Response { id, outcome }).0.state == connection.state,
{
}

/// A wait that runs out of time fails with a timeout that names the method,
/// and a wait whose slot was dropped fails with a closed connection.
pub proof fn waits_end_in_failures(method: Seq<char>)
    ensures
        outcome_of(method, Completion::Elapsed) == Err::<JsonView, RpcErrorView>(
            RpcErrorView::Timeout { method },
        ),
        outcome_of(method, Completion::Dropped) == Err::<JsonView, RpcErrorView>(
            RpcErrorView::ConnectionClosed,
        ),
{
}

/// A shutdown leaves no request waiting, fails every request that waited by
/// handing its slot out to be dropped, and ends the taking of requests: kill
/// first, then the two tasks, then the requests. A second shutdown finds
/// nothing to stop.
pub proof fn shutdown_fails_every_waiting_request<S>(
    connection: ConnectionView<S>,
    method: Seq<char>,
    params: Option<JsonView>,
    slot: S,
)
    ensures
        connection.shut_down().pending == Map::<u64, S>::empty(),
        connection.shut_down().state != ConnectionState::Ready,
        connection.shut_down().send(method, params, slot).1 == Err::<DispatchView, RpcErrorView>(
            RpcErrorView::ChannelClosed,
        ),
        connection.shut_down().send(method, params, slot).0.pending == Map::<u64, S>::empty(),
        connection.state == ConnectionState::Ready ==> connection.shutdown_steps() == seq![
            ShutdownStep::KillProcess,
            ShutdownStep::AbortReader,
            ShutdownStep::AbortWriter,
            ShutdownStep::FailPending,
        ],
        connection.shut_down().shutdown_steps() == seq![ShutdownStep::FailPending],
        connection.shut_down().shut_down() == connection.shut_down(),
{
}

/// A line that is no message, be it cut off, no JSON at all or JSON of
/// another shape, does not end the reader and changes nothing: the reader
/// notes it and reads on, and a response that comes after it still reaches
/// the request that waits for it.
pub proof fn malformed_line_is_survived<S>(
    connection: ConnectionView<S>,
    malformed: Seq<char>,
    response: Seq<char>,
    id: u64,
    outcome: Result<JsonView, JsonRpcErrorView>,
)
    requires
        InboundView::of_line(malformed) is Malformed,
        connection.pending.contains_key(id),
        InboundView::of_line(response) == (InboundView::Response { id, outcome }),
    ensures
        connection.read(ReaderEventView::Line(malformed)) == (
            connection,
            ReaderActionView::<S>::Malformed,
        ),
        connection.read(ReaderEventView::Line(malformed)).0.read(
            ReaderEventView::Line(response),
        ).1 == (ReaderActionView::Complete { slot: connection.pending[id], outcome }),
{
}

/// No line ends the reader, whatever it holds: only the end of the output
/// does.
pub proof fn only_the_end_stops_the_reader<S>(connection: ConnectionView<S>, line: Seq<char>)
    ensures
        !(connection.read(ReaderEventView::Line(line)).1 is Stop),
        connection.read(ReaderEventView::End).1 is Stop,
{
}

/// The bringing up of a connection takes three steps in a fixed order, and
/// only their common success lets the connection into the registry: start
/// the subprocess, send `initialize` and get its response, send
/// `initialized`.
pub proof fn handshake_precedes_the_registry(
    binary: Seq<char>,
    reply: serde_json::Value,
)
    ensures
        ({
            let start = HandshakeView { phase: ConnectPhase::Spawning, binary };
            let spawned = start.next(ConnectEvent::Spawned);
            let replied = spawned.0.next(ConnectEvent::InitializeReplied(Ok(reply)));
            let announced = replied.0.next(ConnectEvent::InitializedSent(Ok(())));
            &&& spawned.1 == ConnectActionView::SendInitialize(initialize_call())
            &&& replied.1 == ConnectActionView::SendInitialized(initialized_call())
            &&& announced.1 == ConnectActionView::Insert
            &&& announced.0.phase == ConnectPhase::Connected
        }),
{
}

/// A bringing up that fails never reaches the registry, and kills the
/// process wherever it was started: whatever the event, the action is to
/// insert only where the phase becomes `Connected`, and an abort after the
/// start of the subprocess asks for the kill.
pub proof fn failed_handshake_is_discarded(handshake: HandshakeView, event: ConnectEvent)
    ensures
        handshake.next(event).1 is Insert <==> handshake.phase == ConnectPhase::Announcing
            && handshake.next(event).0.phase == ConnectPhase::Connected,
        handshake.next(event).1 matches ConnectActionView::Abort { kill, .. } ==> {
            &&& handshake.next(event).0.phase == ConnectPhase::Failed
            &&& kill == (handshake.phase != ConnectPhase::Spawning)
        },
{
}

/// Connecting a workspace twice starts one subprocess: once the connection
/// of the first call is in the registry, the second call finds it and has
/// nothing to do.
pub proof fn second_connect_starts_nothing<C>(
    state: Map<Seq<char>, C>,
    workspace_id: Seq<char>,
    connection: C,
    binary: Option<Seq<char>>,
    cwd: Seq<char>,
)
    ensures
        connect_plan(state.insert(workspace_id, connection), workspace_id, binary, cwd)
            == ConnectPlanView::AlreadyConnected,
        connect_plan(state, workspace_id, binary, cwd) is Launch <==> !state.contains_key(
            workspace_id,
        ),
{
}

} // verus!
