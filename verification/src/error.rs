//! The failures that callers see.

use crate::json::{json_view, JsonView};
use crate::types::{JsonRpcError, JsonRpcErrorView};
use vstd::prelude::*;
use vstd::string::StringExecFns;

verus! {

/// Why a request or a notification failed.
#[derive(Debug)]
pub enum RpcError {
    /// The outbound queue has been torn down: nothing can be sent any more.
    ChannelClosed,
    /// No response came within the time allowed.
    Timeout { method: String },
    /// The connection was shut down while the request was waiting.
    ConnectionClosed,
    /// The other side answered with an error object.
    RemoteError(JsonRpcError),
}

/// The content of an [`RpcError`].
pub enum RpcErrorView {
    ChannelClosed,
    Timeout { method: Seq<char> },
    ConnectionClosed,
    RemoteError(JsonRpcErrorView),
}

impl View for RpcError {
    type V = RpcErrorView;

    open spec fn view(&self) -> RpcErrorView {
        match self {
            RpcError::ChannelClosed => RpcErrorView::ChannelClosed,
            RpcError::Timeout { method } => RpcErrorView::Timeout { method: method@ },
            RpcError::ConnectionClosed => RpcErrorView::ConnectionClosed,
            RpcError::RemoteError(error) => RpcErrorView::RemoteError(error@),
        }
    }
}

impl RpcErrorView {
    /// The message shown for the failure.
    pub open spec fn description(self) -> Seq<char> {
        match self {
            RpcErrorView::ChannelClosed => "Writer channel closed"@,
            RpcErrorView::Timeout { method } => "Timeout waiting for response to "@ + method,
            RpcErrorView::ConnectionClosed => "Response channel dropped"@,
            RpcErrorView::RemoteError(error) => error.description(),
        }
    }
}

impl RpcError {
    /// The message shown for the failure.
    pub fn describe(&self) -> (text: String)
        ensures
            text@ == self@.description(),
    {
        match self {
            RpcError::ChannelClosed => String::from_str("Writer channel closed"),
            RpcError::Timeout { method } => {
                let mut text = String::from_str("Timeout waiting for response to ");
                text.append(method.as_str());
                text
            },
            RpcError::ConnectionClosed => String::from_str("Response channel dropped"),
            RpcError::RemoteError(error) => error.describe(),
        }
    }
}

/// Why a lookup in the registry failed.
#[derive(Debug, Clone, Copy, PartialEq, Eq, Structural)]
pub enum LookupError {
    /// No live connection exists for the workspace.
    NotConnected,
}

impl LookupError {
    /// The message shown for the failure.
    pub fn describe(&self) -> (text: String)
        ensures
            text@ == "Not connected"@,
    {
        String::from_str("Not connected")
    }
}

/// Why the result of a call could not be used.
#[derive(Debug, Clone, Copy, PartialEq, Eq, Structural)]
pub enum ReplyError {
    /// The result does not describe a session.
    InvalidSessionInfo,
}

impl ReplyError {
    /// The message shown for the failure.
    pub fn describe(&self) -> (text: String)
        ensures
            text@ == "Failed to parse session info"@,
    {
        String::from_str("Failed to parse session info")
    }
}

/// Why a connection could not be brought up.
#[derive(Debug)]
pub enum ConnectError {
    /// The process could not be started, or its streams could not be taken.
    SpawnFailure { reason: String },
    /// The handshake failed; the process that had been started is killed.
    HandshakeFailure(RpcError),
}

/// The content of a [`ConnectError`].
pub enum ConnectErrorView {
    SpawnFailure { reason: Seq<char> },
    HandshakeFailure(RpcErrorView),
}

impl View for ConnectError {
    type V = ConnectErrorView;

    open spec fn view(&self) -> ConnectErrorView {
        match self {
            ConnectError::SpawnFailure { reason } => ConnectErrorView::SpawnFailure {
                reason: reason@,
            },
            ConnectError::HandshakeFailure(error) => ConnectErrorView::HandshakeFailure(error@),
        }
    }
}

impl ConnectErrorView {
    /// The message shown for the failure.
    pub open spec fn description(self) -> Seq<char> {
        match self {
            ConnectErrorView::SpawnFailure { reason } => reason,
            ConnectErrorView::HandshakeFailure(error) => error.description(),
        }
    }
}

impl ConnectError {
    /// The message shown for the failure.
    pub fn describe(&self) -> (text: String)
        ensures
            text@ == self@.description(),
    {
        match self {
            ConnectError::SpawnFailure { reason } => reason.clone(),
            ConnectError::HandshakeFailure(error) => error.describe(),
        }
    }
}

/// How the wait for a response ended.
#[derive(Debug)]
pub enum Completion {
    /// The outbound queue was closed before the request could be queued.
    NotQueued,
    /// The response arrived.
    Answered(Result<serde_json::Value, JsonRpcError>),
    /// The time allowed ran out.
    Elapsed,
    /// The completion slot was dropped unfulfilled.
    Dropped,
}

/// The seconds that a request waits for its response.
pub const REQUEST_TIMEOUT_SECS: u64 = 30;

/// What the caller of a request gets for each way in which the wait ends.
pub open spec fn outcome_of(method: Seq<char>, completion: Completion) -> Result<
    JsonView,
    RpcErrorView,
> {
    match completion {
        Completion::NotQueued => Err(RpcErrorView::ChannelClosed),
        Completion::Answered(Ok(value)) => Ok(json_view(value)),
        Completion::Answered(Err(error)) => Err(RpcErrorView::RemoteError(error@)),
        Completion::Elapsed => Err(RpcErrorView::Timeout { method }),
        Completion::Dropped => Err(RpcErrorView::ConnectionClosed),
    }
}

/// The content of what a request returns.
pub open spec fn reply_view(reply: Result<serde_json::Value, RpcError>) -> Result<
    JsonView,
    RpcErrorView,
> {
    match reply {
        Ok(value) => Ok(json_view(value)),
        Err(error) => Err(error@),
    }
}

/// Turns the end of a wait into what the caller of the request gets: the
/// result of the response, the remote error as it came, a timeout that names
/// the method, or the failure of a connection that was closed meanwhile.
pub fn request_outcome(method: &str, completion: Completion) -> (reply: Result<
    serde_json::Value,
    RpcError,
>)
    ensures
        reply_view(reply) == outcome_of(method@, completion),
{
    match completion {
        Completion::NotQueued => Err(RpcError::ChannelClosed),
        Completion::Answered(Ok(value)) => Ok(value),
        Completion::Answered(Err(error)) => Err(RpcError::RemoteError(error)),
        Completion::Elapsed => Err(RpcError::Timeout { method: String::from_str(method) }),
        Completion::Dropped => Err(RpcError::ConnectionClosed),
    }
}

/// What the caller of a notification gets: success once the line is queued,
/// `ChannelClosed` where the queue did not take it.
pub fn notification_outcome(queued: bool) -> (reply: Result<(), RpcError>)
    ensures
        reply is Ok <==> queued,
        reply matches Err(error) ==> error@ == RpcErrorView::ChannelClosed,
{
    if queued {
        Ok(())
    } else {
        Err(RpcError::ChannelClosed)
    }
}

} // verus!
