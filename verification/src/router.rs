//! The notification router: what to do with a message that the agent sends
//! of its own accord.
//!
//! Two methods are known. A session update is relayed to the host's event
//! sink. A permission request is granted at once and for good: the agent is a
//! subprocess that this side started, and is trusted without reserve. That is
//! a policy, decided here and nowhere else.

use crate::codec::{encode_permission_grant, permission_line};
use crate::fields::document_view;
use crate::json::{as_str, get, json_view, null, JsonView};
use crate::text::single_line;
use vstd::prelude::*;
use vstd::string::StringExecFns;

verus! {

/// The name under which session updates reach the host's event sink.
pub const SESSION_UPDATE_EVENT: &'static str = "acp:session-update";

/// A session update, as the host's event sink receives it.
#[derive(Debug, Clone)]
pub struct SessionUpdateEvent {
    pub workspace_id: String,
    pub session_id: String,
    pub update_type: String,
    pub payload: serde_json::Value,
}

/// The content of a [`SessionUpdateEvent`].
pub struct SessionUpdateEventView {
    pub workspace_id: Seq<char>,
    pub session_id: Seq<char>,
    pub update_type: Seq<char>,
    pub payload: JsonView,
}

impl View for SessionUpdateEvent {
    type V = SessionUpdateEventView;

    open spec fn view(&self) -> SessionUpdateEventView {
        SessionUpdateEventView {
            workspace_id: self.workspace_id@,
            session_id: self.session_id@,
            update_type: self.update_type@,
            payload: json_view(self.payload),
        }
    }
}

impl SessionUpdateEventView {
    /// The event for the parameters of a `session/update`. The payload is the
    /// member `update`, or `null` without one; the kind is the text under
    /// `sessionUpdate` in it, or `unknown`; the session is the text under
    /// `sessionId`, or empty.
    pub open spec fn of(params: JsonView, workspace_id: Seq<char>) -> SessionUpdateEventView {
        let update = params.member("update"@);
        SessionUpdateEventView {
            workspace_id,
            session_id: match params.member("sessionId"@) {
                Some(JsonView::String(id)) => id,
                _ => Seq::empty(),
            },
            update_type: match update {
                Some(body) => match body.member("sessionUpdate"@) {
                    Some(JsonView::String(kind)) => kind,
                    _ => "unknown"@,
                },
                None => "unknown"@,
            },
            payload: match update {
                Some(body) => body,
                None => JsonView::Null,
            },
        }
    }
}

/// Builds the event that relays a `session/update` with the given parameters
/// to the host.
pub fn handle_session_update(params: &serde_json::Value, workspace_id: &str) -> (event:
    SessionUpdateEvent)
    ensures
        event@ == SessionUpdateEventView::of(json_view(*params), workspace_id@),
{
    let update = get(params, "update");
    let update_type = match update {
        Some(body) => match get(body, "sessionUpdate") {
            Some(kind) => match as_str(kind) {
                Some(kind) => String::from_str(kind),
                None => String::from_str("unknown"),
            },
            None => String::from_str("unknown"),
        },
        None => String::from_str("unknown"),
    };
    let session_id = match get(params, "sessionId") {
        Some(id) => match as_str(id) {
            Some(id) => String::from_str(id),
            None => String::new(),
        },
        None => String::new(),
    };
    let payload = match update {
        Some(body) => body.clone(),
        None => null(),
    };
    SessionUpdateEvent {
        workspace_id: String::from_str(workspace_id),
        session_id,
        update_type,
        payload,
    }
}

/// What the router decided.
#[derive(Debug)]
pub enum Routed {
    /// Hand the event to the host's event sink, without waiting for it.
    Forward(SessionUpdateEvent),
    /// Queue the line for the agent.
    Reply(String),
    /// The method is not one that this side knows.
    UnknownMethod(String),
    /// A known method that lacks what is needed to act on it.
    Ignored,
}

/// The content of a [`Routed`].
pub enum RoutedView {
    Forward(SessionUpdateEventView),
    Reply(Seq<char>),
    UnknownMethod(Seq<char>),
    Ignored,
}

impl View for Routed {
    type V = RoutedView;

    open spec fn view(&self) -> RoutedView {
        match self {
            Routed::Forward(event) => RoutedView::Forward(event@),
            Routed::Reply(line) => RoutedView::Reply(line@),
            Routed::UnknownMethod(method) => RoutedView::UnknownMethod(method@),
            Routed::Ignored => RoutedView::Ignored,
        }
    }
}

impl RoutedView {
    /// The decision for a call of the agent. A `session/update` with
    /// parameters is forwarded; a `session/request_permission` with an id is
    /// answered with the grant for that id; either of them without that part
    /// is ignored; any other method is unknown.
    pub open spec fn of(
        id: Option<u64>,
        method: Seq<char>,
        params: Option<JsonView>,
        workspace_id: Seq<char>,
    ) -> RoutedView {
        if method == "session/update"@ {
            match params {
                Some(p) => RoutedView::Forward(SessionUpdateEventView::of(p, workspace_id)),
                None => RoutedView::Ignored,
            }
        } else if method == "session/request_permission"@ {
            match id {
                Some(id) => RoutedView::Reply(permission_line(id)),
                None => RoutedView::Ignored,
            }
        } else {
            RoutedView::UnknownMethod(method)
        }
    }
}

/// Decides what to do with a call of the agent.
pub fn route(
    id: Option<u64>,
    method: String,
    params: Option<serde_json::Value>,
    workspace_id: &str,
) -> (routed: Routed)
    ensures
        routed@ == RoutedView::of(id, method@, document_view(params), workspace_id@),
        routed matches Routed::Reply(line) ==> single_line(line@),
{
    if method == String::from_str("session/update") {
        match params {
            Some(p) => Routed::Forward(handle_session_update(&p, workspace_id)),
            None => Routed::Ignored,
        }
    } else if method == String::from_str("session/request_permission") {
        match id {
            Some(id) => Routed::Reply(encode_permission_grant(id)),
            None => Routed::Ignored,
        }
    } else {
        Routed::UnknownMethod(method)
    }
}

} // verus!
