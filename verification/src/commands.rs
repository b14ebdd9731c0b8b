//! The operations that the host offers on the registry: connecting and
//! disconnecting a workspace, and the calls about sessions.
//!
//! A call about a session has two halves around the host's waiting: the
//! first finds the connection and says what to send, the second reads what
//! came back.

use crate::error::{LookupError, ReplyError};
use crate::handshake::{LaunchConfig, LaunchConfigView, RpcCall, RpcCallView};
use crate::fields::text_view;
use crate::json::{get, json_view, object_of, views_of, JsonView};
use crate::params::{
    prompt_documents, CancelParams, ListSessionsParams, LoadSessionParams, NewSessionParams,
    PromptContent, PromptParams, SetSessionModeParams,
};
use crate::registry::AcpState;
use crate::session::{
    summary_views, SessionInfo, SessionInfoView, SessionSummary, SessionSummaryView,
};
use vstd::prelude::*;
use vstd::string::StringExecFns;

verus! {

/// What connecting a workspace begins with.
#[derive(Debug)]
pub enum ConnectPlan {
    /// The workspace has a live connection: there is nothing to do.
    AlreadyConnected,
    /// Start the subprocess as the configuration says, then shake hands.
    Launch(LaunchConfig),
}

/// The content of a [`ConnectPlan`].
pub enum ConnectPlanView {
    AlreadyConnected,
    Launch(LaunchConfigView),
}

impl View for ConnectPlan {
    type V = ConnectPlanView;

    open spec fn view(&self) -> ConnectPlanView {
        match self {
            ConnectPlan::AlreadyConnected => ConnectPlanView::AlreadyConnected,
            ConnectPlan::Launch(config) => ConnectPlanView::Launch(config@),
        }
    }
}

/// What connecting a workspace begins with: nothing where the workspace has
/// a live connection, else the launch of its agent.
pub open spec fn connect_plan<C>(
    state: Map<Seq<char>, C>,
    workspace_id: Seq<char>,
    binary: Option<Seq<char>>,
    cwd: Seq<char>,
) -> ConnectPlanView {
    if state.contains_key(workspace_id) {
        ConnectPlanView::AlreadyConnected
    } else {
        ConnectPlanView::Launch(LaunchConfigView::for_agent(binary, cwd))
    }
}

/// Begins to connect a workspace. A workspace that has a live connection
/// keeps it, and nothing is started; any other gets the launch of its agent.
pub fn acp_connect<C>(
    state: &AcpState<C>,
    workspace_id: &str,
    binary: Option<String>,
    cwd: String,
) -> (plan: ConnectPlan)
    ensures
        plan@ == connect_plan(state@, workspace_id@, text_view(binary), cwd@),
{
    if state.contains(workspace_id) {
        ConnectPlan::AlreadyConnected
    } else {
        ConnectPlan::Launch(LaunchConfig::for_agent(binary, cwd))
    }
}

/// Takes the connection of the workspace out of the registry and hands it
/// out, for the host to shut down. Without one, nothing happens.
pub fn acp_disconnect<C>(state: &mut AcpState<C>, workspace_id: &str) -> (removed: Option<C>)
    ensures
        final(state)@ == old(state)@.remove(workspace_id@),
        removed == if old(state)@.contains_key(workspace_id@) {
            Some(old(state)@[workspace_id@])
        } else {
            None
        },
{
    state.remove(workspace_id)
}

/// Takes every connection out of the registry and hands them out with their
/// workspaces, each one once, for the host to shut down.
pub fn disconnect_all<C>(state: &mut AcpState<C>) -> (removed: Vec<(String, C)>)
    ensures
        final(state)@ == Map::<Seq<char>, C>::empty(),
        old(state)@.dom().finite(),
        removed.len() == old(state)@.len(),
        forall|i: int|
            0 <= i < removed.len() ==> old(state)@.contains_key((#[trigger] removed[i]).0@)
                && old(state)@[removed[i].0@] == removed[i].1,
        forall|i: int, j: int|
            0 <= i < j < removed.len() ==> (#[trigger] removed[i]).0@ != (
            #[trigger] removed[j]).0@,
{
    state.drain()
}

/// Whether `planned` is what a call on the workspace begins with: the
/// connection of the workspace and the call, or `NotConnected` where the
/// workspace has no connection.
pub open spec fn planned_on<C>(
    state: Map<Seq<char>, C>,
    workspace_id: Seq<char>,
    call: RpcCallView,
    planned: Result<(&C, RpcCall), LookupError>,
) -> bool {
    match planned {
        Ok((connection, made)) => state.contains_key(workspace_id) && *connection
            == state[workspace_id] && made@ == call,
        Err(error) => !state.contains_key(workspace_id) && error == LookupError::NotConnected,
    }
}

fn plan<'a, C>(state: &'a AcpState<C>, workspace_id: &str, call: RpcCall) -> (planned: Result<
    (&'a C, RpcCall),
    LookupError,
>)
    ensures
        planned_on(state@, workspace_id@, call@, planned),
{
    match state.connection(workspace_id) {
        Ok(connection) => Ok((connection, call)),
        Err(error) => Err(error),
    }
}

/// The request `session/new` for a directory, without servers.
pub open spec fn new_session_call(cwd: Seq<char>) -> RpcCallView {
    RpcCallView {
        method: "session/new"@,
        params: Some(
            JsonView::Object(
                object_of(
                    seq![
                        ("cwd"@, JsonView::String(cwd)),
                        ("mcpServers"@, JsonView::Array(Seq::empty())),
                    ],
                ),
            ),
        ),
    }
}

/// Begins `session/new`: a new session in the directory `cwd`.
pub fn acp_new_session<'a, C>(state: &'a AcpState<C>, workspace_id: &str, cwd: String) -> (planned:
    Result<(&'a C, RpcCall), LookupError>)
    ensures
        planned_on(state@, workspace_id@, new_session_call(cwd@), planned),
{
    let params = NewSessionParams { cwd, mcp_servers: Vec::new() };
    assert(views_of(params.mcp_servers@) =~= Seq::empty());
    let call = RpcCall { method: String::from_str("session/new"), params: Some(params.to_value()) };
    plan(state, workspace_id, call)
}

/// Reads the result of `session/new`: the descriptor of the session.
pub fn new_session_result(result: &serde_json::Value) -> (read: Result<SessionInfo, ReplyError>)
    ensures
        match read {
            Ok(info) => SessionInfoView::of(json_view(*result)) == Some(info@),
            Err(error) => SessionInfoView::of(json_view(*result)) is None && error
                == ReplyError::InvalidSessionInfo,
        },
{
    match SessionInfo::from_value(result) {
        Some(info) => Ok(info),
        None => Err(ReplyError::InvalidSessionInfo),
    }
}

/// The request `session/list` for a directory.
pub open spec fn list_sessions_call(cwd: Seq<char>) -> RpcCallView {
    RpcCallView {
        method: "session/list"@,
        params: Some(
            JsonView::Object(object_of(seq![("cwd"@, JsonView::String(cwd))])),
        ),
    }
}

/// Begins `session/list`: the sessions of the directory `cwd`.
pub fn acp_list_sessions<'a, C>(
    state: &'a AcpState<C>,
    workspace_id: &str,
    cwd: String,
) -> (planned: Result<(&'a C, RpcCall), LookupError>)
    ensures
        planned_on(state@, workspace_id@, list_sessions_call(cwd@), planned),
{
    let params = ListSessionsParams { cwd };
    let call = RpcCall {
        method: String::from_str("session/list"),
        params: Some(params.to_value()),
    };
    plan(state, workspace_id, call)
}

/// The sessions that the result of `session/list` names. They are read from
/// the member `sessions` where the result has one, else from the result
/// itself; what cannot be read as a list of summaries counts as no session.
pub open spec fn listed_sessions(result: JsonView) -> Seq<SessionSummaryView> {
    let source = match result.member("sessions"@) {
        Some(list) => list,
        None => result,
    };
    match SessionSummaryView::of_list(source) {
        Some(summaries) => summaries,
        None => Seq::empty(),
    }
}

/// Reads the result of `session/list`.
pub fn list_sessions_result(result: &serde_json::Value) -> (sessions: Vec<SessionSummary>)
    ensures
        summary_views(sessions@) == listed_sessions(json_view(*result)),
{
    let source = match get(result, "sessions") {
        Some(list) => list,
        None => result,
    };
    match SessionSummary::list_from_value(source) {
        Some(summaries) => summaries,
        None => {
            let none: Vec<SessionSummary> = Vec::new();
            assert(summary_views(none@) =~= Seq::empty());
            none
        },
    }
}

/// The request `session/load` for a session and a directory, without
/// servers.
pub open spec fn load_session_call(session_id: Seq<char>, cwd: Seq<char>) -> RpcCallView {
    RpcCallView {
        method: "session/load"@,
        params: Some(
            JsonView::Object(
                object_of(
                    seq![
                        ("sessionId"@, JsonView::String(session_id)),
                        ("cwd"@, JsonView::String(cwd)),
                        ("mcpServers"@, JsonView::Array(Seq::empty())),
                    ],
                ),
            ),
        ),
    }
}

/// Begins `session/load`: the session `session_id` in the directory `cwd`.
pub fn acp_load_session<'a, C>(
    state: &'a AcpState<C>,
    workspace_id: &str,
    session_id: String,
    cwd: String,
) -> (planned: Result<(&'a C, RpcCall), LookupError>)
    ensures
        planned_on(state@, workspace_id@, load_session_call(session_id@, cwd@), planned),
{
    let params = LoadSessionParams { session_id, cwd, mcp_servers: Vec::new() };
    assert(views_of(params.mcp_servers@) =~= Seq::empty());
    let call = RpcCall {
        method: String::from_str("session/load"),
        params: Some(params.to_value()),
    };
    plan(state, workspace_id, call)
}

/// The descriptor that the result of `session/load` gives for the session
/// that was asked for: the one in the result, under the id that was asked
/// for where the result names none.
pub open spec fn loaded_session(result: JsonView, session_id: Seq<char>) -> Option<
    SessionInfoView,
> {
    match SessionInfoView::of(result) {
        Some(info) => Some(
            if info.session_id.len() == 0 {
                SessionInfoView { session_id, ..info }
            } else {
                info
            },
        ),
        None => None,
    }
}

/// Reads the result of `session/load` for the session `session_id`.
pub fn load_session_result(result: &serde_json::Value, session_id: String) -> (read: Result<
    SessionInfo,
    ReplyError,
>)
    ensures
        match read {
            Ok(info) => loaded_session(json_view(*result), session_id@) == Some(info@),
            Err(error) => loaded_session(json_view(*result), session_id@) is None && error
                == ReplyError::InvalidSessionInfo,
        },
{
    match SessionInfo::from_value(result) {
        Some(info) => {
            if info.session_id.as_str().is_empty() {
                Ok(SessionInfo { session_id, modes: info.modes })
            } else {
                Ok(info)
            }
        },
        None => Err(ReplyError::InvalidSessionInfo),
    }
}

/// The request `session/prompt` with one block of plain text.
pub open spec fn prompt_call(session_id: Seq<char>, text: Seq<char>) -> RpcCallView {
    RpcCallView {
        method: "session/prompt"@,
        params: Some(
            JsonView::Object(
                object_of(
                    seq![
                        ("sessionId"@, JsonView::String(session_id)),
                        (
                            "prompt"@,
                            JsonView::Array(
                                seq![
                                    JsonView::Object(
                                        object_of(
                                            seq![
                                                ("type"@, JsonView::String("text"@)),
                                                ("text"@, JsonView::String(text)),
                                            ],
                                        ),
                                    ),
                                ],
                            ),
                        ),
                    ],
                ),
            ),
        ),
    }
}

/// Begins `session/prompt`: the text `text` for the session `session_id`.
pub fn acp_send_prompt<'a, C>(
    state: &'a AcpState<C>,
    workspace_id: &str,
    session_id: String,
    text: String,
) -> (planned: Result<(&'a C, RpcCall), LookupError>)
    ensures
        planned_on(state@, workspace_id@, prompt_call(session_id@, text@), planned),
{
    let mut prompt: Vec<PromptContent> = Vec::new();
    prompt.push(PromptContent { kind: String::from_str("text"), text });
    let params = PromptParams { session_id, prompt };
    assert(prompt_documents(params.prompt@) =~= seq![params.prompt@[0].document()]);
    let call = RpcCall {
        method: String::from_str("session/prompt"),
        params: Some(params.to_value()),
    };
    plan(state, workspace_id, call)
}

/// The request `session/set_mode` for a session and a mode.
pub open spec fn set_mode_call(session_id: Seq<char>, mode: Seq<char>) -> RpcCallView {
    RpcCallView {
        method: "session/set_mode"@,
        params: Some(
            JsonView::Object(
                object_of(
                    seq![
                        ("sessionId"@, JsonView::String(session_id)),
                        ("modeId"@, JsonView::String(mode)),
                    ],
                ),
            ),
        ),
    }
}

/// Begins `session/set_mode`: the mode `mode` for the session `session_id`.
pub fn acp_set_mode<'a, C>(
    state: &'a AcpState<C>,
    workspace_id: &str,
    session_id: String,
    mode: String,
) -> (planned: Result<(&'a C, RpcCall), LookupError>)
    ensures
        planned_on(state@, workspace_id@, set_mode_call(session_id@, mode@), planned),
{
    let params = SetSessionModeParams { session_id, mode_id: mode };
    let call = RpcCall {
        method: String::from_str("session/set_mode"),
        params: Some(params.to_value()),
    };
    plan(state, workspace_id, call)
}

/// The notification `session/cancel` for a session.
pub open spec fn cancel_call(session_id: Seq<char>) -> RpcCallView {
    RpcCallView {
        method: "session/cancel"@,
        params: Some(
            JsonView::Object(
                object_of(seq![("sessionId"@, JsonView::String(session_id))]),
            ),
        ),
    }
}

/// Begins `session/cancel`, which is sent as a notification: no response
/// comes, and none is awaited.
pub fn acp_cancel<'a, C>(
    state: &'a AcpState<C>,
    workspace_id: &str,
    session_id: String,
) -> (planned: Result<(&'a C, RpcCall), LookupError>)
    ensures
        planned_on(state@, workspace_id@, cancel_call(session_id@), planned),
{
    let params = CancelParams { session_id };
    let call = RpcCall {
        method: String::from_str("session/cancel"),
        params: Some(params.to_value()),
    };
    plan(state, workspace_id, call)
}

} // verus!
