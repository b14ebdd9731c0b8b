use acp_core::commands::{
    acp_cancel, acp_connect, acp_disconnect, acp_list_sessions, acp_load_session,
    acp_new_session, acp_send_prompt, acp_set_mode, disconnect_all, list_sessions_result,
    load_session_result, new_session_result, ConnectPlan,
};
use acp_core::connection::{AcpConnection, ReaderAction, ReaderEvent};
use acp_core::error::{request_outcome, Completion, LookupError, ReplyError};
use acp_core::handshake::{
    ConnectAction, ConnectEvent, ConnectPhase, Handshake, SpawnFault, StreamMode,
    DEFAULT_AGENT_BINARY,
};
use acp_core::registry::AcpState;
use serde_json::Value;
use std::cell::RefCell;

fn doc(text: &str) -> Value {
    serde_json::from_str(text).unwrap()
}

type Live = RefCell<AcpConnection<u32>>;

/// An agent that answers the handshake and makes one session.
fn echo_agent(line: &str) -> Option<String> {
    let message: Value = serde_json::from_str(line).unwrap();
    let id = message.get("id")?.as_u64()?;
    let result = match message.get("method")?.as_str()? {
        "initialize" => doc(r#"{"protocolVersion":1}"#),
        "session/new" => doc(r#"{"sessionId":"session-1"}"#),
        _ => Value::Null,
    };
    Some(format!(r#"{{"jsonrpc":"2.0","id":{},"result":{}}}"#, id, result))
}

fn request(connection: &Live, method: &str, params: Option<Value>, slot: u32) -> Value {
    let dispatch = connection.borrow_mut().send_request(method, params, slot).unwrap();
    let reply = echo_agent(&dispatch.line).unwrap();
    let action = connection.borrow_mut().reader_task(ReaderEvent::Line(reply));
    match action {
        ReaderAction::Complete { slot: fulfilled, outcome } => {
            assert_eq!(fulfilled, slot);
            request_outcome(method, Completion::Answered(outcome)).unwrap()
        }
        _ => panic!("expected a completion"),
    }
}

/// Connects a workspace against the echo agent; returns the number of
/// subprocesses that were started.
fn connect(state: &mut AcpState<Live>, workspace: &str) -> u32 {
    let config = match acp_connect(state, workspace, None, "/tmp".to_string()) {
        ConnectPlan::AlreadyConnected => return 0,
        ConnectPlan::Launch(config) => config,
    };
    assert_eq!(config.binary, DEFAULT_AGENT_BINARY);
    let mut handshake = Handshake::new(&config.binary);
    let connection = RefCell::new(AcpConnection::spawn(workspace.to_string()));
    connection.borrow_mut().launched();
    let call = match handshake.step(ConnectEvent::Spawned) {
        ConnectAction::SendInitialize(call) => call,
        _ => panic!("expected initialize"),
    };
    assert_eq!(call.method, "initialize");
    let reply = request(&connection, &call.method, call.params, 0);
    let call = match handshake.step(ConnectEvent::InitializeReplied(Ok(reply))) {
        ConnectAction::SendInitialized(call) => call,
        _ => panic!("expected initialized"),
    };
    let sent = connection.borrow().send_notification(&call.method, call.params).map(|_| ());
    assert!(matches!(handshake.step(ConnectEvent::InitializedSent(sent)), ConnectAction::Insert));
    assert_eq!(handshake.phase(), ConnectPhase::Connected);
    assert!(state.insert(workspace.to_string(), connection).is_none());
    1
}

#[test]
fn connect_request_notify_disconnect() {
    let mut state: AcpState<Live> = AcpState::new();
    assert_eq!(connect(&mut state, "ws1"), 1);
    assert!(state.contains("ws1"));

    let (connection, call) = acp_new_session(&state, "ws1", "/tmp".to_string()).unwrap();
    assert_eq!(call.method, "session/new");
    assert_eq!(call.params, Some(doc(r#"{"cwd":"/tmp","mcpServers":[]}"#)));
    let result = request(connection, &call.method, call.params, 1);
    let info = new_session_result(&result).unwrap();
    assert!(!info.session_id.is_empty());
    assert_eq!(info.session_id, "session-1");

    let (connection, call) = acp_cancel(&state, "ws1", info.session_id.clone()).unwrap();
    let pending_before = connection.borrow().pending_count();
    let line = connection.borrow().send_notification(&call.method, call.params).unwrap();
    assert_eq!(
        line,
        r#"{"jsonrpc":"2.0","method":"session/cancel","params":{"sessionId":"session-1"}}"#
    );
    assert_eq!(connection.borrow().pending_count(), pending_before);

    let removed = acp_disconnect(&mut state, "ws1").unwrap();
    removed.borrow_mut().shutdown();
    assert!(matches!(
        state.with_connection("ws1", |connection| connection.borrow().pending_count()),
        Err(LookupError::NotConnected)
    ));
    assert!(matches!(state.connection("ws1"), Err(LookupError::NotConnected)));
    assert!(acp_disconnect(&mut state, "ws1").is_none());
}

#[test]
fn second_connect_is_a_no_op() {
    let mut state: AcpState<Live> = AcpState::new();
    assert_eq!(connect(&mut state, "ws1"), 1);
    assert_eq!(connect(&mut state, "ws1"), 0);
    assert_eq!(state.len(), 1);
    assert!(matches!(
        acp_connect(&state, "ws1", None, "/elsewhere".to_string()),
        ConnectPlan::AlreadyConnected
    ));
    assert_eq!(connect(&mut state, "ws2"), 1);
    assert_eq!(state.len(), 2);
}

#[test]
fn launch_config_pipes_input_and_output() {
    let state: AcpState<u8> = AcpState::default();
    match acp_connect(&state, "ws", Some("/opt/agent".to_string()), "/work".to_string()) {
        ConnectPlan::Launch(config) => {
            assert_eq!(config.binary, "/opt/agent");
            assert_eq!(config.args, vec!["--acp".to_string(), "--stdio".to_string()]);
            assert_eq!(config.cwd, "/work");
            assert_eq!(config.stdin, StreamMode::Piped);
            assert_eq!(config.stdout, StreamMode::Piped);
            assert_eq!(config.stderr, StreamMode::Inherited);
            assert!(config.kill_on_drop);
        }
        _ => panic!("expected a launch"),
    }
    match acp_connect(&state, "ws", None, "/work".to_string()) {
        ConnectPlan::Launch(config) => assert_eq!(config.binary, "copilot"),
        _ => panic!("expected a launch"),
    }
}

#[test]
fn insert_keeps_the_first_connection() {
    let mut state: AcpState<u8> = AcpState::new();
    assert_eq!(state.insert("ws".to_string(), 1), None);
    assert_eq!(state.insert("ws".to_string(), 2), Some(2));
    assert_eq!(state.connection("ws"), Ok(&1));
    assert_eq!(state.len(), 1);
}

#[test]
fn with_connection_runs_on_the_live_connection() {
    let mut state: AcpState<u8> = AcpState::new();
    state.insert("a".to_string(), 10);
    state.insert("b".to_string(), 20);
    assert_eq!(state.with_connection("b", |c| *c + 1), Ok(21));
    assert_eq!(state.with_connection("a", |c| *c + 1), Ok(11));
    let mut ran = false;
    assert_eq!(
        state.with_connection("c", |c| {
            ran = true;
            *c
        }),
        Err(LookupError::NotConnected)
    );
    assert!(!ran);
    assert_eq!(LookupError::NotConnected.describe(), "Not connected");
}

#[test]
fn disconnect_leaves_the_others() {
    let mut state: AcpState<u8> = AcpState::new();
    state.insert("a".to_string(), 1);
    state.insert("b".to_string(), 2);
    state.insert("c".to_string(), 3);
    assert_eq!(acp_disconnect(&mut state, "b"), Some(2));
    assert_eq!(state.len(), 2);
    assert_eq!(state.connection("a"), Ok(&1));
    assert_eq!(state.connection("c"), Ok(&3));
    assert!(!state.contains("b"));
    assert_eq!(acp_disconnect(&mut state, "b"), None);
    assert_eq!(acp_disconnect(&mut state, "a"), Some(1));
    assert_eq!(acp_disconnect(&mut state, "c"), Some(3));
    assert_eq!(state.len(), 0);
}

#[test]
fn disconnect_all_hands_out_every_connection() {
    let mut state: AcpState<u8> = AcpState::new();
    state.insert("a".to_string(), 1);
    state.insert("b".to_string(), 2);
    state.insert("c".to_string(), 3);
    let mut removed = disconnect_all(&mut state);
    removed.sort();
    assert_eq!(
        removed,
        vec![("a".to_string(), 1), ("b".to_string(), 2), ("c".to_string(), 3)]
    );
    assert_eq!(state.len(), 0);
    assert!(!state.contains("a"));
    assert!(disconnect_all(&mut state).is_empty());
}

#[test]
fn calls_fail_without_a_connection() {
    let state: AcpState<u8> = AcpState::new();
    assert!(matches!(
        acp_new_session(&state, "ws", "/tmp".to_string()),
        Err(LookupError::NotConnected)
    ));
    assert!(matches!(
        acp_list_sessions(&state, "ws", "/tmp".to_string()),
        Err(LookupError::NotConnected)
    ));
    assert!(matches!(
        acp_load_session(&state, "ws", "s".to_string(), "/tmp".to_string()),
        Err(LookupError::NotConnected)
    ));
    assert!(matches!(
        acp_send_prompt(&state, "ws", "s".to_string(), "hi".to_string()),
        Err(LookupError::NotConnected)
    ));
    assert!(matches!(
        acp_set_mode(&state, "ws", "s".to_string(), "plan".to_string()),
        Err(LookupError::NotConnected)
    ));
    assert!(matches!(acp_cancel(&state, "ws", "s".to_string()), Err(LookupError::NotConnected)));
}

#[test]
fn calls_carry_their_parameters() {
    let mut state: AcpState<u8> = AcpState::new();
    state.insert("ws".to_string(), 9);

    let (connection, call) = acp_list_sessions(&state, "ws", "/w".to_string()).unwrap();
    assert_eq!(*connection, 9);
    assert_eq!(call.method, "session/list");
    assert_eq!(call.params, Some(doc(r#"{"cwd":"/w"}"#)));

    let (_, call) = acp_load_session(&state, "ws", "s1".to_string(), "/w".to_string()).unwrap();
    assert_eq!(call.method, "session/load");
    assert_eq!(call.params, Some(doc(r#"{"sessionId":"s1","cwd":"/w","mcpServers":[]}"#)));

    let (_, call) = acp_send_prompt(&state, "ws", "s1".to_string(), "hello".to_string()).unwrap();
    assert_eq!(call.method, "session/prompt");
    assert_eq!(
        call.params,
        Some(doc(r#"{"sessionId":"s1","prompt":[{"type":"text","text":"hello"}]}"#))
    );

    let (_, call) = acp_set_mode(&state, "ws", "s1".to_string(), "plan".to_string()).unwrap();
    assert_eq!(call.method, "session/set_mode");
    assert_eq!(call.params, Some(doc(r#"{"sessionId":"s1","modeId":"plan"}"#)));

    let (_, call) = acp_cancel(&state, "ws", "s1".to_string()).unwrap();
    assert_eq!(call.method, "session/cancel");
    assert_eq!(call.params, Some(doc(r#"{"sessionId":"s1"}"#)));
}

#[test]
fn load_result_falls_back_to_the_requested_id() {
    let info = load_session_result(&doc(r#"{"modes":null}"#), "wanted".to_string()).unwrap();
    assert_eq!(info.session_id, "wanted");
    assert!(info.modes.is_none());
    let info = load_session_result(&doc(r#"{"sessionId":""}"#), "wanted".to_string()).unwrap();
    assert_eq!(info.session_id, "wanted");
    let info = load_session_result(&doc(r#"{"sessionId":"given"}"#), "wanted".to_string()).unwrap();
    assert_eq!(info.session_id, "given");
    assert_eq!(
        load_session_result(&doc(r#"{"sessionId":7}"#), "wanted".to_string()).unwrap_err(),
        ReplyError::InvalidSessionInfo
    );
}

#[test]
fn new_session_result_rejects_what_is_no_descriptor() {
    assert_eq!(
        new_session_result(&doc(r#"[]"#)).unwrap_err(),
        ReplyError::InvalidSessionInfo
    );
    assert_eq!(
        new_session_result(&doc(r#"{"sessionId":null}"#)).unwrap_err(),
        ReplyError::InvalidSessionInfo
    );
    assert_eq!(
        ReplyError::InvalidSessionInfo.describe(),
        "Failed to parse session info"
    );
    let info = new_session_result(&doc(r#"{}"#)).unwrap();
    assert_eq!(info.session_id, "");
}

#[test]
fn list_result_reads_member_or_bare_array() {
    let wrapped = list_sessions_result(&doc(
        r#"{"sessions":[{"sessionId":"a","cwd":"/w","title":"T","updatedAt":"2024-01-01"},{"sessionId":"b"}]}"#,
    ));
    assert_eq!(wrapped.len(), 2);
    assert_eq!(wrapped[0].session_id, "a");
    assert_eq!(wrapped[0].cwd.as_deref(), Some("/w"));
    assert_eq!(wrapped[0].title.as_deref(), Some("T"));
    assert_eq!(wrapped[0].updated_at.as_deref(), Some("2024-01-01"));
    assert_eq!(wrapped[1].session_id, "b");
    assert!(wrapped[1].cwd.is_none());

    let bare = list_sessions_result(&doc(r#"[{"sessionId":"x","title":null}]"#));
    assert_eq!(bare.len(), 1);
    assert_eq!(bare[0].session_id, "x");
    assert!(bare[0].title.is_none());

    assert!(list_sessions_result(&doc(r#"{"sessions":null}"#)).is_empty());
    assert!(list_sessions_result(&doc(r#"{"other":1}"#)).is_empty());
    assert!(list_sessions_result(&doc(r#"[{"sessionId":"x"},{"title":"no id"}]"#)).is_empty());
    assert!(list_sessions_result(&doc(r#"{"sessions":[{"sessionId":1}]}"#)).is_empty());
}

#[test]
fn failed_handshake_kills_the_process() {
    let mut handshake = Handshake::new("agent");
    assert_eq!(handshake.phase(), ConnectPhase::Spawning);
    assert!(matches!(handshake.step(ConnectEvent::Spawned), ConnectAction::SendInitialize(_)));
    let failure = request_outcome("initialize", Completion::Elapsed);
    match handshake.step(ConnectEvent::InitializeReplied(failure.map(|_| Value::Null))) {
        ConnectAction::Abort { kill, error } => {
            assert!(kill);
            assert_eq!(error.describe(), "Timeout waiting for response to initialize");
        }
        _ => panic!("expected an abort"),
    }
    assert_eq!(handshake.phase(), ConnectPhase::Failed);
    assert!(matches!(handshake.step(ConnectEvent::Spawned), ConnectAction::Nothing));
}

#[test]
fn failed_announcement_kills_the_process() {
    let mut handshake = Handshake::new("agent");
    handshake.step(ConnectEvent::Spawned);
    assert!(matches!(
        handshake.step(ConnectEvent::InitializeReplied(Ok(Value::Null))),
        ConnectAction::SendInitialized(_)
    ));
    assert_eq!(handshake.phase(), ConnectPhase::Announcing);
    match handshake.step(ConnectEvent::InitializedSent(Err(
        acp_core::error::RpcError::ChannelClosed,
    ))) {
        ConnectAction::Abort { kill, error } => {
            assert!(kill);
            assert_eq!(error.describe(), "Writer channel closed");
        }
        _ => panic!("expected an abort"),
    }
    assert_eq!(handshake.phase(), ConnectPhase::Failed);
}

#[test]
fn failed_spawn_has_nothing_to_kill() {
    let mut handshake = Handshake::new("agent");
    match handshake.step(ConnectEvent::SpawnFailed(SpawnFault::NotStarted {
        cause: "No such file or directory".to_string(),
    })) {
        ConnectAction::Abort { kill, error } => {
            assert!(!kill);
            assert_eq!(error.describe(), "Failed to spawn agent: No such file or directory");
        }
        _ => panic!("expected an abort"),
    }
    let mut handshake = Handshake::new("agent");
    match handshake.step(ConnectEvent::SpawnFailed(SpawnFault::NoStdin)) {
        ConnectAction::Abort { kill, error } => {
            assert!(!kill);
            assert_eq!(error.describe(), "Failed to capture stdin");
        }
        _ => panic!("expected an abort"),
    }
    let mut handshake = Handshake::new("agent");
    match handshake.step(ConnectEvent::SpawnFailed(SpawnFault::NoStdout)) {
        ConnectAction::Abort { error, .. } => {
            assert_eq!(error.describe(), "Failed to capture stdout")
        }
        _ => panic!("expected an abort"),
    }
}

#[test]
fn events_out_of_turn_change_nothing() {
    let mut handshake = Handshake::new("agent");
    assert!(matches!(
        handshake.step(ConnectEvent::InitializeReplied(Ok(Value::Null))),
        ConnectAction::Nothing
    ));
    assert!(matches!(
        handshake.step(ConnectEvent::InitializedSent(Ok(()))),
        ConnectAction::Nothing
    ));
    assert_eq!(handshake.phase(), ConnectPhase::Spawning);
    handshake.step(ConnectEvent::Spawned);
    assert!(matches!(handshake.step(ConnectEvent::Spawned), ConnectAction::Nothing));
    assert_eq!(handshake.phase(), ConnectPhase::Initializing);
}

#[test]
fn initialize_announces_version_one() {
    let mut handshake = Handshake::new("agent");
    match handshake.step(ConnectEvent::Spawned) {
        ConnectAction::SendInitialize(call) => {
            assert_eq!(call.method, "initialize");
            assert_eq!(
                call.params,
                Some(doc(r#"{"protocolVersion":1,"clientCapabilities":{}}"#))
            );
        }
        _ => panic!("expected initialize"),
    }
    match handshake.step(ConnectEvent::InitializeReplied(Ok(Value::Null))) {
        ConnectAction::SendInitialized(call) => {
            assert_eq!(call.method, "initialized");
            assert!(call.params.is_none());
        }
        _ => panic!("expected initialized"),
    }
}
