use acp_core::connection::{
    AcpConnection, ConnectionState, ReaderAction, ReaderEvent, ShutdownStep,
    OUTBOUND_QUEUE_CAPACITY,
};
use acp_core::error::{
    notification_outcome, request_outcome, Completion, RpcError, REQUEST_TIMEOUT_SECS,
};
use serde_json::Value;

fn doc(text: &str) -> Value {
    serde_json::from_str(text).unwrap()
}

fn ready(workspace: &str) -> AcpConnection<&'static str> {
    let mut connection = AcpConnection::spawn(workspace.to_string());
    connection.launched();
    connection
}

fn line(text: &str) -> ReaderEvent {
    ReaderEvent::Line(text.to_string())
}

#[test]
fn new_connection_is_spawning_and_refuses_requests() {
    let mut connection: AcpConnection<&'static str> = AcpConnection::spawn("ws".to_string());
    assert_eq!(connection.state(), ConnectionState::Spawning);
    assert_eq!(connection.workspace_id(), "ws");
    assert!(matches!(
        connection.send_request("initialize", None, "slot"),
        Err(RpcError::ChannelClosed)
    ));
    assert!(matches!(
        connection.send_notification("initialized", None),
        Err(RpcError::ChannelClosed)
    ));
    assert_eq!(connection.pending_count(), 0);
}

#[test]
fn launch_failure_closes_without_ever_being_ready() {
    let mut connection: AcpConnection<&'static str> = AcpConnection::spawn("ws".to_string());
    connection.launch_failed();
    assert_eq!(connection.state(), ConnectionState::Closed);
    connection.launched();
    assert_eq!(connection.state(), ConnectionState::Closed);
}

#[test]
fn first_id_is_one_and_ids_count_up() {
    let mut connection = ready("ws");
    let first = connection.send_request("a", None, "s1").unwrap();
    let second = connection.send_request("b", None, "s2").unwrap();
    let third = connection.send_request("c", None, "s3").unwrap();
    assert_eq!((first.id, second.id, third.id), (1, 2, 3));
    assert_eq!(first.line, r#"{"jsonrpc":"2.0","id":1,"method":"a"}"#);
    assert_eq!(third.line, r#"{"jsonrpc":"2.0","id":3,"method":"c"}"#);
    assert_eq!(connection.pending_count(), 3);
    assert!(connection.is_pending(2));
    assert!(!connection.is_pending(4));
}

#[test]
fn responses_are_matched_by_id_in_any_order() {
    let mut connection = ready("ws");
    let a = connection.send_request("a", None, "slot-a").unwrap();
    let b = connection.send_request("b", None, "slot-b").unwrap();
    let c = connection.send_request("c", None, "slot-c").unwrap();
    assert_eq!((a.id, b.id, c.id), (1, 2, 3));

    match connection.reader_task(line(r#"{"jsonrpc":"2.0","id":3,"result":"third"}"#)) {
        ReaderAction::Complete { slot, outcome } => {
            assert_eq!(slot, "slot-c");
            assert_eq!(outcome.unwrap(), doc(r#""third""#));
        }
        _ => panic!("expected a completion"),
    }
    match connection.reader_task(line(r#"{"jsonrpc":"2.0","id":1,"result":{"n":1}}"#)) {
        ReaderAction::Complete { slot, outcome } => {
            assert_eq!(slot, "slot-a");
            assert_eq!(outcome.unwrap(), doc(r#"{"n":1}"#));
        }
        _ => panic!("expected a completion"),
    }
    assert!(connection.is_pending(2));
    match connection.reader_task(line(
        r#"{"jsonrpc":"2.0","id":2,"error":{"code":-32601,"message":"no such method"}}"#,
    )) {
        ReaderAction::Complete { slot, outcome } => {
            assert_eq!(slot, "slot-b");
            let error = outcome.unwrap_err();
            assert_eq!(error.code, -32601);
            assert_eq!(error.message, "no such method");
            assert!(error.data.is_none());
        }
        _ => panic!("expected a completion"),
    }
    assert_eq!(connection.pending_count(), 0);
}

#[test]
fn response_is_delivered_once() {
    let mut connection = ready("ws");
    connection.send_request("a", None, "slot-a").unwrap();
    assert!(matches!(
        connection.reader_task(line(r#"{"id":1,"result":true}"#)),
        ReaderAction::Complete { slot: "slot-a", .. }
    ));
    assert!(matches!(
        connection.reader_task(line(r#"{"id":1,"result":true}"#)),
        ReaderAction::Discard { id: 1 }
    ));
}

#[test]
fn response_for_unknown_id_is_discarded() {
    let mut connection = ready("ws");
    connection.send_request("a", None, "slot-a").unwrap();
    assert!(matches!(
        connection.reader_task(line(r#"{"jsonrpc":"2.0","id":99,"result":1}"#)),
        ReaderAction::Discard { id: 99 }
    ));
    assert!(connection.is_pending(1));
}

#[test]
fn error_wins_over_result() {
    let mut connection = ready("ws");
    connection.send_request("a", None, "slot-a").unwrap();
    match connection.reader_task(line(
        r#"{"id":1,"result":5,"error":{"code":1,"message":"m","data":[1,2]}}"#,
    )) {
        ReaderAction::Complete { outcome, .. } => {
            let error = outcome.unwrap_err();
            assert_eq!(error.code, 1);
            assert_eq!(error.data, Some(doc("[1,2]")));
            assert_eq!(error.describe(), "JSON-RPC error 1: m");
        }
        _ => panic!("expected a completion"),
    }
}

#[test]
fn null_result_completes_its_request() {
    let mut connection = ready("ws");
    connection.send_request("session/prompt", None, "slot-a").unwrap();
    match connection.reader_task(line(r#"{"jsonrpc":"2.0","id":1,"result":null}"#)) {
        ReaderAction::Complete { slot, outcome } => {
            assert_eq!(slot, "slot-a");
            assert_eq!(outcome.unwrap(), Value::Null);
        }
        _ => panic!("expected a completion"),
    }
    assert!(!connection.is_pending(1));
    assert!(matches!(connection.reader_task(ReaderEvent::End), ReaderAction::Stop));
}

#[test]
fn null_error_beside_a_result_is_no_error() {
    let mut connection = ready("ws");
    connection.send_request("a", None, "slot-a").unwrap();
    connection.send_request("b", None, "slot-b").unwrap();
    match connection.reader_task(line(r#"{"id":1,"result":null,"error":null}"#)) {
        ReaderAction::Complete { slot, outcome } => {
            assert_eq!(slot, "slot-a");
            assert_eq!(outcome.unwrap(), Value::Null);
        }
        _ => panic!("expected a completion"),
    }
    match connection.reader_task(line(r#"{"id":2,"result":false}"#)) {
        ReaderAction::Complete { slot, outcome } => {
            assert_eq!(slot, "slot-b");
            assert_eq!(outcome.unwrap(), Value::Bool(false));
        }
        _ => panic!("expected a completion"),
    }
    assert!(matches!(
        connection.reader_task(line(r#"{"id":3,"error":null}"#)),
        ReaderAction::Unroutable
    ));
}

#[test]
fn request_refused_after_shutdown_takes_its_id() {
    let mut connection = ready("ws");
    assert_eq!(connection.send_request("a", None, "s1").unwrap().id, 1);
    connection.shutdown();
    assert!(matches!(connection.send_request("b", None, "s2"), Err(RpcError::ChannelClosed)));
    assert!(matches!(connection.send_request("c", None, "s3"), Err(RpcError::ChannelClosed)));
    assert_eq!(connection.next_id(), Some(4));
    assert_eq!(connection.pending_count(), 0);
    connection.closed();
    assert!(matches!(connection.send_request("d", None, "s4"), Err(RpcError::ChannelClosed)));
    assert_eq!(connection.next_id(), Some(5));
}

#[test]
fn request_refused_before_launch_takes_no_id() {
    let mut connection: AcpConnection<&'static str> = AcpConnection::spawn("ws".to_string());
    assert_eq!(connection.next_id(), Some(1));
    assert!(connection.send_request("a", None, "s1").is_err());
    assert_eq!(connection.next_id(), Some(1));
    connection.launched();
    assert_eq!(connection.send_request("a", None, "s1").unwrap().id, 1);
    assert_eq!(connection.next_id(), Some(2));
}

#[test]
fn ready_connection_always_hands_out_a_line() {
    let mut connection = ready("ws");
    let params = Value::from(vec![Value::from(1.5), Value::Null, Value::from("x\ny")]);
    let dispatch = connection.send_request("m", Some(params), "s1").unwrap();
    assert_eq!(dispatch.line, r#"{"jsonrpc":"2.0","id":1,"method":"m","params":[1.5,null,"x\ny"]}"#);
    assert!(connection.send_notification("n", None).is_ok());
}

#[test]
fn malformed_line_does_not_stop_the_reader() {
    let mut connection = ready("ws");
    connection.send_request("session/new", None, "slot").unwrap();
    assert!(matches!(
        connection.reader_task(line(r#"{"jsonrpc":"2.0","id":1,"resu"#)),
        ReaderAction::Malformed
    ));
    assert!(matches!(
        connection.reader_task(line("agent starting up...")),
        ReaderAction::Malformed
    ));
    assert!(matches!(connection.reader_task(line("")), ReaderAction::Skip));
    assert!(matches!(connection.reader_task(line(" \t ")), ReaderAction::Skip));
    assert!(connection.is_pending(1));
    match connection.reader_task(line(r#"{"jsonrpc":"2.0","id":1,"result":{"ok":true}}"#)) {
        ReaderAction::Complete { slot, outcome } => {
            assert_eq!(slot, "slot");
            assert_eq!(outcome.unwrap(), doc(r#"{"ok":true}"#));
        }
        _ => panic!("expected a completion"),
    }
}

#[test]
fn envelope_of_wrong_shape_is_malformed() {
    let mut connection = ready("ws");
    for text in [
        r#"{"id":"7","result":1}"#,
        r#"{"id":-1,"result":1}"#,
        r#"{"id":1.5,"result":1}"#,
        r#"{"id":1,"method":5}"#,
        r#"{"id":1,"error":"boom"}"#,
        r#"{"id":1,"error":{"message":"no code"}}"#,
        r#"{"id":1,"error":{"code":1}}"#,
        r#"{"id":1,"error":{"code":1.5,"message":"m"}}"#,
        r#"[1,2,3]"#,
        r#"42"#,
        r#""text""#,
        r#"null"#,
    ] {
        assert!(
            matches!(connection.reader_task(line(text)), ReaderAction::Malformed),
            "{}",
            text
        );
    }
}

#[test]
fn end_of_output_stops_the_reader() {
    let mut connection = ready("ws");
    assert!(matches!(connection.reader_task(ReaderEvent::End), ReaderAction::Stop));
    assert_eq!(connection.state(), ConnectionState::Ready);
}

#[test]
fn session_update_is_forwarded_once() {
    let mut connection = ready("ws1");
    let action = connection.reader_task(line(
        r#"{"jsonrpc":"2.0","method":"session/update","params":{"sessionId":"s1","update":{"sessionUpdate":"agent_message_chunk","text":"hi"}}}"#,
    ));
    match action {
        ReaderAction::Forward(event) => {
            assert_eq!(event.workspace_id, "ws1");
            assert_eq!(event.session_id, "s1");
            assert_eq!(event.update_type, "agent_message_chunk");
            assert_eq!(
                event.payload,
                doc(r#"{"sessionUpdate":"agent_message_chunk","text":"hi"}"#)
            );
        }
        _ => panic!("expected an event"),
    }
}

#[test]
fn session_update_defaults() {
    let mut connection = ready("ws1");
    match connection.reader_task(line(r#"{"method":"session/update","params":{}}"#)) {
        ReaderAction::Forward(event) => {
            assert_eq!(event.session_id, "");
            assert_eq!(event.update_type, "unknown");
            assert_eq!(event.payload, Value::Null);
        }
        _ => panic!("expected an event"),
    }
    match connection.reader_task(line(
        r#"{"method":"session/update","params":{"sessionId":5,"update":{"sessionUpdate":7}}}"#,
    )) {
        ReaderAction::Forward(event) => {
            assert_eq!(event.session_id, "");
            assert_eq!(event.update_type, "unknown");
            assert_eq!(event.payload, doc(r#"{"sessionUpdate":7}"#));
        }
        _ => panic!("expected an event"),
    }
    assert!(matches!(
        connection.reader_task(line(r#"{"method":"session/update"}"#)),
        ReaderAction::Ignore
    ));
}

#[test]
fn permission_request_is_granted_without_the_caller() {
    let mut connection = ready("ws1");
    let action = connection.reader_task(line(
        r#"{"jsonrpc":"2.0","id":7,"method":"session/request_permission","params":{"options":[{"optionId":"allow_always"},{"optionId":"reject"}]}}"#,
    ));
    match action {
        ReaderAction::Reply(reply) => assert_eq!(
            reply,
            r#"{"jsonrpc":"2.0","id":7,"result":{"outcome":{"outcome":"selected","optionId":"allow_always"}}}"#
        ),
        _ => panic!("expected a reply"),
    }
    assert_eq!(connection.pending_count(), 0);
    assert!(matches!(
        connection.reader_task(line(r#"{"method":"session/request_permission"}"#)),
        ReaderAction::Ignore
    ));
}

#[test]
fn unknown_method_is_reported() {
    let mut connection = ready("ws1");
    match connection.reader_task(line(r#"{"jsonrpc":"2.0","method":"session/other"}"#)) {
        ReaderAction::UnknownMethod(method) => assert_eq!(method, "session/other"),
        _ => panic!("expected an unknown method"),
    }
    assert!(matches!(
        connection.reader_task(line(r#"{"jsonrpc":"2.0"}"#)),
        ReaderAction::Unroutable
    ));
    assert!(matches!(
        connection.reader_task(line(r#"{"jsonrpc":"2.0","id":4}"#)),
        ReaderAction::Unroutable
    ));
}

#[test]
fn notification_registers_nothing() {
    let connection = ready("ws");
    let sent = connection
        .send_notification("session/cancel", Some(doc(r#"{"sessionId":"s1"}"#)))
        .unwrap();
    assert_eq!(
        sent,
        r#"{"jsonrpc":"2.0","method":"session/cancel","params":{"sessionId":"s1"}}"#
    );
    assert_eq!(connection.pending_count(), 0);
}

#[test]
fn shutdown_cancels_every_pending_request_in_order() {
    let mut connection = ready("ws");
    connection.send_request("a", None, "slot-a").unwrap();
    connection.send_request("b", None, "slot-b").unwrap();
    let mut shutdown = connection.shutdown();
    assert_eq!(
        shutdown.steps,
        vec![
            ShutdownStep::KillProcess,
            ShutdownStep::AbortReader,
            ShutdownStep::AbortWriter,
            ShutdownStep::FailPending,
        ]
    );
    assert_eq!(shutdown.cancelled.len(), 2);
    assert_eq!(shutdown.cancelled.remove(1), Some("slot-a"));
    assert_eq!(shutdown.cancelled.remove(2), Some("slot-b"));
    assert!(shutdown.cancelled.is_empty());
    assert_eq!(connection.pending_count(), 0);
    assert_eq!(connection.state(), ConnectionState::ShuttingDown);
    assert!(matches!(
        connection.send_request("c", None, "slot-c"),
        Err(RpcError::ChannelClosed)
    ));
    assert!(matches!(
        connection.reader_task(line(r#"{"id":1,"result":1}"#)),
        ReaderAction::Discard { id: 1 }
    ));
}

#[test]
fn shutdown_is_idempotent() {
    let mut connection = ready("ws");
    connection.send_request("a", None, "slot-a").unwrap();
    let first = connection.shutdown();
    assert_eq!(first.steps.len(), 4);
    let second = connection.shutdown();
    assert_eq!(second.steps, vec![ShutdownStep::FailPending]);
    assert!(second.cancelled.is_empty());
    assert_eq!(connection.state(), ConnectionState::ShuttingDown);
    connection.closed();
    assert_eq!(connection.state(), ConnectionState::Closed);
    let third = connection.shutdown();
    assert_eq!(third.steps, vec![ShutdownStep::FailPending]);
    assert_eq!(connection.state(), ConnectionState::Closed);
}

#[test]
fn dropped_slot_is_a_closed_connection() {
    let reply = request_outcome("session/prompt", Completion::Dropped);
    assert!(matches!(reply, Err(RpcError::ConnectionClosed)));
    assert_eq!(reply.unwrap_err().describe(), "Response channel dropped");
}

#[test]
fn elapsed_wait_is_a_timeout_that_names_the_method() {
    assert_eq!(REQUEST_TIMEOUT_SECS, 30);
    match request_outcome("session/prompt", Completion::Elapsed) {
        Err(RpcError::Timeout { method }) => assert_eq!(method, "session/prompt"),
        _ => panic!("expected a timeout"),
    }
    assert_eq!(
        request_outcome("session/prompt", Completion::Elapsed).unwrap_err().describe(),
        "Timeout waiting for response to session/prompt"
    );
}

#[test]
fn timeout_leaves_the_connection_serving_others() {
    let mut connection = ready("ws");
    let slow = connection.send_request("slow", None, "slot-slow").unwrap();
    let fast = connection.send_request("fast", None, "slot-fast").unwrap();
    assert!(matches!(
        request_outcome("slow", Completion::Elapsed),
        Err(RpcError::Timeout { .. })
    ));
    assert!(connection.is_pending(slow.id));
    assert!(matches!(
        connection.reader_task(line(r#"{"id":2,"result":"done"}"#)),
        ReaderAction::Complete { slot: "slot-fast", .. }
    ));
    assert_eq!(fast.id, 2);
    assert!(matches!(
        connection.reader_task(line(r#"{"id":1,"result":"late"}"#)),
        ReaderAction::Complete { slot: "slot-slow", .. }
    ));
}

#[test]
fn answered_wait_yields_result_or_remote_error() {
    let ok = request_outcome("m", Completion::Answered(Ok(doc(r#"{"a":1}"#))));
    assert_eq!(ok.unwrap(), doc(r#"{"a":1}"#));
    let error = acp_core::types::JsonRpcError {
        code: -32000,
        message: "boom".to_string(),
        data: Some(doc("7")),
    };
    match request_outcome("m", Completion::Answered(Err(error))) {
        Err(RpcError::RemoteError(error)) => {
            assert_eq!(error.code, -32000);
            assert_eq!(error.message, "boom");
            assert_eq!(error.data, Some(doc("7")));
        }
        _ => panic!("expected a remote error"),
    }
    let failed = request_outcome("m", Completion::NotQueued);
    assert!(matches!(failed, Err(RpcError::ChannelClosed)));
    assert_eq!(failed.unwrap_err().describe(), "Writer channel closed");
}

#[test]
fn queue_capacity_is_sixty_four() {
    assert_eq!(OUTBOUND_QUEUE_CAPACITY, 64);
}

#[test]
fn notification_fails_only_on_a_closed_queue() {
    assert!(notification_outcome(true).is_ok());
    assert!(matches!(notification_outcome(false), Err(RpcError::ChannelClosed)));
}
