//! Bringing a connection up: the launch of the subprocess and the handshake
//! that has to precede any other traffic.
//!
//! The handshake sends the request `initialize`, waits for its response and
//! then sends the notification `initialized`. Only a connection that has
//! come through it enters the registry; one that fails on the way is
//! discarded, and its process, if it was started, is killed.

use crate::error::{ConnectError, ConnectErrorView, RpcError};
use crate::fields::{document_view, text_view};
use crate::json::{entries_of, object, object_of, JsonNumber, JsonView};
use crate::params::InitializeParams;
use vstd::prelude::*;
use vstd::string::StringExecFns;

verus! {

/// The program that is started where the host names no other.
pub const DEFAULT_AGENT_BINARY: &'static str = "copilot";

/// The version of the protocol that this side announces.
pub const PROTOCOL_VERSION: u32 = 1;

/// What becomes of one standard stream of the subprocess.
#[derive(Debug, Clone, Copy, PartialEq, Eq, Structural)]
pub enum StreamMode {
    /// A pipe between the subprocess and this side.
    Piped,
    /// The host's own stream.
    Inherited,
}

/// How the subprocess is to be started.
#[derive(Debug)]
pub struct LaunchConfig {
    pub binary: String,
    pub args: Vec<String>,
    pub cwd: String,
    pub stdin: StreamMode,
    pub stdout: StreamMode,
    pub stderr: StreamMode,
    /// Whether the process is killed when its handle is dropped.
    pub kill_on_drop: bool,
}

/// The content of a [`LaunchConfig`].
pub struct LaunchConfigView {
    pub binary: Seq<char>,
    pub args: Seq<Seq<char>>,
    pub cwd: Seq<char>,
    pub stdin: StreamMode,
    pub stdout: StreamMode,
    pub stderr: StreamMode,
    pub kill_on_drop: bool,
}

impl View for LaunchConfig {
    type V = LaunchConfigView;

    open spec fn view(&self) -> LaunchConfigView {
        LaunchConfigView {
            binary: self.binary@,
            args: Seq::new(self.args.len() as nat, |i: int| self.args[i]@),
            cwd: self.cwd@,
            stdin: self.stdin,
            stdout: self.stdout,
            stderr: self.stderr,
            kill_on_drop: self.kill_on_drop,
        }
    }
}

impl LaunchConfigView {
    /// The launch of an agent: the given program, or the default one, with
    /// the arguments that make it speak the protocol on its standard
    /// streams, in the given directory. Input and output are piped, the
    /// error stream stays the host's, and the process dies with its handle.
    pub open spec fn for_agent(binary: Option<Seq<char>>, cwd: Seq<char>) -> LaunchConfigView {
        LaunchConfigView {
            binary: match binary {
                Some(path) => path,
                None => "copilot"@,
            },
            args: seq!["--acp"@, "--stdio"@],
            cwd,
            stdin: StreamMode::Piped,
            stdout: StreamMode::Piped,
            stderr: StreamMode::Inherited,
            kill_on_drop: true,
        }
    }
}

impl LaunchConfig {
    /// The launch of an agent in the directory `cwd`. `binary` is the
    /// program that the host asks for, if it asks for one.
    pub fn for_agent(binary: Option<String>, cwd: String) -> (config: LaunchConfig)
        ensures
            config@ == LaunchConfigView::for_agent(text_view(binary), cwd@),
    {
        let binary = match binary {
            Some(path) => path,
            None => String::from_str(DEFAULT_AGENT_BINARY),
        };
        let mut args: Vec<String> = Vec::new();
        args.push(String::from_str("--acp"));
        args.push(String::from_str("--stdio"));
        let config = LaunchConfig {
            binary,
            args,
            cwd,
            stdin: StreamMode::Piped,
            stdout: StreamMode::Piped,
            stderr: StreamMode::Inherited,
            kill_on_drop: true,
        };
        assert(config@.args =~= seq!["--acp"@, "--stdio"@]);
        config
    }
}

/// A call to make on a connection.
#[derive(Debug)]
pub struct RpcCall {
    pub method: String,
    pub params: Option<serde_json::Value>,
}

/// The content of an [`RpcCall`].
pub struct RpcCallView {
    pub method: Seq<char>,
    pub params: Option<JsonView>,
}

impl View for RpcCall {
    type V = RpcCallView;

    open spec fn view(&self) -> RpcCallView {
        RpcCallView { method: self.method@, params: document_view(self.params) }
    }
}

/// The request that opens the handshake: this side's protocol version and
/// no capabilities.
pub open spec fn initialize_call() -> RpcCallView {
    RpcCallView {
        method: "initialize"@,
        params: Some(
            JsonView::Object(
                object_of(
                    seq![
                        (
                            "protocolVersion"@,
                            JsonView::Number(JsonNumber::Integer(PROTOCOL_VERSION as int)),
                        ),
                        ("clientCapabilities"@, JsonView::Object(Map::empty())),
                    ],
                ),
            ),
        ),
    }
}

/// The notification that closes the handshake.
pub open spec fn initialized_call() -> RpcCallView {
    RpcCallView { method: "initialized"@, params: None }
}

/// Why the subprocess is not there.
#[derive(Debug)]
pub enum SpawnFault {
    /// The program could not be started; the cause is the system's message.
    NotStarted { cause: String },
    /// The process runs, but its input could not be taken.
    NoStdin,
    /// The process runs, but its output could not be taken.
    NoStdout,
}

/// The message for a launch that failed.
pub open spec fn spawn_failure_text(binary: Seq<char>, fault: SpawnFault) -> Seq<char> {
    match fault {
        SpawnFault::NotStarted { cause } => "Failed to spawn "@ + binary + ": "@ + cause@,
        SpawnFault::NoStdin => "Failed to capture stdin"@,
        SpawnFault::NoStdout => "Failed to capture stdout"@,
    }
}

/// How far the bringing up of a connection has come.
#[derive(Debug, Clone, Copy, PartialEq, Eq, Structural)]
pub enum ConnectPhase {
    /// The subprocess is being started.
    Spawning,
    /// `initialize` is sent; its response is awaited.
    Initializing,
    /// `initialized` is being sent.
    Announcing,
    /// The connection is ready and in the registry.
    Connected,
    /// The connection was given up.
    Failed,
}

/// What happened while a connection was brought up.
#[derive(Debug)]
pub enum ConnectEvent {
    /// The subprocess runs and its streams are taken.
    Spawned,
    /// The subprocess could not be started.
    SpawnFailed(SpawnFault),
    /// The request `initialize` ended.
    InitializeReplied(Result<serde_json::Value, RpcError>),
    /// The sending of `initialized` ended.
    InitializedSent(Result<(), RpcError>),
}

/// What the host has to do next to bring the connection up.
#[derive(Debug)]
pub enum ConnectAction {
    /// Send the call as a request and wait for its response.
    SendInitialize(RpcCall),
    /// Send the call as a notification.
    SendInitialized(RpcCall),
    /// Enter the connection into the registry: it is up.
    Insert,
    /// Discard the connection, kill its process where `kill` says so, and
    /// report the error.
    Abort { kill: bool, error: ConnectError },
    /// Nothing: the event does not belong to this phase.
    Nothing,
}

/// The content of a [`ConnectAction`].
pub enum ConnectActionView {
    SendInitialize(RpcCallView),
    SendInitialized(RpcCallView),
    Insert,
    Abort { kill: bool, error: ConnectErrorView },
    Nothing,
}

impl View for ConnectAction {
    type V = ConnectActionView;

    open spec fn view(&self) -> ConnectActionView {
        match self {
            ConnectAction::SendInitialize(call) => ConnectActionView::SendInitialize(call@),
            ConnectAction::SendInitialized(call) => ConnectActionView::SendInitialized(call@),
            ConnectAction::Insert => ConnectActionView::Insert,
            ConnectAction::Abort { kill, error } => ConnectActionView::Abort {
                kill: *kill,
                error: error@,
            },
            ConnectAction::Nothing => ConnectActionView::Nothing,
        }
    }
}

/// The bringing up of one connection, step by step.
pub struct Handshake {
    phase: ConnectPhase,
    binary: String,
}

/// The content of a [`Handshake`].
pub struct HandshakeView {
    pub phase: ConnectPhase,
    pub binary: Seq<char>,
}

impl View for Handshake {
    type V = HandshakeView;

    closed spec fn view(&self) -> HandshakeView {
        HandshakeView { phase: self.phase, binary: self.binary@ }
    }
}

impl HandshakeView {
    /// The phase after an event, and what the host has to do. Each phase
    /// waits for one kind of event; success leads to the next phase, failure
    /// to the end, and the process is killed in every failure after its
    /// start. An event of another kind changes nothing.
    pub open spec fn next(self, event: ConnectEvent) -> (HandshakeView, ConnectActionView) {
        let failed = HandshakeView { phase: ConnectPhase::Failed, ..self };
        match (self.phase, event) {
            (ConnectPhase::Spawning, ConnectEvent::Spawned) => (
                HandshakeView { phase: ConnectPhase::Initializing, ..self },
                ConnectActionView::SendInitialize(initialize_call()),
            ),
            (ConnectPhase::Spawning, ConnectEvent::SpawnFailed(fault)) => (
                failed,
                ConnectActionView::Abort {
                    kill: false,
                    error: ConnectErrorView::SpawnFailure {
                        reason: spawn_failure_text(self.binary, fault),
                    },
                },
            ),
            (ConnectPhase::Initializing, ConnectEvent::InitializeReplied(Ok(_))) => (
                HandshakeView { phase: ConnectPhase::Announcing, ..self },
                ConnectActionView::SendInitialized(initialized_call()),
            ),
            (ConnectPhase::Initializing, ConnectEvent::InitializeReplied(Err(error))) => (
                failed,
                ConnectActionView::Abort {
                    kill: true,
                    error: ConnectErrorView::HandshakeFailure(error@),
                },
            ),
            (ConnectPhase::Announcing, ConnectEvent::InitializedSent(Ok(_))) => (
                HandshakeView { phase: ConnectPhase::Connected, ..self },
                ConnectActionView::Insert,
            ),
            (ConnectPhase::Announcing, ConnectEvent::InitializedSent(Err(error))) => (
                failed,
                ConnectActionView::Abort {
                    kill: true,
                    error: ConnectErrorView::HandshakeFailure(error@),
                },
            ),
            _ => (self, ConnectActionView::Nothing),
        }
    }
}

fn initialize() -> (call: RpcCall)
    ensures
        call@ == initialize_call(),
{
    let none: Vec<(String, serde_json::Value)> = Vec::new();
    assert(entries_of(none@) =~= Seq::empty());
    assert(object_of(entries_of(none@)) =~= Map::empty());
    let params = InitializeParams {
        protocol_version: PROTOCOL_VERSION,
        client_capabilities: object(none),
    };
    RpcCall { method: String::from_str("initialize"), params: Some(params.to_value()) }
}

fn spawn_failure(binary: &str, fault: SpawnFault) -> (error: ConnectError)
    ensures
        error@ == (ConnectErrorView::SpawnFailure { reason: spawn_failure_text(binary@, fault) }),
{
    let reason = match fault {
        SpawnFault::NotStarted { cause } => {
            let mut text = String::from_str("Failed to spawn ");
            text.append(binary);
            text.append(": ");
            text.append(cause.as_str());
            text
        },
        SpawnFault::NoStdin => String::from_str("Failed to capture stdin"),
        SpawnFault::NoStdout => String::from_str("Failed to capture stdout"),
    };
    ConnectError::SpawnFailure { reason }
}

impl Handshake {
    /// The bringing up of a connection whose subprocess runs `binary`. The
    /// host starts the subprocess and reports how that went.
    pub fn new(binary: &str) -> (handshake: Handshake)
        ensures
            handshake@ == (HandshakeView { phase: ConnectPhase::Spawning, binary: binary@ }),
    {
        Handshake { phase: ConnectPhase::Spawning, binary: String::from_str(binary) }
    }

    /// How far the bringing up has come.
    pub fn phase(&self) -> (phase: ConnectPhase)
        ensures
            phase == self@.phase,
    {
        self.phase
    }

    /// Takes an event and says what the host has to do next.
    pub fn step(&mut self, event: ConnectEvent) -> (action: ConnectAction)
        ensures
            final(self)@ == old(self)@.next(event).0,
            action@ == old(self)@.next(event).1,
    {
        match self.phase {
            ConnectPhase::Spawning => match event {
                ConnectEvent::Spawned => {
                    self.phase = ConnectPhase::Initializing;
                    ConnectAction::SendInitialize(initialize())
                },
                ConnectEvent::SpawnFailed(fault) => {
                    self.phase = ConnectPhase::Failed;
                    ConnectAction::Abort {
                        kill: false,
                        error: spawn_failure(self.binary.as_str(), fault),
                    }
                },
                _ => ConnectAction::Nothing,
            },
            ConnectPhase::Initializing => match event {
                ConnectEvent::InitializeReplied(Ok(_)) => {
                    self.phase = ConnectPhase::Announcing;
                    ConnectAction::SendInitialized(
                        RpcCall { method: String::from_str("initialized"), params: None },
                    )
                },
                ConnectEvent::InitializeReplied(Err(error)) => {
                    self.phase = ConnectPhase::Failed;
                    ConnectAction::Abort {
                        kill: true,
                        error: ConnectError::HandshakeFailure(error),
                    }
                },
                _ => ConnectAction::Nothing,
            },
            ConnectPhase::Announcing => match event {
                ConnectEvent::InitializedSent(Ok(_)) => {
                    self.phase = ConnectPhase::Connected;
                    ConnectAction::Insert
                },
                ConnectEvent::InitializedSent(Err(error)) => {
                    self.phase = ConnectPhase::Failed;
                    ConnectAction::Abort {
                        kill: true,
                        error: ConnectError::HandshakeFailure(error),
                    }
                },
                _ => ConnectAction::Nothing,
            },
            _ => ConnectAction::Nothing,
        }
    }
}

} // verus!
