//! Connection management for agent subprocesses that speak JSON-RPC 2.0 over
//! newline-delimited standard streams.
//!
//! The crate holds the decisions of the bridge: how a message is framed and
//! decoded, how responses are correlated to the requests that caused them,
//! how unsolicited messages are routed, and in which order a connection is
//! brought up and torn down. Processes, pipes, timers and tasks belong to the
//! host, which performs the actions that the functions here return.
//!
//! - [`codec`] and [`types`] frame and decode lines; [`json`] is the boundary
//!   to `serde_json`, [`fields`] reads members, [`text`] writes numerals.
//! - [`pending`] holds the requests that wait, [`connection`] one
//!   connection, [`writer`] its writer and [`router`] what the agent sends
//!   unasked.
//! - [`registry`] holds the live connections, [`handshake`] brings one up,
//!   and [`commands`] are the operations on both, with [`params`] and
//!   [`session`] for what they send and read.
//! - [`theorems`] states what holds over any course of events.
//! - [`plan_file`] names the files in which plans are kept.

pub mod codec;
pub mod commands;
pub mod connection;
pub mod error;
pub mod fields;
pub mod handshake;
pub mod json;
pub mod params;
pub mod pending;
pub mod plan_file;
pub mod registry;
pub mod router;
pub mod session;
pub mod text;
pub mod theorems;
pub mod types;
pub mod writer;
