//! Call control core for one-to-one calls: the call-level state machine,
//! its per-connection subprotocol, hangup propagation and the serial task
//! pools through which it hands work to the media backend and the
//! application.

pub mod types;
pub mod hangup;
pub mod connection;
pub mod signaling;
pub mod call_fsm;
pub mod laws;
pub mod sim_platform;
pub mod protobuf;
