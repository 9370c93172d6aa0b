//! Decision logic of a minimal peer-to-peer handshake demo.
//!
//! Two local instances of the same program race to bind one of two well-known
//! loopback ports; whichever holds a port listens there and dials the other
//! port, and the two run a fixed six-turn line-based handshake over the
//! resulting byte stream. This crate holds the verified core of that program:
//! port-role assignment, line framing over a byte stream, the scripted
//! handshake as a state machine, the connector and listener step functions,
//! and the orchestration race. The surrounding I/O (sockets, timers, the
//! interrupt signal) drives these functions from outside.

pub mod channel;
pub mod config;
pub mod connector;
pub mod listener;
pub mod ports;
pub mod protocol;
pub mod race;
