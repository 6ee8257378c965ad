//! Relay backend core: a single-host, many-client session relay.
//!
//! Clients (over a text-frame transport) send input to one authoritative
//! host (over a length-prefixed byte-stream transport); the host broadcasts
//! state updates back to every client.  This crate holds the verified core:
//! the wire codec for both transports, the connection-reader and login
//! decision logic, and the orchestration state machine that owns the client
//! registry, the single host slot, and the last broadcast state.  The
//! surrounding process (sockets, tasks, TLS) drives these functions and
//! performs the I/O they decide on.

pub mod laws;
pub mod messages;
pub mod reader;
pub mod server;
pub mod wire;
