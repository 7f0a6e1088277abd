//! Session engine of an interactive WebSocket command-line peer.
//!
//! The crate holds the decisions of a session: what to do with each inbound
//! frame, how the two bounded queues order what is sent and shown, how a
//! connection is planned and built step by step, and when a session ends.
//! Sockets, TLS, the terminal and the threads that drive them live outside.

pub mod connect;
pub mod display;
pub mod error;
pub mod frame;
pub mod options;
pub mod policy;
pub mod queue;
pub mod server;
pub mod session;
pub mod style;
pub mod terminal;
pub mod text;
pub mod trace;
pub mod transport;
