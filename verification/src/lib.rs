//! Decision logic of a WebSocket echo service for manuscripts.
//!
//! The crate holds everything the service decides: which frame answers an
//! inbound frame, when a connection ends, and what the liveness probe says.
//! The host program owns the sockets; it feeds each connection's events to a
//! [`connection::Connection`] and carries out the reaction it gets back.

pub mod frame;
pub mod connection;
pub mod session;
pub mod isolation;
pub mod endpoint;
