//! Verified core of an asynchronous, reconnecting client for a
//! length-prefixed binary request/response protocol over TCP.
//!
//! The library holds the decisions: frame encoding and decoding, the
//! response payload reader, the client lifecycle and reconnection policy,
//! the size-tiered buffer pool and the socket tuning plans. The I/O that
//! runs around them stands outside.
pub mod error;
pub mod client_state;
pub mod frame;
pub mod response;
pub mod config_socket;
pub mod socket_optimizer;
pub mod config_reconnection;
pub mod config_client;
pub mod diagnostic;
pub mod lifecycle;
pub mod buffer_pool;
pub mod factory;
pub mod connection_string;
