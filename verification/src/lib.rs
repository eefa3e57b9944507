//! A protocol engine for an echo service that answers HTTP requests and
//! WebSocket messages with what it received.
//!
//! The crate holds the decisions of such a service and none of its I/O: a
//! driver reads from the network, hands what it read to the functions here,
//! and performs what they return.

pub mod custom_logger;
pub mod log_utils;
pub mod logging_laws;
pub mod message;
pub mod record;
pub mod server;
pub mod server_laws;
pub mod service;
pub mod tower_loggers;
pub mod trusted;
pub mod ws_logger;

pub use log_utils::HttpLogLevel;
pub use server::EchoServer;
