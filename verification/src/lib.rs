//! A verified core for exposing a Tandoor recipe server as a set of tools.
//!
//! The library never touches the network. It decides what has to be sent,
//! judges what came back, and shapes the payloads that the tools return. A
//! thin shell around it performs the requests and hands the replies back as
//! plain values.

pub mod client;
pub mod dates;
pub mod server;
pub mod session;
pub mod text;

pub use client::client::TandoorClient;
pub use server::TandoorMcpServer;
