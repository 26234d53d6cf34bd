//! JSON-RPC 2.0: messages, errors, and the router that dispatches requests.

pub mod error;
pub mod laws;
pub mod message;
pub mod router;
pub mod session;
