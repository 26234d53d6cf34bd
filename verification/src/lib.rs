//! The protocol core of a language server: which incoming messages reach their
//! handlers, what the others are answered, and which messages go out to the
//! language client.

pub mod client;
pub mod json;
pub mod jsonrpc;
pub mod lsp;
pub mod macros;
pub mod state;
pub mod text;
