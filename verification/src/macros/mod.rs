//! The `rpc` attribute: from the declaration of a server trait to the function
//! that registers its methods as handlers.

pub mod expand;
pub mod laws;
pub mod syntax;
pub mod token_laws;
pub mod tokens;
