//! The life of a language server, from its start to its end.

use vstd::prelude::*;

verus! {

/// How far a server has come.
#[derive(Clone, Copy, Debug, PartialEq, Eq, Structural)]
pub enum State {
    /// No `initialize` request was received yet.
    Uninitialized,
    /// The `initialize` request is being handled.
    Initializing,
    /// The `initialize` request was answered with success.
    Initialized,
    /// A `shutdown` request was received.
    ShutDown,
    /// An `exit` notification was received.
    Exited,
}

impl State {
    /// Whether messages that need an initialized server may go to the client.
    pub open spec fn opens_client(self) -> bool {
        self == State::Initialized || self == State::ShutDown
    }

    /// Whether messages that need an initialized server may go to the client.
    pub fn is_open(self) -> (r: bool)
        ensures
            r == self.opens_client(),
            r == (self == State::Initialized || self == State::ShutDown),
    {
        match self {
            State::Initialized | State::ShutDown => true,
            _ => false,
        }
    }
}

} // verus!
