//! Gateway core: a registry of connected clients, capability routing,
//! the per-connection state machine, and the reconnecting upstream link.

use vstd::prelude::*;
use vstd::string::*;

pub mod actions;
pub mod brain;
pub mod connection;
pub mod events;
pub mod grpc;
pub mod text;
pub mod websocket;

verus! {

/// Why an outbound action could not be carried out.
#[derive(Debug)]
pub enum DispatchError {
    /// The client was found but the frame could not be handed to it.
    SendFailed(String),
    /// No connected client can take the action.
    NoClient,
}

impl DispatchError {
    /// The text of this error as a spec-level sequence of characters.
    pub open spec fn text(self) -> Seq<char> {
        match self {
            DispatchError::SendFailed(e) => "send failed: "@ + e@,
            DispatchError::NoClient => "no client available"@,
        }
    }

    /// Renders the error for a human reader.
    pub fn to_string(&self) -> (s: String)
        ensures
            s@ == self.text(),
    {
        match self {
            DispatchError::SendFailed(e) => {
                let mut s = String::from_str("send failed: ");
                s.append(e.as_str());
                s
            },
            DispatchError::NoClient => String::from_str("no client available"),
        }
    }
}

} // verus!
