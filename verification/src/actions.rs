//! Actions towards connected computers, and how each is carried out.
//!
//! Carrying out an action has three parts. [`ComputerDispatchService::handle_action`]
//! decides where the frame goes; the caller puts the frame on the channel;
//! [`ComputerDispatchService::settle`] turns what the channel answered into
//! the action's result.

use vstd::prelude::*;
use vstd::string::*;

use crate::events::Capability;
use crate::websocket::{
    lua_command_json, not_registered_text, serialize_lua_command, ClientRegistry, ClientSendError,
    ClientSender, Delivery, LuaCommand, WsFrame,
};
use crate::DispatchError;

verus! {

/// Something to be done towards a connected computer.
#[derive(Clone)]
pub enum ComputerAction {
    /// Put a frame on the channel of client `id`.
    SendToId { id: i32, message: WsFrame },
    /// Send a command to some client that advertises `capability`.
    SendToCapability { capability: Capability, command: LuaCommand },
}

/// Carries out actions against the registry.
pub struct ComputerDispatchService {}

impl ComputerDispatchService {
    /// What a command for a capability comes to, given the client that was
    /// found for the capability and what the JSON writer made of the
    /// command: no client, no delivery; a writer's error is a failed send;
    /// else the text goes to the client that was found.
    pub fn capability_delivery(
        found: Option<ClientSender>,
        serialized: Result<String, serde_json::Error>,
    ) -> (r: Result<Delivery, DispatchError>)
        ensures
            match (found, serialized) {
                (None, _) => r matches Err(DispatchError::NoClient),
                (Some(sender), Ok(text)) => r matches Ok(d) && d.sender == sender && d.frame
                    == WsFrame::Text(text) && d.target is None,
                (Some(_), Err(e)) => r matches Err(DispatchError::SendFailed(detail))
                    && ClientSendError::SerializeFailed(e).text_prefix().is_prefix_of(detail@),
            },
    {
        match found {
            None => Err(DispatchError::NoClient),
            Some(sender) => match sender.frame_serialized(serialized) {
                Ok(delivery) => Ok(delivery),
                Err(e) => Err(DispatchError::SendFailed(e.to_string())),
            },
        }
    }

    /// Decides where the frame of an action goes.
    ///
    /// A frame for an id goes to the channel recorded for that id; an
    /// unknown id is a failed send. A command for a capability goes, as
    /// JSON text, to one client that advertises the capability; where none
    /// does the action fails for want of a client.
    pub fn handle_action(registry: &ClientRegistry, action: ComputerAction) -> (r: Result<
        Delivery,
        DispatchError,
    >)
        ensures
            match action {
                ComputerAction::SendToId { id, message } => if registry@.contains_key(id) {
                    r matches Ok(d) && d.sender == registry@[id].sender && d.frame == message
                        && d.target == Some(id)
                } else {
                    r matches Err(DispatchError::SendFailed(detail)) && detail@
                        == not_registered_text(id as int)
                },
                ComputerAction::SendToCapability { capability, command } => if registry.has_capable(
                    capability,
                ) {
                    match r {
                        Ok(d) => d.target is None && (d.frame matches WsFrame::Text(text)
                            && lua_command_json(command) == Some(text@)) && exists|id: i32|
                            #[trigger] registry.serves(id, capability) && d.sender
                                == registry@[id].sender,
                        Err(e) => lua_command_json(command) is None && (e matches
                        DispatchError::SendFailed(detail) && "serialize failed: "@.is_prefix_of(
                            detail@,
                        )),
                    }
                } else {
                    r matches Err(DispatchError::NoClient)
                },
            },
    {
        match action {
            ComputerAction::SendToId { id, message } => match registry.send_to(id, message) {
                Ok(delivery) => Ok(delivery),
                Err(detail) => Err(DispatchError::SendFailed(detail)),
            },
            ComputerAction::SendToCapability { capability, command } => {
                let found = registry.find_by_capability(capability);
                if found.is_none() {
                    return Err(DispatchError::NoClient);
                }
                Self::capability_delivery(found, serialize_lua_command(&command))
            },
        }
    }

    /// The result of an action once the channel has answered: done, or a
    /// failed send that says what the channel complained of.
    pub fn settle(delivery: &Delivery, sent: Result<(), String>) -> (r: Result<(), DispatchError>)
        ensures
            match sent {
                Ok(()) => r is Ok,
                Err(detail) => r matches Err(DispatchError::SendFailed(text)) && text@
                    == delivery.failure_text(detail@),
            },
    {
        match sent {
            Ok(()) => Ok(()),
            Err(detail) => Err(DispatchError::SendFailed(delivery.failure(detail.as_str()))),
        }
    }

    /// The result that the caller of an action sees, given how the unit of
    /// work that carried it out ended: its own result where it ran to its
    /// end, success where it broke off (`None`), since a broken unit of work
    /// is no failed delivery.
    pub fn joined(outcome: Option<Result<(), DispatchError>>) -> (r: Result<(), DispatchError>)
        ensures
            match outcome {
                Some(result) => r == result,
                None => r is Ok,
            },
    {
        match outcome {
            Some(result) => result,
            None => Ok(()),
        }
    }
}

} // verus!
