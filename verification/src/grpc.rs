//! The control surface: a request from the Brain to say something in chat,
//! and the status that goes back.

use vstd::prelude::*;
use vstd::string::*;

use crate::actions::ComputerAction;
use crate::events::Capability;
use crate::websocket::LuaCommand;
use crate::DispatchError;

verus! {

/// How a request to send a chat message ended.
#[derive(Debug, Clone, Copy, PartialEq, Eq, Structural)]
pub enum SendStatus {
    /// The message was handed to a chat client.
    Delivered,
    /// No connected client can chat.
    NoChatClient,
    /// A chat client was found but the message could not be handed to it.
    SendFailed,
}

/// The answer to a request to send a chat message.
#[derive(Debug)]
pub struct SendChatMessageResponse {
    pub status: SendStatus,
    pub error_message: String,
}

/// Serves the control surface.
pub struct GestaltService {}

impl GestaltService {
    /// The status and the message that answer a send result.
    pub open spec fn response_for(send_res: Result<(), DispatchError>) -> (SendStatus, Seq<char>) {
        match send_res {
            Ok(()) => (SendStatus::Delivered, Seq::<char>::empty()),
            Err(DispatchError::NoClient) => (
                SendStatus::NoChatClient,
                "no chat clients connected"@,
            ),
            Err(DispatchError::SendFailed(detail)) => (SendStatus::SendFailed, detail@),
        }
    }

    /// The action that a request with `payload` asks for: a chat message
    /// command with that text, for some client that can chat.
    pub fn send_chat_message(payload: String) -> (action: ComputerAction)
        ensures
            action matches ComputerAction::SendToCapability {
                capability: Capability::Chat,
                command: LuaCommand::Message { id, args },
            } && args.message == payload && id@.len() == 36,
    {
        ComputerAction::SendToCapability {
            capability: Capability::Chat,
            command: LuaCommand::chat_message(payload),
        }
    }

    /// The answer to the request, given how the action ended.
    pub fn response(send_res: Result<(), DispatchError>) -> (r: SendChatMessageResponse)
        ensures
            r.status == Self::response_for(send_res).0,
            r.error_message@ == Self::response_for(send_res).1,
    {
        match send_res {
            Ok(()) => SendChatMessageResponse {
                status: SendStatus::Delivered,
                error_message: String::new(),
            },
            Err(DispatchError::NoClient) => SendChatMessageResponse {
                status: SendStatus::NoChatClient,
                error_message: String::from_str("no chat clients connected"),
            },
            Err(DispatchError::SendFailed(detail)) => SendChatMessageResponse {
                status: SendStatus::SendFailed,
                error_message: detail,
            },
        }
    }
}

} // verus!
