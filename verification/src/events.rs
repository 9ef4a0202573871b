//! Events that arrive from connected computers, and how each is routed.

use vstd::prelude::*;
use vstd::string::*;

use crate::actions::ComputerAction;
use crate::brain::BrainError;
use crate::websocket::{not_registered_text, ClientRecord, ClientRegistry, LuaCommand};
use crate::DispatchError;

verus! {

/// A category of command that a connected client declares it can handle.
#[derive(Debug, Clone, Copy, PartialEq, Eq, Hash, Structural)]
pub enum Capability {
    Chat,
}

/// The capability list of a registration that names none: the empty list.
pub fn default_capabilities() -> (v: Vec<Capability>)
    ensures
        v@ == Seq::<Capability>::empty(),
{
    Vec::new()
}

/// A line of in-game chat, as a computer reports it.
#[derive(Debug, Clone)]
pub struct ComputerChatEvent {
    pub username: String,
    pub message: String,
}

/// The outcome of a command that a computer was asked to run.
#[derive(Debug, Clone)]
pub struct CommandResultEvent {
    pub command_id: String,
    pub error: Option<String>,
}

/// Everything a computer can report.
#[derive(Debug, Clone)]
pub enum ComputerEvent {
    Register { id: i32, capabilities: Vec<Capability> },
    Chat(ComputerChatEvent),
    CommandResult(CommandResultEvent),
    /// A client went away; `timed_out` tells an idle timeout from a close.
    Deregister { id: i32, timed_out: bool },
}

/// Why an event could not be handled.
#[derive(Debug)]
pub enum ControlError {
    Brain(BrainError),
    Dispatch(DispatchError),
}

impl ControlError {
    /// The text that every rendering of this error starts with.
    pub open spec fn text_prefix(self) -> Seq<char> {
        match self {
            ControlError::Brain(e) => "brain error: "@ + e.text_prefix(),
            ControlError::Dispatch(e) => "dispatch error: "@ + e.text(),
        }
    }

    /// Renders the error: where it came from, then the error itself.
    pub fn to_string(&self) -> (s: String)
        ensures
            self.text_prefix().is_prefix_of(s@),
            self is Dispatch ==> s@ == self.text_prefix(),
    {
        match self {
            ControlError::Brain(e) => {
                let mut s = String::from_str("brain error: ");
                let inner = e.to_string();
                s.append(inner.as_str());
                assert(self.text_prefix().is_prefix_of(s@)) by {
                    let rest = inner@.skip(e.text_prefix().len() as int);
                    assert(inner@ =~= e.text_prefix() + rest);
                    assert(s@ =~= self.text_prefix() + rest);
                }
                s
            },
            ControlError::Dispatch(e) => {
                let mut s = String::from_str("dispatch error: ");
                let inner = e.to_string();
                s.append(inner.as_str());
                s
            },
        }
    }
}

/// What handling an event came to, for the record.
#[derive(Debug)]
pub enum EventNote {
    /// A registered client replaced its capabilities.
    CapabilitiesRefreshed { id: i32 },
    /// A client that is not registered tried to replace its capabilities.
    NotRegistered { id: i32, detail: String },
    /// A command ran.
    CommandSucceeded { command_id: String },
    /// A command failed.
    CommandFailed { command_id: String, error: String },
    /// A client closed its connection.
    Deregistered { id: i32 },
    /// A client fell silent and was dropped.
    TimedOut { id: i32 },
}

/// What has to happen for an event.
pub enum EventStep {
    /// The event is handled; `note` is for the record.
    Done { note: EventNote },
    /// The Brain has to be asked about this chat line.
    AskBrain { chat: ComputerChatEvent },
}

/// Routes the events of connected computers.
pub struct ComputerEventService {}

impl ComputerEventService {
    /// A registration refreshes the capabilities of a client that is in the
    /// registry. For a client that is not, nothing changes and the note says
    /// so: the update is dropped, not queued.
    pub fn handle_register(
        registry: &mut ClientRegistry,
        id: i32,
        capabilities: Vec<Capability>,
    ) -> (note: EventNote)
        ensures
            if old(registry)@.contains_key(id) {
                &&& note == (EventNote::CapabilitiesRefreshed { id })
                &&& final(registry)@ == old(registry)@.insert(
                    id,
                    ClientRecord { sender: old(registry)@[id].sender, capabilities: capabilities@ },
                )
            } else {
                &&& note matches EventNote::NotRegistered { id: noted, detail }
                &&& noted == id
                &&& detail@ == not_registered_text(id as int)
                &&& final(registry)@ == old(registry)@
            },
    {
        match registry.update_capabilities(id, capabilities) {
            Ok(()) => EventNote::CapabilitiesRefreshed { id },
            Err(detail) => EventNote::NotRegistered { id, detail },
        }
    }

    /// A command result is only put on record: as a success where it
    /// carries no error, else as a failure with the error.
    pub fn handle_command_result(result_event: CommandResultEvent) -> (note: EventNote)
        ensures
            match result_event.error {
                None => note == (EventNote::CommandSucceeded {
                    command_id: result_event.command_id,
                }),
                Some(error) => note == (EventNote::CommandFailed {
                    command_id: result_event.command_id,
                    error,
                }),
            },
    {
        match result_event.error {
            None => EventNote::CommandSucceeded { command_id: result_event.command_id },
            Some(error) => EventNote::CommandFailed { command_id: result_event.command_id, error },
        }
    }

    /// A deregistration is only put on record, as a timeout or as a close.
    pub fn handle_deregister(id: i32, timed_out: bool) -> (note: EventNote)
        ensures
            note == if timed_out {
                EventNote::TimedOut { id }
            } else {
                EventNote::Deregistered { id }
            },
    {
        if timed_out {
            EventNote::TimedOut { id }
        } else {
            EventNote::Deregistered { id }
        }
    }

    /// What follows from the Brain's answer to a chat line: its error, as a
    /// Brain error; nothing, where the reply is empty; else a chat message
    /// command with the reply, for some client that can chat.
    pub fn handle_chat(reply: Result<String, BrainError>) -> (r: Result<
        Option<ComputerAction>,
        ControlError,
    >)
        ensures
            match reply {
                Err(e) => r matches Err(ControlError::Brain(inner)) && inner == e,
                Ok(text) => if text@.len() == 0 {
                    r matches Ok(None)
                } else {
                    r matches Ok(
                        Some(
                            ComputerAction::SendToCapability {
                                capability: Capability::Chat,
                                command: LuaCommand::Message { id, args },
                            },
                        ),
                    ) && args.message == text && id@.len() == 36
                },
            },
    {
        match reply {
            Err(e) => Err(ControlError::Brain(e)),
            Ok(text) => {
                if text.as_str().is_empty() {
                    Ok(None)
                } else {
                    Ok(
                        Some(
                            ComputerAction::SendToCapability {
                                capability: Capability::Chat,
                                command: LuaCommand::chat_message(text),
                            },
                        ),
                    )
                }
            },
        }
    }

    /// The result of a chat line once its reply was dispatched: a failed
    /// dispatch is a dispatch error.
    pub fn chat_dispatched(sent: Result<(), DispatchError>) -> (r: Result<(), ControlError>)
        ensures
            match sent {
                Ok(()) => r is Ok,
                Err(e) => r matches Err(ControlError::Dispatch(inner)) && inner == e,
            },
    {
        match sent {
            Ok(()) => Ok(()),
            Err(e) => Err(ControlError::Dispatch(e)),
        }
    }

    /// Routes an event by its kind. A chat line has to go to the Brain;
    /// every other event is handled here and now.
    pub fn call(registry: &mut ClientRegistry, event: ComputerEvent) -> (step: EventStep)
        ensures
            match event {
                ComputerEvent::Chat(chat) => step == (EventStep::AskBrain { chat })
                    && final(registry)@ == old(registry)@,
                ComputerEvent::CommandResult(result_event) => final(registry)@ == old(registry)@
                    && (step matches EventStep::Done { note } && (match result_event.error {
                    None => note == (EventNote::CommandSucceeded {
                        command_id: result_event.command_id,
                    }),
                    Some(error) => note == (EventNote::CommandFailed {
                        command_id: result_event.command_id,
                        error,
                    }),
                })),
                ComputerEvent::Register { id, capabilities } => if old(registry)@.contains_key(id) {
                    &&& step == (EventStep::Done { note: EventNote::CapabilitiesRefreshed { id } })
                    &&& final(registry)@ == old(registry)@.insert(
                        id,
                        ClientRecord {
                            sender: old(registry)@[id].sender,
                            capabilities: capabilities@,
                        },
                    )
                } else {
                    &&& step matches EventStep::Done {
                        note: EventNote::NotRegistered { id: noted, detail },
                    }
                    &&& noted == id
                    &&& detail@ == not_registered_text(id as int)
                    &&& final(registry)@ == old(registry)@
                },
                ComputerEvent::Deregister { id, timed_out } => final(registry)@ == old(registry)@
                    && step == (EventStep::Done {
                    note: if timed_out {
                        EventNote::TimedOut { id }
                    } else {
                        EventNote::Deregistered { id }
                    },
                }),
            },
    {
        match event {
            ComputerEvent::Chat(chat) => EventStep::AskBrain { chat },
            ComputerEvent::CommandResult(result_event) => EventStep::Done {
                note: Self::handle_command_result(result_event),
            },
            ComputerEvent::Register { id, capabilities } => EventStep::Done {
                note: Self::handle_register(registry, id, capabilities),
            },
            ComputerEvent::Deregister { id, timed_out } => EventStep::Done {
                note: Self::handle_deregister(id, timed_out),
            },
        }
    }

    /// The result that the caller of an event sees, given how the unit of
    /// work that handled it ended: its own result where it ran to its end,
    /// success where it broke off (`None`).
    pub fn joined(outcome: Option<Result<(), ControlError>>) -> (r: Result<(), ControlError>)
        ensures
            match outcome {
                Some(result) => r == result,
                None => r is Ok,
            },
    {
        match outcome {
            Some(result) => result,
            None => Ok(()),
        }
    }
}

} // verus!
