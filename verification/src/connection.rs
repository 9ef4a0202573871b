//! The life of one client connection: handshake, active reading under an
//! idle timeout, and the single teardown.
//!
//! The driver that owns the socket reads one input at a time and hands it to
//! [`ConnectionState::on_input`], which changes the registry as the input
//! asks and answers with what the driver has to do next.

use tokio::sync::mpsc::{Receiver, Sender};
use vstd::prelude::*;

use crate::events::{Capability, ComputerEvent};
use crate::websocket::{ClientRecord, ClientRegistry, ClientSender, WsFrame, OUTBOUND_CAPACITY};

verus! {

/// How long an active connection may stay silent, in seconds.
pub const IDLE_TIMEOUT_SECS: u64 = 120;

/// Where a connection stands.
#[derive(Debug, Clone, Copy, PartialEq, Eq, Structural)]
pub enum ConnectionState {
    /// Nothing was read yet; the first frame has to register the client.
    AwaitingRegister,
    /// The client is registered under `id`.
    Active { id: i32 },
    /// The connection is over.
    Closed,
}

/// What one read on the socket produced.
#[derive(Debug)]
pub enum SocketInput {
    /// A text frame that decoded as an event.
    Event(ComputerEvent),
    /// A text frame that did not decode.
    Malformed,
    /// A close frame from the peer.
    Close,
    /// A frame that is neither text nor close.
    Other,
    /// The read failed.
    ReadError,
    /// The stream ended without a close frame.
    StreamEnd,
    /// The idle timeout ran out before any frame came.
    IdleTimeout,
}

/// What one read on the socket gave, before any decoding.
#[derive(Debug)]
pub enum SocketRead {
    /// A frame arrived.
    Frame(WsFrame),
    /// The read failed.
    Failed,
    /// The stream ended.
    Ended,
    /// The time allowed for the read ran out.
    TimedOut,
}

/// A read, as far as it can be told without decoding.
#[derive(Debug)]
pub enum Reading {
    /// The read is this input.
    Input(SocketInput),
    /// The read is a text frame with this text, which has to be decoded.
    Decode(String),
}

/// What the driver has to do after an input.
pub enum SocketStep {
    /// The handshake was refused: drop the connection.
    Abort,
    /// The handshake was accepted and the client is registered: route
    /// `event`, forward what arrives on `outbox` to the socket, and read on.
    Accepted { event: ComputerEvent, outbox: Receiver<WsFrame> },
    /// Route `event` and read on.
    Route { event: ComputerEvent },
    /// Read on.
    Continue,
    /// The client was removed: route `event`, send a close frame to the peer
    /// if `send_close` says so, and stop.
    Finish { event: ComputerEvent, send_close: bool },
    /// The connection was over already.
    Stopped,
}

/// What an input does to the registry.
pub enum RegistryEffect {
    Untouched,
    Registers { id: i32, capabilities: Seq<Capability> },
    Removes { id: i32 },
}

/// Everything that follows from one input in one state.
pub struct Transition {
    pub next: ConnectionState,
    pub effect: RegistryEffect,
    pub routed: Option<ComputerEvent>,
    pub send_close: bool,
}

/// Whether an input is a registration, the only input that opens a
/// connection.
pub open spec fn is_registration(input: SocketInput) -> bool {
    input matches SocketInput::Event(ComputerEvent::Register { .. })
}

/// Whether an input ends an active connection, and if so whether by
/// timeout.
pub open spec fn ending(input: SocketInput) -> Option<bool> {
    match input {
        SocketInput::Close => Some(false),
        SocketInput::StreamEnd => Some(false),
        SocketInput::IdleTimeout => Some(true),
        _ => None,
    }
}

/// The transition relation of a connection.
pub open spec fn transition(state: ConnectionState, input: SocketInput) -> Transition {
    match state {
        ConnectionState::AwaitingRegister => match input {
            SocketInput::Event(ComputerEvent::Register { id, capabilities }) => Transition {
                next: ConnectionState::Active { id },
                effect: RegistryEffect::Registers { id, capabilities: capabilities@ },
                routed: Some(ComputerEvent::Register { id, capabilities }),
                send_close: false,
            },
            _ => Transition {
                next: ConnectionState::Closed,
                effect: RegistryEffect::Untouched,
                routed: None,
                send_close: false,
            },
        },
        ConnectionState::Active { id } => match input {
            SocketInput::Event(event) => Transition {
                next: state,
                effect: RegistryEffect::Untouched,
                routed: Some(event),
                send_close: false,
            },
            SocketInput::Close | SocketInput::StreamEnd => Transition {
                next: ConnectionState::Closed,
                effect: RegistryEffect::Removes { id },
                routed: Some(ComputerEvent::Deregister { id, timed_out: false }),
                send_close: false,
            },
            SocketInput::IdleTimeout => Transition {
                next: ConnectionState::Closed,
                effect: RegistryEffect::Removes { id },
                routed: Some(ComputerEvent::Deregister { id, timed_out: true }),
                send_close: true,
            },
            _ => Transition {
                next: state,
                effect: RegistryEffect::Untouched,
                routed: None,
                send_close: false,
            },
        },
        ConnectionState::Closed => Transition {
            next: ConnectionState::Closed,
            effect: RegistryEffect::Untouched,
            routed: None,
            send_close: false,
        },
    }
}

/// Whether table `after` is what `effect` makes of table `before`. A
/// registration leaves open which channel the new entry holds.
pub open spec fn applies(
    effect: RegistryEffect,
    before: Map<i32, ClientRecord>,
    after: Map<i32, ClientRecord>,
) -> bool {
    match effect {
        RegistryEffect::Untouched => after == before,
        RegistryEffect::Registers { id, capabilities } => {
            &&& after.contains_key(id)
            &&& after[id].capabilities == capabilities
            &&& after.remove(id) == before.remove(id)
        },
        RegistryEffect::Removes { id } => after == before.remove(id),
    }
}

/// Whether `step` tells the driver what `t` asks for.
pub open spec fn announces(step: SocketStep, state: ConnectionState, t: Transition) -> bool {
    match step {
        SocketStep::Abort => state is AwaitingRegister && t.next is Closed && t.routed is None,
        SocketStep::Accepted { event, outbox } => state is AwaitingRegister && t.next is Active
            && t.routed == Some(event),
        SocketStep::Route { event } => state is Active && t.next == state && t.routed == Some(
            event,
        ),
        SocketStep::Continue => state is Active && t.next == state && t.routed is None,
        SocketStep::Finish { event, send_close } => state is Active && t.next is Closed
            && t.routed == Some(event) && t.send_close == send_close,
        SocketStep::Stopped => state is Closed,
    }
}

/// The input that a read amounts to: a text frame has to be decoded, a
/// close frame closes, any other frame counts for nothing but having come.
pub open spec fn reading(read: SocketRead) -> Reading {
    match read {
        SocketRead::Frame(WsFrame::Text(text)) => Reading::Decode(text),
        SocketRead::Frame(WsFrame::Close) => Reading::Input(SocketInput::Close),
        SocketRead::Frame(_) => Reading::Input(SocketInput::Other),
        SocketRead::Failed => Reading::Input(SocketInput::ReadError),
        SocketRead::Ended => Reading::Input(SocketInput::StreamEnd),
        SocketRead::TimedOut => Reading::Input(SocketInput::IdleTimeout),
    }
}

/// Tells what a read amounts to.
pub fn classify(read: SocketRead) -> (r: Reading)
    ensures
        r == reading(read),
{
    match read {
        SocketRead::Frame(WsFrame::Text(text)) => Reading::Decode(text),
        SocketRead::Frame(WsFrame::Close) => Reading::Input(SocketInput::Close),
        SocketRead::Frame(_) => Reading::Input(SocketInput::Other),
        SocketRead::Failed => Reading::Input(SocketInput::ReadError),
        SocketRead::Ended => Reading::Input(SocketInput::StreamEnd),
        SocketRead::TimedOut => Reading::Input(SocketInput::IdleTimeout),
    }
}

/// The input that a text frame amounts to, given what decoding it as an
/// event gave: the event, or a malformed frame where it did not decode.
pub fn decoded(event: Option<ComputerEvent>) -> (input: SocketInput)
    ensures
        match event {
            Some(e) => input == SocketInput::Event(e),
            None => input is Malformed,
        },
{
    match event {
        Some(e) => SocketInput::Event(e),
        None => SocketInput::Malformed,
    }
}

/// tokio's `mpsc::channel`: a fresh bounded channel that holds up to
/// `capacity` frames. tokio refuses a capacity of zero and one above an
/// eighth of `usize::MAX`. Nothing is claimed of the two ends.
#[verifier::external_body]
fn outbound_channel(capacity: usize) -> (ends: (Sender<WsFrame>, Receiver<WsFrame>))
    requires
        0 < capacity <= usize::MAX / 8,
{
    tokio::sync::mpsc::channel(capacity)
}

fn copy_capabilities(capabilities: &Vec<Capability>) -> (copy: Vec<Capability>)
    ensures
        copy@ == capabilities@,
{
    let mut copy: Vec<Capability> = Vec::new();
    let mut i: usize = 0;
    while i < capabilities.len()
        invariant
            i <= capabilities.len(),
            copy@ == capabilities@.take(i as int),
        decreases capabilities.len() - i,
    {
        copy.push(capabilities[i]);
        assert(capabilities@.take(i + 1) =~= capabilities@.take(i as int).push(
            capabilities@[i as int],
        ));
        i += 1;
    }
    assert(capabilities@.take(i as int) =~= capabilities@);
    copy
}

impl ConnectionState {
    /// A connection on which nothing was read yet.
    pub fn new() -> (state: ConnectionState)
        ensures
            state is AwaitingRegister,
    {
        ConnectionState::AwaitingRegister
    }

    /// For how many seconds the next read may wait: without limit for the
    /// first frame, the idle timeout while active.
    pub open spec fn read_limit(self) -> Option<u64> {
        match self {
            ConnectionState::Active { .. } => Some(IDLE_TIMEOUT_SECS),
            _ => None,
        }
    }

    /// For how many seconds the next read may wait.
    pub fn wait_limit(&self) -> (limit: Option<u64>)
        ensures
            limit == self.read_limit(),
    {
        match self {
            ConnectionState::Active { .. } => Some(IDLE_TIMEOUT_SECS),
            _ => None,
        }
    }

    /// Takes one input: moves to the next state, registers or removes the
    /// client in `registry` as the transition asks, and tells the driver
    /// what to do.
    pub fn on_input(&mut self, registry: &mut ClientRegistry, input: SocketInput) -> (step:
        SocketStep)
        ensures
            *final(self) == transition(*old(self), input).next,
            applies(transition(*old(self), input).effect, old(registry)@, final(registry)@),
            announces(step, *old(self), transition(*old(self), input)),
    {
        let ghost t = transition(*old(self), input);
        match *self {
            ConnectionState::AwaitingRegister => match input {
                SocketInput::Event(ComputerEvent::Register { id, capabilities }) => {
                    let (sender, outbox) = outbound_channel(OUTBOUND_CAPACITY);
                    registry.register(id, sender, copy_capabilities(&capabilities));
                    *self = ConnectionState::Active { id };
                    proof {
                        let record = ClientRecord {
                            sender: ClientSender::of(sender),
                            capabilities: capabilities@,
                        };
                        assert(registry@ == old(registry)@.insert(id, record));
                        assert(registry@.remove(id) =~= old(registry)@.remove(id));
                    }
                    SocketStep::Accepted {
                        event: ComputerEvent::Register { id, capabilities },
                        outbox,
                    }
                },
                _ => {
                    *self = ConnectionState::Closed;
                    SocketStep::Abort
                },
            },
            ConnectionState::Active { id } => match input {
                SocketInput::Event(event) => SocketStep::Route { event },
                SocketInput::Close | SocketInput::StreamEnd => {
                    registry.remove(id);
                    *self = ConnectionState::Closed;
                    SocketStep::Finish {
                        event: ComputerEvent::Deregister { id, timed_out: false },
                        send_close: false,
                    }
                },
                SocketInput::IdleTimeout => {
                    registry.remove(id);
                    *self = ConnectionState::Closed;
                    SocketStep::Finish {
                        event: ComputerEvent::Deregister { id, timed_out: true },
                        send_close: true,
                    }
                },
                _ => SocketStep::Continue,
            },
            ConnectionState::Closed => SocketStep::Stopped,
        }
    }
}

/// The state of a connection after a run of inputs, first to last.
pub open spec fn run(state: ConnectionState, inputs: Seq<SocketInput>) -> ConnectionState
    decreases inputs.len(),
{
    if inputs.len() == 0 {
        state
    } else {
        run(transition(state, inputs.first()).next, inputs.drop_first())
    }
}

/// How often a run of inputs registers a client.
pub open spec fn registrations(state: ConnectionState, inputs: Seq<SocketInput>) -> nat
    decreases inputs.len(),
{
    if inputs.len() == 0 {
        0
    } else {
        let t = transition(state, inputs.first());
        let here: nat = if t.effect is Registers {
            1
        } else {
            0
        };
        here + registrations(t.next, inputs.drop_first())
    }
}

/// How often a run of inputs tears the connection down, that is removes the
/// client and routes its deregistration.
pub open spec fn teardowns(state: ConnectionState, inputs: Seq<SocketInput>) -> nat
    decreases inputs.len(),
{
    if inputs.len() == 0 {
        0
    } else {
        let t = transition(state, inputs.first());
        let here: nat = if t.effect is Removes {
            1
        } else {
            0
        };
        here + teardowns(t.next, inputs.drop_first())
    }
}

/// The removal and the deregistration come together: a transition removes
/// the client exactly when it routes the deregistration of that client,
/// and only an active connection does either.
pub proof fn lemma_teardown_is_whole(state: ConnectionState, input: SocketInput)
    ensures
        transition(state, input).effect matches RegistryEffect::Removes { id } ==> {
            &&& state == (ConnectionState::Active { id })
            &&& ending(input) matches Some(timed_out)
            &&& transition(state, input).routed == Some(
                ComputerEvent::Deregister { id, timed_out },
            )
            &&& transition(state, input).next is Closed
        },
        state is Active && ending(input) is Some ==> transition(state, input).effect is Removes,
{
}

/// A closed connection stays closed and touches nothing.
pub proof fn lemma_closed_is_final(inputs: Seq<SocketInput>)
    ensures
        run(ConnectionState::Closed, inputs) is Closed,
        registrations(ConnectionState::Closed, inputs) == 0,
        teardowns(ConnectionState::Closed, inputs) == 0,
    decreases inputs.len(),
{
    if inputs.len() > 0 {
        lemma_closed_is_final(inputs.drop_first());
    }
}

/// An active connection is torn down once if the run closes it, and not at
/// all while it stays active; it registers nothing further.
pub proof fn lemma_active_tears_down_once(id: i32, inputs: Seq<SocketInput>)
    ensures
        registrations(ConnectionState::Active { id }, inputs) == 0,
        match run(ConnectionState::Active { id }, inputs) {
            ConnectionState::Closed => teardowns(ConnectionState::Active { id }, inputs) == 1,
            after => after == (ConnectionState::Active { id }) && teardowns(
                ConnectionState::Active { id },
                inputs,
            ) == 0,
        },
    decreases inputs.len(),
{
    if inputs.len() > 0 {
        let state = ConnectionState::Active { id };
        let t = transition(state, inputs.first());
        if t.next is Closed {
            lemma_closed_is_final(inputs.drop_first());
        } else {
            lemma_active_tears_down_once(id, inputs.drop_first());
        }
    }
}

/// A connection whose first input is not a registration is closed at once,
/// and whatever follows, it never registers a client nor removes one.
pub proof fn lemma_handshake_enforced(inputs: Seq<SocketInput>)
    requires
        inputs.len() > 0,
        !is_registration(inputs.first()),
    ensures
        transition(ConnectionState::AwaitingRegister, inputs.first()).next is Closed,
        transition(ConnectionState::AwaitingRegister, inputs.first()).effect is Untouched,
        transition(ConnectionState::AwaitingRegister, inputs.first()).routed is None,
        run(ConnectionState::AwaitingRegister, inputs) is Closed,
        registrations(ConnectionState::AwaitingRegister, inputs) == 0,
        teardowns(ConnectionState::AwaitingRegister, inputs) == 0,
{
    lemma_closed_is_final(inputs.drop_first());
}

/// Over any run of inputs on a new connection, the client is registered at
/// most once and torn down at most once, never torn down without having
/// been registered, and torn down exactly once where the run ends with a
/// registered connection closed.
pub proof fn lemma_single_teardown(inputs: Seq<SocketInput>)
    ensures
        registrations(ConnectionState::AwaitingRegister, inputs) <= 1,
        teardowns(ConnectionState::AwaitingRegister, inputs) <= registrations(
            ConnectionState::AwaitingRegister,
            inputs,
        ),
        registrations(ConnectionState::AwaitingRegister, inputs) == 1 && run(
            ConnectionState::AwaitingRegister,
            inputs,
        ) is Closed ==> teardowns(ConnectionState::AwaitingRegister, inputs) == 1,
{
    if inputs.len() > 0 {
        let t = transition(ConnectionState::AwaitingRegister, inputs.first());
        match t.next {
            ConnectionState::Active { id } => {
                lemma_active_tears_down_once(id, inputs.drop_first());
            },
            _ => {
                lemma_closed_is_final(inputs.drop_first());
            },
        }
    }
}

/// An idle timeout on an active connection removes the client, routes its
/// deregistration as timed out, asks for a close frame and closes. Any
/// input that does not end the connection leaves it active, and the next
/// read may again wait for the whole idle timeout.
pub proof fn lemma_idle_timeout(id: i32, input: SocketInput)
    ensures
        input is IdleTimeout ==> {
            let t = transition(ConnectionState::Active { id }, input);
            &&& t.next is Closed
            &&& t.effect == (RegistryEffect::Removes { id })
            &&& t.routed == Some(ComputerEvent::Deregister { id, timed_out: true })
            &&& t.send_close
        },
        ending(input) is None ==> {
            let t = transition(ConnectionState::Active { id }, input);
            &&& t.next == (ConnectionState::Active { id })
            &&& t.effect is Untouched
            &&& t.next.read_limit() == Some(IDLE_TIMEOUT_SECS)
        },
        ending(input) == Some(false) ==> {
            let t = transition(ConnectionState::Active { id }, input);
            &&& t.next is Closed
            &&& t.effect == (RegistryEffect::Removes { id })
            &&& t.routed == Some(ComputerEvent::Deregister { id, timed_out: false })
            &&& !t.send_close
        },
{
}

} // verus!
