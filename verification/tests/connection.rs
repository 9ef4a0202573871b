use gestalt::connection::{
    classify, decoded, ConnectionState, Reading, SocketInput, SocketRead, SocketStep,
    IDLE_TIMEOUT_SECS,
};
use gestalt::events::{Capability, ComputerChatEvent, ComputerEvent};
use gestalt::websocket::{ClientRegistry, WsFrame, OUTBOUND_CAPACITY};
use tokio::sync::mpsc::error::TrySendError;
use tokio::sync::mpsc::Receiver;

fn register(id: i32, capabilities: Vec<Capability>) -> SocketInput {
    SocketInput::Event(ComputerEvent::Register { id, capabilities })
}

fn chat(text: &str) -> SocketInput {
    SocketInput::Event(ComputerEvent::Chat(ComputerChatEvent {
        username: String::from("steve"),
        message: String::from(text),
    }))
}

/// A connection that has registered client `id` for chat.
fn active(registry: &mut ClientRegistry, id: i32) -> (ConnectionState, Receiver<WsFrame>) {
    let mut state = ConnectionState::new();
    match state.on_input(registry, register(id, vec![Capability::Chat])) {
        SocketStep::Accepted { outbox, .. } => (state, outbox),
        _ => panic!("a registration must be accepted"),
    }
}

#[test]
fn new_connection_awaits_its_registration() {
    let state = ConnectionState::new();
    assert_eq!(state, ConnectionState::AwaitingRegister);
    assert_eq!(state.wait_limit(), None);
}

#[test]
fn first_frame_that_is_no_registration_aborts() {
    let refused = vec![
        SocketInput::Malformed,
        SocketInput::Close,
        SocketInput::Other,
        SocketInput::ReadError,
        SocketInput::StreamEnd,
        SocketInput::IdleTimeout,
        chat("hi"),
        SocketInput::Event(ComputerEvent::Deregister { id: 1, timed_out: false }),
    ];
    for input in refused {
        let mut registry = ClientRegistry::new();
        let mut state = ConnectionState::new();
        let step = state.on_input(&mut registry, input);
        assert!(matches!(step, SocketStep::Abort));
        assert_eq!(state, ConnectionState::Closed);
        assert_eq!(registry.len(), 0);
    }
}

#[test]
fn refused_connection_never_reaches_the_registry() {
    let mut registry = ClientRegistry::new();
    let mut state = ConnectionState::new();
    assert!(matches!(state.on_input(&mut registry, chat("hi")), SocketStep::Abort));
    // Whatever comes later, a registration too, the connection stays closed.
    let step = state.on_input(&mut registry, register(5, vec![Capability::Chat]));
    assert!(matches!(step, SocketStep::Stopped));
    assert!(matches!(state.on_input(&mut registry, SocketInput::Close), SocketStep::Stopped));
    assert_eq!(state, ConnectionState::Closed);
    assert_eq!(registry.len(), 0);
    assert!(registry.find_by_capability(Capability::Chat).is_none());
}

#[test]
fn registration_opens_the_connection() {
    let mut registry = ClientRegistry::new();
    let mut state = ConnectionState::new();
    let step = state.on_input(&mut registry, register(5, vec![Capability::Chat]));
    match step {
        SocketStep::Accepted { event: ComputerEvent::Register { id, capabilities }, .. } => {
            assert_eq!(id, 5);
            assert_eq!(capabilities, vec![Capability::Chat]);
        }
        _ => panic!("a registration must be accepted and routed"),
    }
    assert_eq!(state, ConnectionState::Active { id: 5 });
    assert_eq!(state.wait_limit(), Some(120));
    assert_eq!(IDLE_TIMEOUT_SECS, 120);
    assert_eq!(registry.len(), 1);
    assert!(registry.find_by_capability(Capability::Chat).is_some());
}

#[test]
fn registration_without_capabilities_registers_none() {
    let mut registry = ClientRegistry::new();
    let mut state = ConnectionState::new();
    let step = state.on_input(&mut registry, register(5, Vec::new()));
    assert!(matches!(step, SocketStep::Accepted { .. }));
    assert_eq!(registry.len(), 1);
    assert!(registry.find_by_capability(Capability::Chat).is_none());
}

#[test]
fn outbox_receives_what_is_sent_to_the_client() {
    let mut registry = ClientRegistry::new();
    let (_state, mut outbox) = active(&mut registry, 5);
    let delivery = registry.send_to(5, WsFrame::Text(String::from("to five"))).unwrap();
    delivery.sender.sender().try_send(delivery.frame).unwrap();
    assert!(matches!(outbox.try_recv(), Ok(WsFrame::Text(t)) if t == "to five"));
    assert!(outbox.try_recv().is_err());
}

#[test]
fn outbound_channel_holds_eight_frames() {
    assert_eq!(OUTBOUND_CAPACITY, 8);
    let mut registry = ClientRegistry::new();
    let (_state, mut outbox) = active(&mut registry, 5);
    let sender = registry.find_by_capability(Capability::Chat).unwrap();
    assert_eq!(sender.sender().max_capacity(), 8);
    for n in 0..8u8 {
        sender.sender().try_send(WsFrame::Binary(vec![n])).unwrap();
    }
    assert!(matches!(sender.sender().try_send(WsFrame::Close), Err(TrySendError::Full(_))));
    // Frames leave in the order in which they came.
    for n in 0..8u8 {
        assert!(matches!(outbox.try_recv(), Ok(WsFrame::Binary(b)) if b == vec![n]));
    }
}

#[test]
fn second_connection_under_one_id_replaces_the_first() {
    let mut registry = ClientRegistry::new();
    let (_first, mut first_outbox) = active(&mut registry, 5);
    let (_second, mut second_outbox) = active(&mut registry, 5);
    assert_eq!(registry.len(), 1);
    let delivery = registry.send_to(5, WsFrame::Close).unwrap();
    delivery.sender.sender().try_send(delivery.frame).unwrap();
    assert!(matches!(second_outbox.try_recv(), Ok(WsFrame::Close)));
    assert!(first_outbox.try_recv().is_err());
}

#[test]
fn events_of_an_active_connection_are_routed() {
    let mut registry = ClientRegistry::new();
    let (mut state, _outbox) = active(&mut registry, 5);
    let step = state.on_input(&mut registry, chat("hello"));
    assert!(matches!(
        step,
        SocketStep::Route { event: ComputerEvent::Chat(c) }
            if c.message == "hello" && c.username == "steve"
    ));
    assert_eq!(state, ConnectionState::Active { id: 5 });

    // A later registration is routed like any event; the table is not touched here.
    let step = state.on_input(&mut registry, register(9, Vec::new()));
    assert!(matches!(step, SocketStep::Route { event: ComputerEvent::Register { id: 9, .. } }));
    assert_eq!(state, ConnectionState::Active { id: 5 });
    assert_eq!(registry.len(), 1);
    assert!(registry.send_to(9, WsFrame::Close).is_err());
}

#[test]
fn undecodable_and_other_frames_do_not_end_the_connection() {
    let mut registry = ClientRegistry::new();
    let (mut state, _outbox) = active(&mut registry, 5);
    for input in [SocketInput::Malformed, SocketInput::Other, SocketInput::ReadError] {
        let step = state.on_input(&mut registry, input);
        assert!(matches!(step, SocketStep::Continue));
        assert_eq!(state, ConnectionState::Active { id: 5 });
        assert_eq!(registry.len(), 1);
    }
}

#[test]
fn any_frame_before_the_deadline_renews_the_wait() {
    let mut registry = ClientRegistry::new();
    let (mut state, _outbox) = active(&mut registry, 5);
    for input in [chat("a"), SocketInput::Other, SocketInput::Malformed, chat("b")] {
        state.on_input(&mut registry, input);
        assert_eq!(state.wait_limit(), Some(IDLE_TIMEOUT_SECS));
    }
    assert_eq!(registry.len(), 1);
}

#[test]
fn idle_timeout_removes_the_client_and_reports_it() {
    let mut registry = ClientRegistry::new();
    let (mut state, _outbox) = active(&mut registry, 5);
    let step = state.on_input(&mut registry, SocketInput::IdleTimeout);
    assert!(matches!(
        step,
        SocketStep::Finish {
            event: ComputerEvent::Deregister { id: 5, timed_out: true },
            send_close: true
        }
    ));
    assert_eq!(state, ConnectionState::Closed);
    assert_eq!(state.wait_limit(), None);
    assert_eq!(registry.len(), 0);
    assert!(registry.find_by_capability(Capability::Chat).is_none());
}

#[test]
fn close_frame_removes_the_client_without_timeout() {
    let mut registry = ClientRegistry::new();
    let (mut state, _outbox) = active(&mut registry, 5);
    let step = state.on_input(&mut registry, SocketInput::Close);
    assert!(matches!(
        step,
        SocketStep::Finish {
            event: ComputerEvent::Deregister { id: 5, timed_out: false },
            send_close: false
        }
    ));
    assert_eq!(state, ConnectionState::Closed);
    assert_eq!(registry.len(), 0);
}

#[test]
fn end_of_stream_removes_the_client_without_timeout() {
    let mut registry = ClientRegistry::new();
    let (mut state, _outbox) = active(&mut registry, 5);
    let step = state.on_input(&mut registry, SocketInput::StreamEnd);
    assert!(matches!(
        step,
        SocketStep::Finish {
            event: ComputerEvent::Deregister { id: 5, timed_out: false },
            send_close: false
        }
    ));
    assert_eq!(registry.len(), 0);
}

#[test]
fn teardown_happens_once() {
    let endings = [SocketInput::Close, SocketInput::StreamEnd, SocketInput::IdleTimeout];
    for ending in endings {
        let mut registry = ClientRegistry::new();
        let (mut state, _outbox) = active(&mut registry, 5);
        let (_other, _other_outbox) = active(&mut registry, 6);
        let mut finished = 0;
        let rest =
            [SocketInput::Close, SocketInput::IdleTimeout, SocketInput::StreamEnd, chat("x")];
        for input in std::iter::once(ending).chain(rest) {
            match state.on_input(&mut registry, input) {
                SocketStep::Finish { .. } => finished += 1,
                SocketStep::Stopped => {}
                _ => panic!("a closed connection asks for nothing"),
            }
        }
        assert_eq!(finished, 1);
        assert_eq!(registry.len(), 1);
        assert!(registry.send_to(6, WsFrame::Close).is_ok());
    }
}

#[test]
fn closing_one_connection_leaves_the_others() {
    let mut registry = ClientRegistry::new();
    let (mut five, _five_outbox) = active(&mut registry, 5);
    let (six, mut six_outbox) = active(&mut registry, 6);
    five.on_input(&mut registry, SocketInput::Close);
    assert_eq!(six, ConnectionState::Active { id: 6 });
    let delivery = registry.send_to(6, WsFrame::Close).unwrap();
    delivery.sender.sender().try_send(delivery.frame).unwrap();
    assert!(matches!(six_outbox.try_recv(), Ok(WsFrame::Close)));
    assert!(registry.send_to(5, WsFrame::Close).is_err());
}

#[test]
fn removed_client_leaves_its_outbox_closed() {
    let mut registry = ClientRegistry::new();
    let (mut state, mut outbox) = active(&mut registry, 5);
    state.on_input(&mut registry, SocketInput::IdleTimeout);
    // The registry held the only sending end, so the forwarder's loop ends.
    assert!(matches!(
        outbox.try_recv(),
        Err(tokio::sync::mpsc::error::TryRecvError::Disconnected)
    ));
}

#[test]
fn text_frame_has_to_be_decoded() {
    let read = SocketRead::Frame(WsFrame::Text(String::from("{\"type\":\"chat\"}")));
    assert!(matches!(classify(read), Reading::Decode(text) if text == "{\"type\":\"chat\"}"));
    let read = SocketRead::Frame(WsFrame::Text(String::new()));
    assert!(matches!(classify(read), Reading::Decode(text) if text.is_empty()));
}

#[test]
fn close_frame_closes_and_other_frames_only_count_as_come() {
    assert!(matches!(
        classify(SocketRead::Frame(WsFrame::Close)),
        Reading::Input(SocketInput::Close)
    ));
    for frame in [WsFrame::Binary(vec![1]), WsFrame::Ping(Vec::new()), WsFrame::Pong(vec![2, 3])] {
        assert!(matches!(classify(SocketRead::Frame(frame)), Reading::Input(SocketInput::Other)));
    }
}

#[test]
fn reads_without_a_frame_are_told_apart() {
    assert!(matches!(classify(SocketRead::Failed), Reading::Input(SocketInput::ReadError)));
    assert!(matches!(classify(SocketRead::Ended), Reading::Input(SocketInput::StreamEnd)));
    assert!(matches!(classify(SocketRead::TimedOut), Reading::Input(SocketInput::IdleTimeout)));
}

#[test]
fn undecodable_text_is_a_malformed_frame() {
    assert!(matches!(decoded(None), SocketInput::Malformed));
    let event = ComputerEvent::Deregister { id: 2, timed_out: true };
    assert!(matches!(
        decoded(Some(event)),
        SocketInput::Event(ComputerEvent::Deregister { id: 2, timed_out: true })
    ));
}

#[test]
fn ping_on_an_active_connection_keeps_it_open() {
    let mut registry = ClientRegistry::new();
    let (mut state, _outbox) = active(&mut registry, 5);
    let Reading::Input(input) = classify(SocketRead::Frame(WsFrame::Ping(vec![9]))) else {
        panic!("a ping needs no decoding")
    };
    assert!(matches!(state.on_input(&mut registry, input), SocketStep::Continue));
    assert_eq!(state, ConnectionState::Active { id: 5 });
}
