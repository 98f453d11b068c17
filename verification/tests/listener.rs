use ton_core::listener::Listener;
use ton_core::listener::ListenerAction;
use ton_core::listener::ListenerEvent;
use ton_core::models::ReceiveTokenTransaction;

type Event = ListenerEvent<u32, ReceiveTokenTransaction<u32, u8>, String>;
type Action = ListenerAction<u32, ReceiveTokenTransaction<u32, u8>, String>;

fn received(item: Option<u32>, engine_alive: bool) -> Event {
    ListenerEvent::Received { item, engine_alive }
}

fn handled(record: u32) -> Event {
    ListenerEvent::Handled(Ok(ReceiveTokenTransaction::Create(record)))
}

#[test]
fn items_are_handled_and_answered_in_turn() {
    let mut listener = Listener::new();
    for item in [3, 1, 2] {
        let action: Action = listener.step(received(Some(item), true));
        assert!(matches!(action, ListenerAction::Handle(i) if i == item));
        let action = listener.step(handled(item * 10));
        assert!(matches!(
            action,
            ListenerAction::Forward(ReceiveTokenTransaction::Create(record)) if record == item * 10
        ));
    }
}

#[test]
fn failed_item_is_reported_and_the_next_is_handled() {
    let mut listener = Listener::new();
    let _: Action = listener.step(received(Some(1), true));
    let action: Action = listener.step(ListenerEvent::Handled(Err("parse".to_string())));
    assert!(matches!(action, ListenerAction::Report(error) if error == "parse"));
    let action: Action = listener.step(received(Some(2), true));
    assert!(matches!(action, ListenerAction::Handle(2)));
}

#[test]
fn listener_ends_when_the_channel_ends() {
    let mut listener = Listener::new();
    let action: Action = listener.step(received(None, true));
    assert!(matches!(action, ListenerAction::Close));
    let action: Action = listener.step(received(None, true));
    assert!(matches!(action, ListenerAction::Stop));
}

#[test]
fn listener_empties_the_channel_when_the_engine_is_gone() {
    let mut listener = Listener::new();
    let action: Action = listener.step(received(Some(1), false));
    assert!(matches!(action, ListenerAction::Close));
    let action: Action = listener.step(received(Some(2), false));
    assert!(matches!(action, ListenerAction::Discard(2)));
    let action: Action = listener.step(received(Some(3), true));
    assert!(matches!(action, ListenerAction::Discard(3)));
    let action: Action = listener.step(received(None, false));
    assert!(matches!(action, ListenerAction::Stop));
}
