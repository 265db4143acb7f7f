use incipit::drawbridge::relay::{relay_step, RelayAction, RelayEvent, RelayState, Side};

fn run(events: Vec<RelayEvent<&'static str>>) -> (RelayState, Vec<RelayAction<&'static str>>) {
    let mut state = RelayState::Open;
    let mut actions = Vec::new();
    for event in events {
        let (next, action) = relay_step(state, event);
        state = next;
        actions.extend(action);
    }
    (state, actions)
}

fn sent_to(actions: &[RelayAction<&'static str>], to: Side) -> Vec<&'static str> {
    actions
        .iter()
        .filter_map(|action| match action {
            RelayAction::Forward(side, message) if *side == to => Some(*message),
            _ => None,
        })
        .collect()
}

#[test]
fn sides_are_opposite() {
    assert_eq!(Side::Client.other(), Side::Upstream);
    assert_eq!(Side::Upstream.other(), Side::Client);
}

#[test]
fn message_goes_to_the_other_leg() {
    assert_eq!(
        relay_step(RelayState::Open, RelayEvent::Message(Side::Client, "Hello world")),
        (RelayState::Open, Some(RelayAction::Forward(Side::Upstream, "Hello world")))
    );
    assert_eq!(
        relay_step(RelayState::Open, RelayEvent::Message(Side::Upstream, "Hello from the server")),
        (RelayState::Open, Some(RelayAction::Forward(Side::Client, "Hello from the server")))
    );
}

#[test]
fn messages_arrive_in_the_order_sent() {
    let (state, actions) = run(vec![
        RelayEvent::Message(Side::Client, "Hello world"),
        RelayEvent::Message(Side::Upstream, "Hello from the server"),
        RelayEvent::Message(Side::Client, "YOOOOOOOOO???"),
        RelayEvent::Message(Side::Upstream, "YIPEEEEEEEEEE"),
    ]);
    assert_eq!(state, RelayState::Open);
    assert_eq!(sent_to(&actions, Side::Upstream), vec!["Hello world", "YOOOOOOOOO???"]);
    assert_eq!(sent_to(&actions, Side::Client), vec!["Hello from the server", "YIPEEEEEEEEEE"]);
    assert_eq!(actions.len(), 4);
}

#[test]
fn end_of_either_leg_closes_both() {
    for side in [Side::Client, Side::Upstream] {
        assert_eq!(
            relay_step::<&str>(RelayState::Open, RelayEvent::Ended(side)),
            (RelayState::Closed, Some(RelayAction::Close(None)))
        );
    }
}

#[test]
fn failure_of_either_leg_closes_both() {
    for side in [Side::Client, Side::Upstream] {
        assert_eq!(
            relay_step::<&str>(RelayState::Open, RelayEvent::Failed(side)),
            (RelayState::Closed, Some(RelayAction::Close(Some(side))))
        );
    }
}

#[test]
fn closed_relay_does_nothing() {
    assert_eq!(
        relay_step(RelayState::Closed, RelayEvent::Message(Side::Client, "late")),
        (RelayState::Closed, None)
    );
    assert_eq!(
        relay_step::<&str>(RelayState::Closed, RelayEvent::Ended(Side::Upstream)),
        (RelayState::Closed, None)
    );
    assert_eq!(
        relay_step::<&str>(RelayState::Closed, RelayEvent::Failed(Side::Client)),
        (RelayState::Closed, None)
    );
}

#[test]
fn nothing_is_forwarded_after_the_tunnel_ended() {
    let (state, actions) = run(vec![
        RelayEvent::Message(Side::Client, "one"),
        RelayEvent::Ended(Side::Upstream),
        RelayEvent::Message(Side::Client, "two"),
        RelayEvent::Message(Side::Upstream, "three"),
        RelayEvent::Failed(Side::Client),
    ]);
    assert_eq!(state, RelayState::Closed);
    assert_eq!(
        actions,
        vec![RelayAction::Forward(Side::Upstream, "one"), RelayAction::Close(None)]
    );
}
