use incipit::address::{IpAddress, SocketAddress};
use incipit::drawbridge::mapping::Target;
use incipit::drawbridge::relay::{RelayAction, RelayEvent, Side};
use incipit::drawbridge::tunnel::{tunnel_step, Tunnel, TunnelAction, TunnelEvent};
use incipit::drawbridge::websocket::TunnelError;

type Event = TunnelEvent<&'static str>;
type Action = TunnelAction<&'static str>;

fn backend(port: u16) -> SocketAddress {
    SocketAddress { ip: IpAddress::V4(0, 0, 0, 0), port }
}

fn run(start: Tunnel, events: Vec<Event>) -> (Tunnel, Vec<Action>) {
    let mut tunnel = start;
    let mut actions = Vec::new();
    for event in events {
        let (next, action) = tunnel_step(tunnel, event);
        tunnel = next;
        actions.extend(action);
    }
    (tunnel, actions)
}

fn message(side: Side, text: &'static str) -> Event {
    TunnelEvent::Leg(RelayEvent::Message(side, text))
}

#[test]
fn backend_is_connected_to_after_the_handshake() {
    let start = Tunnel::Handshake(Target::port(4455));
    assert_eq!(
        tunnel_step::<&str>(start, TunnelEvent::ClientReady),
        (Tunnel::Connecting, Some(TunnelAction::Connect(backend(4455))))
    );
    assert_eq!(
        tunnel_step::<&str>(Tunnel::Connecting, TunnelEvent::UpstreamReady),
        (Tunnel::Relaying, None)
    );
}

#[test]
fn tunnel_needs_a_backend() {
    for target in [Target::Incipit, Target::Unknown] {
        assert_eq!(
            tunnel_step::<&str>(Tunnel::Handshake(target), TunnelEvent::ClientReady),
            (Tunnel::Over, Some(TunnelAction::Reject(TunnelError::InvalidTarget)))
        );
    }
}

#[test]
fn failed_handshake_ends_the_tunnel() {
    assert_eq!(
        tunnel_step::<&str>(Tunnel::Handshake(Target::port(1)), TunnelEvent::ClientFailed),
        (Tunnel::Over, Some(TunnelAction::Relay(RelayAction::Close(Some(Side::Client)))))
    );
}

#[test]
fn failed_connection_ends_the_tunnel() {
    assert_eq!(
        tunnel_step::<&str>(Tunnel::Connecting, TunnelEvent::UpstreamFailed),
        (Tunnel::Over, Some(TunnelAction::Relay(RelayAction::Close(Some(Side::Upstream)))))
    );
}

#[test]
fn tunnel_carries_messages_both_ways_in_order() {
    let (tunnel, actions) = run(
        Tunnel::Handshake(Target::port(4455)),
        vec![
            TunnelEvent::ClientReady,
            TunnelEvent::UpstreamReady,
            message(Side::Client, "Hello world"),
            message(Side::Client, "YOOOOOOOOO???"),
            message(Side::Upstream, "Hello from the server"),
            message(Side::Upstream, "YIPEEEEEEEEEE"),
        ],
    );
    assert_eq!(tunnel, Tunnel::Relaying);
    assert_eq!(
        actions,
        vec![
            TunnelAction::Connect(backend(4455)),
            TunnelAction::Relay(RelayAction::Forward(Side::Upstream, "Hello world")),
            TunnelAction::Relay(RelayAction::Forward(Side::Upstream, "YOOOOOOOOO???")),
            TunnelAction::Relay(RelayAction::Forward(Side::Client, "Hello from the server")),
            TunnelAction::Relay(RelayAction::Forward(Side::Client, "YIPEEEEEEEEEE")),
        ]
    );
}

#[test]
fn closing_either_leg_ends_the_tunnel() {
    for side in [Side::Client, Side::Upstream] {
        let (tunnel, actions) = run(
            Tunnel::Handshake(Target::port(4455)),
            vec![
                TunnelEvent::ClientReady,
                TunnelEvent::UpstreamReady,
                message(Side::Client, "before"),
                TunnelEvent::Leg(RelayEvent::Ended(side)),
                message(Side::Client, "after"),
                message(Side::Upstream, "after"),
            ],
        );
        assert_eq!(tunnel, Tunnel::Over);
        assert_eq!(
            actions,
            vec![
                TunnelAction::Connect(backend(4455)),
                TunnelAction::Relay(RelayAction::Forward(Side::Upstream, "before")),
                TunnelAction::Relay(RelayAction::Close(None)),
            ]
        );
    }
}

#[test]
fn failing_leg_ends_the_tunnel_and_is_named() {
    let (tunnel, actions) = run(
        Tunnel::Relaying,
        vec![TunnelEvent::Leg(RelayEvent::Failed(Side::Upstream)), message(Side::Client, "late")],
    );
    assert_eq!(tunnel, Tunnel::Over);
    assert_eq!(actions, vec![TunnelAction::Relay(RelayAction::Close(Some(Side::Upstream)))]);
}

#[test]
fn events_of_another_stage_are_passed_over() {
    let waiting = Tunnel::Handshake(Target::port(1));
    assert_eq!(tunnel_step(waiting, message(Side::Client, "early")), (waiting, None));
    assert_eq!(tunnel_step::<&str>(waiting, TunnelEvent::UpstreamReady), (waiting, None));
    assert_eq!(tunnel_step::<&str>(waiting, TunnelEvent::UpstreamFailed), (waiting, None));
    assert_eq!(
        tunnel_step(Tunnel::Connecting, message(Side::Client, "early")),
        (Tunnel::Connecting, None)
    );
    assert_eq!(
        tunnel_step::<&str>(Tunnel::Connecting, TunnelEvent::ClientReady),
        (Tunnel::Connecting, None)
    );
    assert_eq!(
        tunnel_step::<&str>(Tunnel::Relaying, TunnelEvent::ClientReady),
        (Tunnel::Relaying, None)
    );
    assert_eq!(
        tunnel_step::<&str>(Tunnel::Relaying, TunnelEvent::UpstreamFailed),
        (Tunnel::Relaying, None)
    );
}

#[test]
fn nothing_follows_the_end() {
    let events: Vec<Event> = vec![
        TunnelEvent::ClientReady,
        TunnelEvent::ClientFailed,
        TunnelEvent::UpstreamReady,
        TunnelEvent::UpstreamFailed,
        message(Side::Client, "x"),
        TunnelEvent::Leg(RelayEvent::Ended(Side::Client)),
        TunnelEvent::Leg(RelayEvent::Failed(Side::Upstream)),
    ];
    for event in events {
        assert_eq!(tunnel_step(Tunnel::Over, event), (Tunnel::Over, None));
    }
}
