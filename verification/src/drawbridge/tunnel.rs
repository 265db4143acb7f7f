//! The life of one tunnel, from the upgrade request to the end of the relay,
//! as a state machine.
//!
//! The embedding program does the waiting: it completes the client's
//! handshake, opens the upstream leg, reads and writes messages, and tells
//! the machine what happened. The machine says what to do next.

use super::mapping::Target;
use super::relay::{relay_next, relay_run, RelayAction, RelayEvent, RelayState, Side};
use super::websocket::TunnelError;
use crate::address::SocketAddress;
use vstd::prelude::*;

verus! {

/// Where a tunnel stands.
#[derive(Clone, Copy, Debug, PartialEq, Eq, Structural)]
pub enum Tunnel {
    /// The request is taken over; the client's handshake is under way. What
    /// the host resolved to is looked at once the handshake is done.
    Handshake(Target),
    /// The upstream leg is being opened.
    Connecting,
    /// Both legs are up: messages are relayed.
    Relaying,
    /// The tunnel is over.
    Over,
}

/// Something that happened to a tunnel.
#[derive(Debug, PartialEq, Eq)]
pub enum TunnelEvent<M> {
    /// The client's handshake is done.
    ClientReady,
    /// The client's handshake failed.
    ClientFailed,
    /// The upstream leg is open.
    UpstreamReady,
    /// The upstream leg could not be opened.
    UpstreamFailed,
    /// Something happened on one of the two legs.
    Leg(RelayEvent<M>),
}

/// What the embedding program is to do next for a tunnel.
#[derive(Debug, PartialEq, Eq)]
pub enum TunnelAction<M> {
    /// Open the upstream leg to this backend.
    Connect(SocketAddress),
    /// Forward a message, or close both legs.
    Relay(RelayAction<M>),
    /// Close the client's leg and report the error: the tunnel cannot be
    /// set up.
    Reject(TunnelError),
}

/// The stage of a tunnel whose relay is in the given state.
pub open spec fn stage_of(state: RelayState) -> Tunnel {
    match state {
        RelayState::Open => Tunnel::Relaying,
        RelayState::Closed => Tunnel::Over,
    }
}

/// An action of the relay, as an action of the tunnel.
pub open spec fn lifted<M>(action: Option<RelayAction<M>>) -> Option<TunnelAction<M>> {
    match action {
        Some(action) => Some(TunnelAction::Relay(action)),
        None => None,
    }
}

/// One step of a tunnel.
///
/// Once the client's handshake is done, the target decides: a backend is
/// connected to, anything else is an error that ends the tunnel. Once the
/// upstream leg is open, the relay runs until a leg ends or fails. A
/// handshake or a connection that fails ends the tunnel. Events that do not
/// belong to the stage are passed over, and nothing follows the end.
pub open spec fn tunnel_next<M>(tunnel: Tunnel, event: TunnelEvent<M>) -> (
    Tunnel,
    Option<TunnelAction<M>>,
) {
    match tunnel {
        Tunnel::Handshake(target) => match event {
            TunnelEvent::ClientReady => match target {
                Target::Socket(addr) => (Tunnel::Connecting, Some(TunnelAction::Connect(addr))),
                _ => (Tunnel::Over, Some(TunnelAction::Reject(TunnelError::InvalidTarget))),
            },
            TunnelEvent::ClientFailed => (
                Tunnel::Over,
                Some(TunnelAction::Relay(RelayAction::Close(Some(Side::Client)))),
            ),
            _ => (tunnel, None),
        },
        Tunnel::Connecting => match event {
            TunnelEvent::UpstreamReady => (Tunnel::Relaying, None),
            TunnelEvent::UpstreamFailed => (
                Tunnel::Over,
                Some(TunnelAction::Relay(RelayAction::Close(Some(Side::Upstream)))),
            ),
            _ => (tunnel, None),
        },
        Tunnel::Relaying => match event {
            TunnelEvent::Leg(event) => (
                stage_of(relay_next(RelayState::Open, event).0),
                lifted(relay_next(RelayState::Open, event).1),
            ),
            _ => (tunnel, None),
        },
        Tunnel::Over => (Tunnel::Over, None),
    }
}

/// The stage of a tunnel after a series of events, and the actions it asked
/// for, in order.
pub open spec fn tunnel_run<M>(start: Tunnel, events: Seq<TunnelEvent<M>>) -> (
    Tunnel,
    Seq<TunnelAction<M>>,
)
    decreases events.len(),
{
    if events.len() == 0 {
        (start, Seq::empty())
    } else {
        let before = tunnel_run(start, events.drop_last());
        let step = tunnel_next(before.0, events.last());
        match step.1 {
            Some(action) => (step.0, before.1.push(action)),
            None => (step.0, before.1),
        }
    }
}

/// The events of a tunnel whose two legs come up and then see `legs`.
pub open spec fn established<M>(legs: Seq<RelayEvent<M>>) -> Seq<TunnelEvent<M>> {
    seq![TunnelEvent::ClientReady, TunnelEvent::UpstreamReady] + legs.map_values(
        |event: RelayEvent<M>| TunnelEvent::Leg(event),
    )
}

/// A tunnel to a backend whose two legs come up connects to that backend,
/// once, and from then on does exactly what the relay does with what
/// happens on the legs; it is over when the relay is closed.
pub proof fn tunnel_relays_between_its_legs<M>(addr: SocketAddress, legs: Seq<RelayEvent<M>>)
    ensures
        tunnel_run(Tunnel::Handshake(Target::Socket(addr)), established(legs)).0 == stage_of(
            relay_run(legs).0,
        ),
        tunnel_run(Tunnel::Handshake(Target::Socket(addr)), established(legs)).1
            == seq![TunnelAction::Connect(addr)] + relay_run(legs).1.map_values(
            |action: RelayAction<M>| TunnelAction::Relay(action),
        ),
    decreases legs.len(),
{
    let start = Tunnel::Handshake(Target::Socket(addr));
    let events = established(legs);
    let lift = |action: RelayAction<M>| TunnelAction::Relay(action);
    if legs.len() == 0 {
        let none = Seq::<TunnelEvent<M>>::empty();
        let one = seq![TunnelEvent::<M>::ClientReady];
        assert(events =~= seq![TunnelEvent::ClientReady, TunnelEvent::UpstreamReady]);
        assert(events.drop_last() =~= one);
        assert(one.drop_last() =~= none);
        assert(tunnel_run(start, none) == (start, Seq::<TunnelAction<M>>::empty()));
        assert(tunnel_run(start, one).0 == Tunnel::Connecting);
        assert(tunnel_run(start, one).1 =~= seq![TunnelAction::Connect(addr)]);
        assert(relay_run(legs).1.map_values(lift) =~= Seq::<TunnelAction<M>>::empty());
        assert(tunnel_run(start, events).1 =~= seq![TunnelAction::Connect(addr)]
            + relay_run(legs).1.map_values(lift));
    } else {
        let earlier = legs.drop_last();
        tunnel_relays_between_its_legs(addr, earlier);
        assert(events.drop_last() =~= established(earlier));
        assert(events.last() == TunnelEvent::Leg(legs.last()));
        let ran = relay_run(earlier);
        let step = relay_next(ran.0, legs.last());
        match ran.0 {
            RelayState::Open => {
                match step.1 {
                    Some(action) => {
                        assert(ran.1.push(action).map_values(lift) =~= ran.1.map_values(
                            lift,
                        ).push(TunnelAction::Relay(action)));
                        assert(tunnel_run(start, events).1 =~= seq![TunnelAction::Connect(addr)]
                            + relay_run(legs).1.map_values(lift));
                    },
                    None => {},
                }
            },
            RelayState::Closed => {},
        }
    }
}

/// A tunnel for a request that resolved to no backend never connects
/// anywhere and never forwards a message, whatever happens: the most it
/// does is to reject the request or to close a leg, and then it is over.
pub proof fn tunnel_without_backend_reaches_nothing<M>(
    target: Target,
    events: Seq<TunnelEvent<M>>,
)
    requires
        !(target is Socket),
    ensures
        tunnel_run(Tunnel::Handshake(target), events).0 == Tunnel::Handshake(target) || tunnel_run(
            Tunnel::Handshake(target),
            events,
        ).0 == Tunnel::Over,
        forall|i: int|
            0 <= i < tunnel_run(Tunnel::Handshake(target), events).1.len() ==> {
                let action = #[trigger] tunnel_run(Tunnel::Handshake(target), events).1[i];
                action == TunnelAction::<M>::Reject(TunnelError::InvalidTarget) || action
                    == TunnelAction::<M>::Relay(RelayAction::Close(Some(Side::Client)))
            },
        tunnel_run(Tunnel::Handshake(target), events).1.len() <= 1,
        tunnel_run(Tunnel::Handshake(target), events).1.len() == 1 <==> tunnel_run(
            Tunnel::Handshake(target),
            events,
        ).0 == Tunnel::Over,
    decreases events.len(),
{
    if events.len() > 0 {
        tunnel_without_backend_reaches_nothing(target, events.drop_last());
    }
}

/// Takes one event and says what to do: see [`tunnel_next`].
pub fn tunnel_step<M>(tunnel: Tunnel, event: TunnelEvent<M>) -> (step: (
    Tunnel,
    Option<TunnelAction<M>>,
))
    ensures
        step == tunnel_next(tunnel, event),
{
    match tunnel {
        Tunnel::Handshake(target) => match event {
            TunnelEvent::ClientReady => match target {
                Target::Socket(addr) => (Tunnel::Connecting, Some(TunnelAction::Connect(addr))),
                _ => (Tunnel::Over, Some(TunnelAction::Reject(TunnelError::InvalidTarget))),
            },
            TunnelEvent::ClientFailed => (
                Tunnel::Over,
                Some(TunnelAction::Relay(RelayAction::Close(Some(Side::Client)))),
            ),
            _ => (tunnel, None),
        },
        Tunnel::Connecting => match event {
            TunnelEvent::UpstreamReady => (Tunnel::Relaying, None),
            TunnelEvent::UpstreamFailed => (
                Tunnel::Over,
                Some(TunnelAction::Relay(RelayAction::Close(Some(Side::Upstream)))),
            ),
            _ => (tunnel, None),
        },
        Tunnel::Relaying => match event {
            TunnelEvent::Leg(event) => {
                let step = super::relay::relay_step(RelayState::Open, event);
                let stage = match step.0 {
                    RelayState::Open => Tunnel::Relaying,
                    RelayState::Closed => Tunnel::Over,
                };
                let action = match step.1 {
                    Some(action) => Some(TunnelAction::Relay(action)),
                    None => None,
                };
                (stage, action)
            },
            _ => (tunnel, None),
        },
        Tunnel::Over => (Tunnel::Over, None),
    }
}

} // verus!
