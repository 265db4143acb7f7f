//! The relay between the two legs of a tunnel, as a state machine.
//!
//! The embedding program waits on both legs at once and hands each thing
//! that happens to [`relay_step`]; it then carries out the action it gets
//! back. Messages are forwarded as they are, whatever their kind, so the
//! machine is generic in the message type.

use vstd::prelude::*;

verus! {

/// One of the two legs of a tunnel.
#[derive(Clone, Copy, Debug, PartialEq, Eq, Structural)]
pub enum Side {
    /// The leg to the client that asked for the upgrade.
    Client,
    /// The leg to the backend.
    Upstream,
}

/// Whether the relay is still running.
#[derive(Clone, Copy, Debug, PartialEq, Eq, Structural)]
pub enum RelayState {
    Open,
    Closed,
}

/// Something that happened on one leg.
#[derive(Debug, PartialEq, Eq)]
pub enum RelayEvent<M> {
    /// The leg delivered its next message.
    Message(Side, M),
    /// The leg's stream ended.
    Ended(Side),
    /// Receiving from the leg, or sending to it, failed.
    Failed(Side),
}

/// What the embedding program is to do next.
#[derive(Debug, PartialEq, Eq)]
pub enum RelayAction<M> {
    /// Send the message to the given leg.
    Forward(Side, M),
    /// Close both legs: the tunnel is over. The side is the leg that failed,
    /// if the tunnel ends on a failure.
    Close(Option<Side>),
}

/// The other leg.
pub open spec fn opposite(side: Side) -> Side {
    match side {
        Side::Client => Side::Upstream,
        Side::Upstream => Side::Client,
    }
}

/// One step of the relay. While open, a message goes to the other leg, and
/// the end or failure of either leg closes both. Once closed, nothing more
/// is done.
pub open spec fn relay_next<M>(state: RelayState, event: RelayEvent<M>) -> (
    RelayState,
    Option<RelayAction<M>>,
) {
    match state {
        RelayState::Closed => (RelayState::Closed, None),
        RelayState::Open => match event {
            RelayEvent::Message(from, message) => (
                RelayState::Open,
                Some(RelayAction::Forward(opposite(from), message)),
            ),
            RelayEvent::Ended(_) => (RelayState::Closed, Some(RelayAction::Close(None))),
            RelayEvent::Failed(side) => (
                RelayState::Closed,
                Some(RelayAction::Close(Some(side))),
            ),
        },
    }
}

/// The state of a relay after a series of events, and the actions it asked
/// for, in order.
pub open spec fn relay_run<M>(events: Seq<RelayEvent<M>>) -> (RelayState, Seq<RelayAction<M>>)
    decreases events.len(),
{
    if events.len() == 0 {
        (RelayState::Open, Seq::empty())
    } else {
        let before = relay_run(events.drop_last());
        let step = relay_next(before.0, events.last());
        match step.1 {
            Some(action) => (step.0, before.1.push(action)),
            None => (step.0, before.1),
        }
    }
}

/// Whether every event is a message: no leg has ended or failed.
pub open spec fn only_messages<M>(events: Seq<RelayEvent<M>>) -> bool {
    forall|i: int| 0 <= i < events.len() ==> #[trigger] events[i] is Message
}

/// The messages that a leg delivered before any leg ended or failed, in the
/// order it delivered them.
pub open spec fn offered<M>(events: Seq<RelayEvent<M>>, from: Side) -> Seq<M>
    decreases events.len(),
{
    if events.len() == 0 {
        Seq::empty()
    } else {
        let earlier = offered(events.drop_last(), from);
        match events.last() {
            RelayEvent::Message(side, message) => if side == from && only_messages(
                events.drop_last(),
            ) {
                earlier.push(message)
            } else {
                earlier
            },
            _ => earlier,
        }
    }
}

/// The messages that the actions send to a leg, in order.
pub open spec fn forwarded<M>(actions: Seq<RelayAction<M>>, to: Side) -> Seq<M>
    decreases actions.len(),
{
    if actions.len() == 0 {
        Seq::empty()
    } else {
        let earlier = forwarded(actions.drop_last(), to);
        match actions.last() {
            RelayAction::Forward(side, message) => if side == to {
                earlier.push(message)
            } else {
                earlier
            },
            _ => earlier,
        }
    }
}

/// How many of the actions close the tunnel.
pub open spec fn closes<M>(actions: Seq<RelayAction<M>>) -> nat
    decreases actions.len(),
{
    if actions.len() == 0 {
        0
    } else {
        closes(actions.drop_last()) + (if actions.last() is Close {
            1nat
        } else {
            0nat
        })
    }
}

/// The relay is open exactly as long as no leg has ended or failed.
pub proof fn open_while_only_messages<M>(events: Seq<RelayEvent<M>>)
    ensures
        relay_run(events).0 == RelayState::Open <==> only_messages(events),
    decreases events.len(),
{
    if events.len() > 0 {
        let before = events.drop_last();
        open_while_only_messages(before);
        if only_messages(events) {
            assert forall|i: int| 0 <= i < before.len() implies #[trigger] before[i] is Message by {
                assert(events[i] is Message);
            }
            assert(events[events.len() - 1] is Message);
        } else if only_messages(before) && events.last() is Message {
            assert forall|i: int| 0 <= i < events.len() implies #[trigger] events[i] is Message by {
                if i < before.len() {
                    assert(before[i] is Message);
                }
            }
        }
    }
}

/// What a leg sends arrives at the other leg unchanged and in the order
/// sent: the messages forwarded to a leg are exactly those that the other
/// leg delivered before the tunnel ended.
pub proof fn relay_preserves_order<M>(events: Seq<RelayEvent<M>>, from: Side)
    ensures
        forwarded(relay_run(events).1, opposite(from)) == offered(events, from),
    decreases events.len(),
{
    if events.len() > 0 {
        let before = events.drop_last();
        relay_preserves_order(before, from);
        open_while_only_messages(before);
        let ran = relay_run(before);
        let step = relay_next(ran.0, events.last());
        match step.1 {
            Some(action) => {
                assert(ran.1.push(action).drop_last() =~= ran.1);
            },
            None => {},
        }
    }
}

/// The end or failure of either leg ends the tunnel: from the first such
/// event on the relay is closed, it has asked exactly once to close both
/// legs, and that was the last thing it asked for.
pub proof fn relay_closes_once<M>(events: Seq<RelayEvent<M>>)
    ensures
        only_messages(events) ==> relay_run(events).0 == RelayState::Open && closes(
            relay_run(events).1,
        ) == 0,
        !only_messages(events) ==> relay_run(events).0 == RelayState::Closed && closes(
            relay_run(events).1,
        ) == 1 && relay_run(events).1.len() > 0 && relay_run(events).1.last() is Close,
    decreases events.len(),
{
    open_while_only_messages(events);
    if events.len() > 0 {
        let before = events.drop_last();
        relay_closes_once(before);
        open_while_only_messages(before);
        let ran = relay_run(before);
        let step = relay_next(ran.0, events.last());
        match step.1 {
            Some(action) => {
                assert(ran.1.push(action).drop_last() =~= ran.1);
            },
            None => {},
        }
    }
}

impl Side {
    /// The other leg.
    pub fn other(self) -> (side: Side)
        ensures
            side == opposite(self),
    {
        match self {
            Side::Client => Side::Upstream,
            Side::Upstream => Side::Client,
        }
    }
}

/// Takes one event and says what to do: see [`relay_next`].
pub fn relay_step<M>(state: RelayState, event: RelayEvent<M>) -> (step: (
    RelayState,
    Option<RelayAction<M>>,
))
    ensures
        step == relay_next(state, event),
{
    match state {
        RelayState::Closed => (RelayState::Closed, None),
        RelayState::Open => match event {
            RelayEvent::Message(from, message) => (
                RelayState::Open,
                Some(RelayAction::Forward(from.other(), message)),
            ),
            RelayEvent::Ended(_) => (RelayState::Closed, Some(RelayAction::Close(None))),
            RelayEvent::Failed(side) => (RelayState::Closed, Some(RelayAction::Close(Some(side)))),
        },
    }
}

} // verus!
