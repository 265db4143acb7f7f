//! Utilities to forward requests from one host to another.

pub mod mapping;
pub mod relay;
pub mod tunnel;
pub mod websocket;

pub use mapping::HostMapping;

use crate::address::SocketAddress;
use mapping::Target;
use vstd::prelude::*;
use vstd::string::*;
use tunnel::Tunnel;
use websocket::handling;

verus! {

/// A response that the proxy writes itself: a status code and a text body.
#[derive(Debug, PartialEq, Eq)]
pub struct Reply {
    pub status: u16,
    pub body: String,
}

/// How a plain HTTP request is answered.
#[derive(Debug, PartialEq, Eq)]
pub enum Forwarding {
    /// Open a new connection to the backend, send the request as it is, and
    /// hand back what the backend answers.
    Upstream(SocketAddress),
    /// Hand the request to the dashboard's own handlers.
    Dashboard,
    /// Answer with this response, without contacting anything.
    Reply(Reply),
}

/// What is done with one inbound request.
#[derive(Debug, PartialEq, Eq)]
pub enum Dispatch {
    /// Take the request over as a tunnel: complete the client's handshake
    /// and drive the tunnel from there.
    Tunnel(Tunnel),
    /// Answer the request as plain HTTP.
    Forward(Forwarding),
}

/// The body of the response to a request for a host that nothing serves.
pub open spec fn not_found_text() -> Seq<char> {
    "404 - Host not known by incipit"@
}

/// The body of the response to a request whose forwarding failed.
pub open spec fn failure_text(detail: Seq<char>) -> Seq<char> {
    "500 - "@ + detail
}

/// Whether `plan` is how a plain HTTP request to `target` is answered: a
/// backend gets the request, the dashboard handles its own, and an unknown
/// host gets a 404 with a fixed body.
pub open spec fn forwards(plan: Forwarding, target: Target) -> bool {
    match target {
        Target::Socket(addr) => plan == Forwarding::Upstream(addr),
        Target::Incipit => plan == Forwarding::Dashboard,
        Target::Unknown => plan matches Forwarding::Reply(reply) && reply.status == 404
            && reply.body@ == not_found_text(),
    }
}

/// Whether `dispatch` is what is done with a request that asks for an
/// upgrade or not, and whose host resolved to `target`: tunnelling comes
/// first, plain forwarding takes what tunnelling leaves.
pub open spec fn dispatches(dispatch: Dispatch, upgrade: bool, target: Target) -> bool {
    match handling(upgrade, target) {
        Some(tunnel) => dispatch == Dispatch::Tunnel(tunnel),
        None => dispatch matches Dispatch::Forward(plan) && forwards(plan, target),
    }
}

/// The 404 response for a host that nothing serves.
pub fn not_found_reply() -> (reply: Reply)
    ensures
        reply.status == 404,
        reply.body@ == not_found_text(),
{
    Reply { status: 404, body: String::from_str("404 - Host not known by incipit") }
}

/// The 500 response for a request whose forwarding failed before anything
/// was sent back; the body carries the detail of the failure.
pub fn failure_reply(detail: &str) -> (reply: Reply)
    ensures
        reply.status == 500,
        reply.body@ == failure_text(detail@),
{
    let mut body = String::from_str("500 - ");
    body.append(detail);
    Reply { status: 500, body }
}

/// Decides how a plain HTTP request is answered from what its host resolved
/// to.
pub fn forward(target: Target) -> (plan: Forwarding)
    ensures
        forwards(plan, target),
{
    match target {
        Target::Socket(addr) => Forwarding::Upstream(addr),
        Target::Incipit => Forwarding::Dashboard,
        Target::Unknown => Forwarding::Reply(not_found_reply()),
    }
}

/// Decides what is done with a request from whether it asks for an upgrade
/// and from what its host resolved to.
pub fn dispatch(upgrade: bool, target: Target) -> (dispatch: Dispatch)
    ensures
        dispatches(dispatch, upgrade, target),
{
    match websocket::decide(upgrade, target) {
        Some(tunnel) => Dispatch::Tunnel(tunnel),
        None => Dispatch::Forward(forward(target)),
    }
}

/// The entry point for one inbound request: resolves the request's host
/// with `mapping`, once, lets tunnelling take the request if it asks for an
/// upgrade, and forwards it as plain HTTP otherwise.
pub fn middleware<H: HostMapping>(
    mapping: &H,
    host: &str,
    request: &hyper::Request<axum::body::Body>,
) -> (dispatch: Dispatch)
    requires
        mapping.accepts(host),
    ensures
        exists|target: Target| #[trigger]
            mapping.maps(host, target) && dispatches(
                dispatch,
                websocket::asks_upgrade(*request),
                target,
            ),
{
    let target = mapping.route(host);
    match websocket::handle(request, target) {
        Some(tunnel) => Dispatch::Tunnel(tunnel),
        None => Dispatch::Forward(forward(target)),
    }
}

} // verus!
