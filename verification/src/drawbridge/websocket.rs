//! WebSocket tunnelling: detecting upgrade requests and building the request
//! that opens the upstream leg.

use super::mapping::Target;
use super::tunnel::Tunnel;
use crate::address::{socket_text, SocketAddress};
use vstd::prelude::*;
use vstd::string::*;

verus! {

/// The request type of `http`, opaque here: it is carried, never inspected.
#[verifier::external_type_specification]
#[verifier::external_body]
#[verifier::reject_recursive_types(T)]
pub struct ExRequest<T>(tungstenite::http::Request<T>);

/// The header map of `http`, opaque here.
#[verifier::external_type_specification]
#[verifier::external_body]
#[verifier::reject_recursive_types(T)]
pub struct ExHeaderMap<T>(tungstenite::http::HeaderMap<T>);

/// A header value of `http`, opaque here.
#[verifier::external_type_specification]
#[verifier::external_body]
pub struct ExHeaderValue(tungstenite::http::HeaderValue);

/// A URI of `http`, opaque here.
#[verifier::external_type_specification]
#[verifier::external_body]
pub struct ExUri(tungstenite::http::Uri);

/// The path and query of a URI of `http`, opaque here.
#[verifier::external_type_specification]
#[verifier::external_body]
pub struct ExPathAndQuery(tungstenite::http::uri::PathAndQuery);

/// The error type of `tungstenite`, opaque here.
#[verifier::external_type_specification]
#[verifier::external_body]
pub struct ExWebSocketError(tungstenite::Error);

/// The body of an inbound request of `axum`, opaque here.
#[verifier::external_type_specification]
#[verifier::external_body]
pub struct ExBody(axum::body::Body);

/// Whether `hyper_tungstenite` takes the request for a request to upgrade to
/// the WebSocket protocol.
pub uninterp spec fn asks_upgrade(request: hyper::Request<axum::body::Body>) -> bool;

/// `hyper_tungstenite::is_upgrade_request`: whether the request's headers ask
/// for an upgrade to the WebSocket protocol. The answer depends on the
/// request alone, which is all that is claimed.
#[verifier::external_body]
fn is_upgrade(request: &hyper::Request<axum::body::Body>) -> (upgrade: bool)
    ensures
        upgrade == asks_upgrade(*request),
{
    hyper_tungstenite::is_upgrade_request(request)
}

/// The path and query that `http` finds in a URI, if it finds any.
pub uninterp spec fn uri_path_and_query(uri: tungstenite::http::Uri) -> Option<
    tungstenite::http::uri::PathAndQuery,
>;

/// The text of a path and query of `http`.
pub uninterp spec fn path_and_query_text(
    path_and_query: tungstenite::http::uri::PathAndQuery,
) -> Seq<char>;

/// `http::Uri::path_and_query`: the path and query of a URI, if it has any.
/// The answer depends on the URI alone, which is all that is claimed.
pub assume_specification<'a>[ tungstenite::http::Uri::path_and_query ](
    uri: &'a tungstenite::http::Uri,
) -> (found: Option<&'a tungstenite::http::uri::PathAndQuery>)
    ensures
        uri_path_and_query(*uri) == match found {
            Some(path_and_query) => Some(*path_and_query),
            None => None::<tungstenite::http::uri::PathAndQuery>,
        },
;

/// `http::uri::PathAndQuery::as_str`: the path and query as text. The text
/// depends on the path and query alone, which is all that is claimed.
pub assume_specification<'a>[ tungstenite::http::uri::PathAndQuery::as_str ](
    path_and_query: &'a tungstenite::http::uri::PathAndQuery,
) -> (text: &'a str)
    ensures
        text@ == path_and_query_text(*path_and_query),
;

/// The headers of a request of `http`.
pub uninterp spec fn request_headers(
    request: tungstenite::http::Request<()>,
) -> tungstenite::http::HeaderMap<tungstenite::http::HeaderValue>;

/// Whether `tungstenite` builds a client request for the URL with this text.
pub uninterp spec fn accepts_url(url: Seq<char>) -> bool;

/// `tungstenite::client::IntoClientRequest::into_client_request` on a
/// `String`: parses the URL and builds the handshake request for it, or
/// fails. Whether it succeeds depends on the text of the URL alone, which is
/// all that is claimed; nothing is claimed of the request, nor of the error.
#[verifier::external_body]
fn client_request(url: String) -> (built: Result<
    tungstenite::http::Request<()>,
    tungstenite::Error,
>)
    ensures
        built is Ok <==> accepts_url(url@),
{
    tungstenite::client::IntoClientRequest::into_client_request(url)
}

/// `http::Request::headers_mut`, assigned through: the request's headers
/// become `headers`. Nothing is claimed of the rest of the request.
#[verifier::external_body]
fn set_headers(
    request: &mut tungstenite::http::Request<()>,
    headers: tungstenite::http::HeaderMap<tungstenite::http::HeaderValue>,
)
    ensures
        request_headers(*final(request)) == headers,
{
    *request.headers_mut() = headers;
}

/// The `Display` text of a `tungstenite::Error`. Nothing is claimed of it:
/// where the error holds an I/O error, the text is the operating system's,
/// and differs from one machine to the next.
#[verifier::external_body]
fn error_detail(error: &tungstenite::Error) -> (detail: String) {
    format!("{error}")
}

/// Why a tunnel could not be set up.
#[derive(Debug, PartialEq, Eq)]
pub enum TunnelError {
    /// The request resolved to the dashboard or to no service: there is
    /// nothing to tunnel to.
    InvalidTarget,
    /// The request for the upstream leg could not be built; the payload is
    /// the detail.
    Request(String),
}

/// The text of a tunnel error, as it is logged.
pub open spec fn error_message(error: TunnelError) -> Seq<char> {
    match error {
        TunnelError::InvalidTarget => "Invalid target for websocket"@,
        TunnelError::Request(detail) => detail@,
    }
}

impl TunnelError {
    /// The text of the error, as it is logged.
    pub fn message(&self) -> (text: String)
        ensures
            text@ == error_message(*self),
    {
        match self {
            TunnelError::InvalidTarget => String::from_str("Invalid target for websocket"),
            TunnelError::Request(detail) => detail.clone(),
        }
    }
}

/// The path and query as they stand in the URL of the upstream leg: as
/// they came where they begin with a slash, behind a slash where they do
/// not, and a lone slash where there are none.
pub open spec fn path_in_url(path_and_query: Option<Seq<char>>) -> Seq<char> {
    match path_and_query {
        Some(text) => if text.len() > 0 && text[0] == '/' {
            text
        } else {
            seq!['/'] + text
        },
        None => seq!['/'],
    }
}

/// The URL of the upstream leg: the `ws` scheme, the backend's address and
/// port, and the path and query of the inbound request, unchanged.
pub open spec fn url_for(addr: SocketAddress, path_and_query: Option<Seq<char>>) -> Seq<char> {
    seq!['w', 's', ':', '/', '/'] + socket_text(addr) + path_in_url(path_and_query)
}

/// The path and query of an inbound URI as text, if it has any.
pub open spec fn inbound_path(uri: tungstenite::http::Uri) -> Option<Seq<char>> {
    match uri_path_and_query(uri) {
        Some(path_and_query) => Some(path_and_query_text(path_and_query)),
        None => None,
    }
}

/// The view of an optional piece of text.
pub open spec fn text_of(text: Option<&str>) -> Option<Seq<char>> {
    match text {
        Some(t) => Some(t@),
        None => None,
    }
}

/// What to do with a request, as far as tunnelling goes: `None` leaves it to
/// plain HTTP forwarding; `Some` takes it over as a tunnel that starts with
/// the client's handshake and remembers what the host resolved to.
pub open spec fn handling(upgrade: bool, target: Target) -> Option<Tunnel> {
    if upgrade {
        Some(Tunnel::Handshake(target))
    } else {
        None
    }
}

/// The URL of the upstream leg for a backend and the inbound request's path
/// and query.
pub fn upstream_url(addr: SocketAddress, path_and_query: Option<&str>) -> (url: String)
    ensures
        url@ == url_for(addr, text_of(path_and_query)),
{
    proof {
        reveal_strlit("ws://");
        reveal_strlit("/");
    }
    let mut url = String::from_str("ws://");
    assert(url@ =~= seq!['w', 's', ':', '/', '/']);
    addr.push_text(&mut url);
    match path_and_query {
        Some(text) => {
            if text.unicode_len() > 0 && text.get_char(0) == '/' {
                url.append(text);
            } else {
                url.append("/");
                url.append(text);
            }
        },
        None => {
            url.append("/");
        },
    }
    assert(url@ =~= url_for(addr, text_of(path_and_query)));
    url
}

/// Decides whether a request is taken over for tunnelling, from whether it
/// asks for an upgrade and from what its host resolved to.
pub fn decide(upgrade: bool, target: Target) -> (decision: Option<Tunnel>)
    ensures
        decision == handling(upgrade, target),
{
    if upgrade {
        Some(Tunnel::Handshake(target))
    } else {
        None
    }
}

/// Looks at an inbound request and decides whether it is taken over for
/// tunnelling: it is, exactly when `hyper_tungstenite` takes it for an
/// upgrade request.
pub fn handle(request: &hyper::Request<axum::body::Body>, target: Target) -> (decision: Option<
    Tunnel,
>)
    ensures
        decision == handling(asks_upgrade(*request), target),
{
    let upgrade: bool = is_upgrade(request);
    decide(upgrade, target)
}

/// Finishes the request for the upstream leg from what building it gave: a
/// request gets the inbound request's headers in place of its own, a failure
/// becomes the library's error.
pub fn finish_request(
    built: Result<tungstenite::http::Request<()>, tungstenite::Error>,
    headers: tungstenite::http::HeaderMap<tungstenite::http::HeaderValue>,
) -> (finished: Result<tungstenite::http::Request<()>, TunnelError>)
    ensures
        built is Ok <==> finished is Ok,
        finished matches Ok(request) ==> request_headers(request) == headers,
        built is Err ==> finished matches Err(TunnelError::Request(_)),
{
    match built {
        Ok(mut request) => {
            set_headers(&mut request, headers);
            Ok(request)
        },
        Err(error) => Err(TunnelError::Request(error_detail(&error))),
    }
}

/// Whether `request` is the outcome of asking for the request that opens the
/// upstream leg to `addr`, with the given path and query and the given
/// headers: it is there exactly when the URL of the leg is accepted, it then
/// carries the headers, and the only failure is that of building it.
pub open spec fn opens_leg(
    request: Result<tungstenite::http::Request<()>, TunnelError>,
    addr: SocketAddress,
    path_and_query: Option<Seq<char>>,
    headers: tungstenite::http::HeaderMap<tungstenite::http::HeaderValue>,
) -> bool {
    &&& request is Ok <==> accepts_url(url_for(addr, path_and_query))
    &&& request matches Ok(built) ==> request_headers(built) == headers
    &&& request is Err ==> request matches Err(TunnelError::Request(_))
}

/// Builds the request that opens the upstream leg of a tunnel to a backend:
/// a client request for the URL of [`upstream_url`], with the inbound
/// request's headers in place of its own.
pub fn upstream_request_to(
    addr: SocketAddress,
    path_and_query: Option<&str>,
    headers: tungstenite::http::HeaderMap<tungstenite::http::HeaderValue>,
) -> (request: Result<tungstenite::http::Request<()>, TunnelError>)
    ensures
        opens_leg(request, addr, text_of(path_and_query), headers),
{
    let url = upstream_url(addr, path_and_query);
    finish_request(client_request(url), headers)
}

/// Builds the request that opens the upstream leg of a tunnel to a backend,
/// for the inbound request's URI and headers: the request of
/// [`upstream_request_to`] for the path and query of the URI.
pub fn upstream_request(
    addr: SocketAddress,
    uri: &tungstenite::http::Uri,
    headers: tungstenite::http::HeaderMap<tungstenite::http::HeaderValue>,
) -> (request: Result<tungstenite::http::Request<()>, TunnelError>)
    ensures
        opens_leg(request, addr, inbound_path(*uri), headers),
{
    match uri.path_and_query() {
        Some(path_and_query) => upstream_request_to(addr, Some(path_and_query.as_str()), headers),
        None => upstream_request_to(addr, None, headers),
    }
}

} // verus!
