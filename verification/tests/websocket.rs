use incipit::address::{IpAddress, SocketAddress};
use incipit::drawbridge::mapping::Target;
use incipit::drawbridge::tunnel::Tunnel;
use axum::body::Body;
use incipit::drawbridge::websocket::{
    decide, finish_request, handle, upstream_request, upstream_request_to, upstream_url,
    TunnelError,
};
use tungstenite::client::IntoClientRequest;
use tungstenite::http::{HeaderMap, HeaderValue, Request, Uri};

fn backend(port: u16) -> SocketAddress {
    SocketAddress { ip: IpAddress::V4(0, 0, 0, 0), port }
}

fn upgrade_request() -> Request<Body> {
    Request::builder()
        .uri("/socket")
        .header("Host", "websockets.example.com")
        .header("Connection", "keep-alive, Upgrade")
        .header("Upgrade", "WebSocket")
        .body(Body::empty())
        .unwrap()
}

fn inbound_headers() -> HeaderMap<HeaderValue> {
    let mut headers = HeaderMap::new();
    headers.insert("host", HeaderValue::from_static("websockets.example.com"));
    headers.insert("cookie", HeaderValue::from_static("cookie1=1; cookie2=2"));
    headers.insert("sec-websocket-key", HeaderValue::from_static("dGhlIHNhbXBsZSBub25jZQ=="));
    headers
}

#[test]
fn upstream_url_keeps_path_and_query() {
    assert_eq!(upstream_url(backend(4455), Some("/")), "ws://0.0.0.0:4455/");
    assert_eq!(upstream_url(backend(4455), Some("/chat?room=1")), "ws://0.0.0.0:4455/chat?room=1");
    assert_eq!(
        upstream_url(backend(4455), Some("/chat/room?id=7&x=/y")),
        "ws://0.0.0.0:4455/chat/room?id=7&x=/y"
    );
    assert_eq!(upstream_url(backend(80), Some("/é/ü?q=ß")), "ws://0.0.0.0:80/é/ü?q=ß");
    let local = SocketAddress { ip: IpAddress::V4(127, 0, 0, 1), port: 65535 };
    assert_eq!(upstream_url(local, Some("/a")), "ws://127.0.0.1:65535/a");
    let long = SocketAddress { ip: IpAddress::V6(0, 0, 0, 0, 0, 0, 0, 1), port: 9000 };
    assert_eq!(upstream_url(long, Some("/a")), "ws://[0:0:0:0:0:0:0:1]:9000/a");
}

#[test]
fn upstream_url_keeps_every_leading_slash() {
    assert_eq!(upstream_url(backend(80), Some("//double")), "ws://0.0.0.0:80//double");
    assert_eq!(upstream_url(backend(80), Some("///a//b/")), "ws://0.0.0.0:80///a//b/");
    assert_eq!(upstream_url(backend(80), Some("//")), "ws://0.0.0.0:80//");
}

#[test]
fn upstream_url_without_a_leading_slash_gets_one() {
    assert_eq!(upstream_url(backend(80), None), "ws://0.0.0.0:80/");
    assert_eq!(upstream_url(backend(80), Some("")), "ws://0.0.0.0:80/");
    assert_eq!(upstream_url(backend(80), Some("*")), "ws://0.0.0.0:80/*");
    assert_eq!(upstream_url(backend(80), Some("a/b?c")), "ws://0.0.0.0:80/a/b?c");
}

#[test]
fn requests_without_upgrade_are_not_handled() {
    assert_eq!(decide(false, Target::port(1)), None);
    assert_eq!(decide(false, Target::Incipit), None);
    assert_eq!(decide(false, Target::Unknown), None);
    assert_eq!(decide(true, Target::port(1)), Some(Tunnel::Handshake(Target::port(1))));
    assert_eq!(decide(true, Target::Unknown), Some(Tunnel::Handshake(Target::Unknown)));
}

#[test]
fn handle_takes_upgrade_requests_over() {
    assert_eq!(
        handle(&upgrade_request(), Target::port(4455)),
        Some(Tunnel::Handshake(Target::Socket(backend(4455))))
    );
    assert_eq!(
        handle(&upgrade_request(), Target::Incipit),
        Some(Tunnel::Handshake(Target::Incipit))
    );
}

#[test]
fn handle_leaves_plain_requests_alone() {
    let plain = Request::builder().uri("/socket").header("Host", "h").body(Body::empty()).unwrap();
    assert_eq!(handle(&plain, Target::port(4455)), None);
    let half =
        Request::builder().uri("/").header("Connection", "Upgrade").body(Body::empty()).unwrap();
    assert_eq!(handle(&half, Target::port(4455)), None);
    let other =
        Request::builder().uri("/").header("Connection", "Upgrade").header("Upgrade", "h2c");
    assert_eq!(handle(&other.body(Body::empty()).unwrap(), Target::port(4455)), None);
}

#[test]
fn upstream_request_carries_url_and_headers() {
    let uri: Uri = "/chat/room?id=7".parse().unwrap();
    let request = upstream_request(backend(4455), &uri, inbound_headers()).unwrap();
    assert_eq!(request.uri().to_string(), "ws://0.0.0.0:4455/chat/room?id=7");
    assert_eq!(request.headers(), &inbound_headers());
    assert_eq!(request.headers().get("Cookie").unwrap(), "cookie1=1; cookie2=2");
    assert_eq!(request.headers().get("Host").unwrap(), "websockets.example.com");
}

#[test]
fn upstream_request_for_the_root() {
    let uri: Uri = "/".parse().unwrap();
    let request = upstream_request(backend(1), &uri, HeaderMap::new()).unwrap();
    assert_eq!(request.uri().to_string(), "ws://0.0.0.0:1/");
    assert!(request.headers().is_empty());
}

#[test]
fn upstream_request_for_an_absolute_uri_keeps_only_path_and_query() {
    let uri: Uri = "http://websockets.example.com:3456/live?since=1".parse().unwrap();
    let request = upstream_request(backend(4455), &uri, HeaderMap::new()).unwrap();
    assert_eq!(request.uri().to_string(), "ws://0.0.0.0:4455/live?since=1");
}

#[test]
fn finished_request_has_the_inbound_headers() {
    let built = "ws://0.0.0.0:9/x".into_client_request();
    let finished = finish_request(built, inbound_headers()).unwrap();
    assert_eq!(finished.uri().to_string(), "ws://0.0.0.0:9/x");
    assert_eq!(finished.headers(), &inbound_headers());
}

#[test]
fn failure_to_build_is_reported_with_its_detail() {
    let built = "not a url".into_client_request();
    let detail = format!("{}", built.as_ref().unwrap_err());
    assert!(!detail.is_empty());
    match finish_request(built, HeaderMap::new()) {
        Err(TunnelError::Request(text)) => assert_eq!(text, detail),
        other => panic!("expected a request error, got {other:?}"),
    }
}

#[test]
fn request_to_a_backend_is_built_for_the_url_of_the_leg() {
    let request = upstream_request_to(backend(4455), Some("/chat?id=7"), inbound_headers()).unwrap();
    assert_eq!(request.uri().to_string(), "ws://0.0.0.0:4455/chat?id=7");
    assert_eq!(request.headers(), &inbound_headers());
    let bare = upstream_request_to(backend(4455), None, HeaderMap::new()).unwrap();
    assert_eq!(bare.uri().to_string(), "ws://0.0.0.0:4455/");
}

#[test]
fn url_that_is_not_accepted_fails_the_request() {
    let refused = upstream_request_to(backend(4455), Some("/a b"), inbound_headers());
    assert!(matches!(refused, Err(TunnelError::Request(_))));
    assert!("ws://0.0.0.0:4455/a b".into_client_request().is_err());
}

#[test]
fn tunnel_errors_have_a_text() {
    assert_eq!(TunnelError::InvalidTarget.message(), "Invalid target for websocket");
    assert_eq!(TunnelError::Request("invalid uri character".into()).message(), "invalid uri character");
}

#[test]
fn long_address_makes_a_url_that_is_accepted() {
    let long = SocketAddress { ip: IpAddress::V6(0, 0, 0, 0, 0, 0, 0, 1), port: 9000 };
    let request = upstream_request_to(long, Some("/a"), HeaderMap::new()).unwrap();
    assert_eq!(request.uri().to_string(), "ws://[0:0:0:0:0:0:0:1]:9000/a");
    assert_eq!(request.uri().host(), Some("[0:0:0:0:0:0:0:1]"));
    assert_eq!(request.uri().port_u16(), Some(9000));
}

#[test]
fn upstream_request_keeps_a_doubled_slash() {
    let uri: Uri = "//a/b?c=1".parse().unwrap();
    let path = uri.path_and_query().unwrap().as_str().to_string();
    let request = upstream_request(backend(4455), &uri, HeaderMap::new()).unwrap();
    assert_eq!(request.uri().to_string(), format!("ws://0.0.0.0:4455{path}"));
}
