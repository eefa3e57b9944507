use hyper::header::{HeaderValue, ACCEPT, AUTHORIZATION, CONNECTION, UPGRADE};
use hyper::HeaderMap;
use hyper_echo::custom_logger::body::FramePoll;
use hyper_echo::log_utils::HttpLogLevel;
use hyper_echo::message::{Request, StatusCode, Version};
use hyper_echo::record::{ClientIp, Span};
use hyper_echo::service::http::{echo, to_boxed_body, ReplyBody};
use hyper_echo::service::ws::{run_session, session_reply, to_response, SessionData, MAX_MESSAGE_SIZE};
use hyper_echo::service::{dispatch, make_service, process_request, EchoService, Reply};
use hyper_echo::ws_logger::WsLogger;
use std::time::Duration;

const LOCALHOST: ClientIp = ClientIp::V4(0x7f00_0001);

fn request_with(headers: HeaderMap, body: &str) -> Request<String> {
    Request {
        method: "POST".to_string(),
        path: "/".to_string(),
        version: Version::Http11,
        headers,
        extensions: hyper::http::Extensions::new(),
        body: body.to_string(),
    }
}

fn upgrade_headers() -> HeaderMap {
    let mut headers = HeaderMap::new();
    headers.insert(CONNECTION, HeaderValue::from_static("Upgrade"));
    headers.insert(UPGRADE, HeaderValue::from_static("websocket"));
    headers.insert("sec-websocket-version", HeaderValue::from_static("13"));
    headers.insert("sec-websocket-key", HeaderValue::from_static("dGhlIHNhbXBsZSBub25jZQ=="));
    headers
}

fn plain_session_data() -> SessionData {
    SessionData::new(WsLogger::new(false, LOCALHOST, 0), None)
}

fn answer(headers: HeaderMap) -> Reply<String> {
    process_request(request_with(headers, "some body"), plain_session_data()).unwrap()
}

fn assert_is_echo(reply: Reply<String>, headers: &HeaderMap) {
    assert_eq!(reply.response.status.as_u16(), 200);
    assert_eq!(&reply.response.headers, headers);
    assert!(matches!(reply.response.body, ReplyBody::Stream(body) if body == "some body"));
    assert!(reply.session.is_none());
}

#[test]
fn echo_echoes() {
    let version = Version::Http11;
    let header = (AUTHORIZATION, "some secret");
    let body = "some body".to_string();
    let mut extensions = hyper::http::Extensions::new();
    extensions.insert("Some extension");
    let mut headers = HeaderMap::new();
    headers.insert(header.0.clone(), HeaderValue::from_static(header.1));

    let request = Request {
        method: "POST".to_string(),
        path: "some_uri".to_string(),
        version,
        headers,
        extensions,
        body: body.clone(),
    };

    let response = echo(request).unwrap();

    assert_eq!(response.status.as_u16(), 200);
    assert_eq!(response.extensions.len(), 1);
    assert_eq!(response.headers.get(header.0).unwrap(), header.1);
    assert_eq!(response.version, version);

    assert!(matches!(response.body, ReplyBody::Stream(response_body) if response_body == body));
}

#[test]
fn http_echo() {
    let header_name = ACCEPT;
    let header_value = HeaderValue::from_str("some value").unwrap();
    let mut headers = HeaderMap::new();
    headers.insert(header_name.clone(), header_value.clone());

    let reply = answer(headers);
    let response = reply.response;

    assert_eq!(response.status.as_u16(), 200);
    assert_eq!(response.headers.get(header_name), Some(header_value).as_ref());
    assert!(matches!(response.body, ReplyBody::Stream(text) if text == "some body"));
}

#[test]
fn echo_keeps_every_header_and_the_version() {
    let mut headers = HeaderMap::new();
    headers.append("x-tag", HeaderValue::from_static("one"));
    headers.append("x-tag", HeaderValue::from_static("two"));
    headers.insert("x-binary", HeaderValue::from_bytes(&[0x80, 0xff]).unwrap());
    for version in [Version::Http09, Version::Http10, Version::Http11, Version::H2, Version::H3] {
        let mut request = request_with(headers.clone(), "");
        request.version = version;
        let response = echo(request).unwrap();
        assert_eq!(response.status.as_u16(), 200);
        assert_eq!(response.version, version);
        assert_eq!(response.headers, headers);
        assert!(matches!(response.body, ReplyBody::Stream(body) if body.is_empty()));
    }
}

#[test]
fn echo_hands_the_body_over_unread() {
    let request = Request {
        method: "PUT".to_string(),
        path: "/".to_string(),
        version: Version::Http11,
        headers: HeaderMap::new(),
        extensions: hyper::http::Extensions::new(),
        body: Err::<Vec<u8>, &str>("broken stream"),
    };
    let response = echo(request).unwrap();
    assert!(matches!(response.body, ReplyBody::Stream(Err("broken stream"))));
}

#[test]
fn boxing_a_response_keeps_it() {
    let request = request_with(upgrade_headers(), "some body");
    let response = echo(request).unwrap();
    let boxed = to_boxed_body(response);
    assert_eq!(boxed.status.as_u16(), 200);
    assert_eq!(boxed.headers, upgrade_headers());
    assert!(matches!(boxed.body, ReplyBody::Stream(ReplyBody::Stream(body)) if body == "some body"));
}

#[test]
fn plain_request_is_echoed() {
    let mut headers = HeaderMap::new();
    headers.insert(ACCEPT, HeaderValue::from_static("some value"));
    assert_is_echo(answer(headers.clone()), &headers);
    assert_is_echo(answer(HeaderMap::new()), &HeaderMap::new());
}

#[test]
fn malformed_upgrade_is_echoed() {
    let mut only_connection = upgrade_headers();
    only_connection.remove(UPGRADE);
    assert_is_echo(answer(only_connection.clone()), &only_connection);

    let mut only_upgrade = upgrade_headers();
    only_upgrade.remove(CONNECTION);
    assert_is_echo(answer(only_upgrade.clone()), &only_upgrade);

    let mut other_protocol = upgrade_headers();
    other_protocol.insert(UPGRADE, HeaderValue::from_static("h2c"));
    assert_is_echo(answer(other_protocol.clone()), &other_protocol);

    let mut keep_alive = upgrade_headers();
    keep_alive.insert(CONNECTION, HeaderValue::from_static("keep-alive"));
    assert_is_echo(answer(keep_alive.clone()), &keep_alive);
}

#[test]
fn upgrade_request_starts_a_session() {
    let data = SessionData::new(WsLogger::new(true, LOCALHOST, 3), Some(Duration::from_secs(5)));
    let reply = process_request(request_with(upgrade_headers(), ""), data).unwrap();
    assert_eq!(reply.response.status.as_u16(), 101);
    assert_eq!(reply.response.version, Version::Http11);
    assert_eq!(reply.response.headers.get(CONNECTION).unwrap(), "upgrade");
    assert_eq!(reply.response.headers.get(UPGRADE).unwrap(), "websocket");
    assert_eq!(
        reply.response.headers.get("sec-websocket-accept").unwrap(),
        "s3pPLMBiTxaQ9kYGzzhZRbK+xOo="
    );
    assert_eq!(reply.response.headers.len(), 3);
    assert!(matches!(reply.response.body, ReplyBody::Empty));
    let upgrade = reply.session.unwrap();
    assert_eq!(upgrade.request.headers, upgrade_headers());
    assert_eq!(upgrade.request.method, "POST");
    let plan = upgrade.plan;
    assert!(plan.auto_close);
    assert!(plan.auto_pong);
    assert_eq!(plan.max_message_size, MAX_MESSAGE_SIZE);
    assert_eq!(plan.data.ws_ping_interval(), Some(Duration::from_secs(5)));
    assert!(plan.data.ws_logger().is_enabled());
}

#[test]
fn upgrade_headers_are_matched_without_regard_to_case() {
    let mut headers = upgrade_headers();
    headers.insert(CONNECTION, HeaderValue::from_static("keep-alive, UPGRADE"));
    headers.insert(UPGRADE, HeaderValue::from_static("h2c,  WebSocket "));
    let reply = answer(headers);
    assert_eq!(reply.response.status.as_u16(), 101);
    assert!(reply.session.is_some());
}

#[test]
fn plain_upgrade_pair_reaches_the_handshake() {
    let mut headers = HeaderMap::new();
    headers.insert(CONNECTION, HeaderValue::from_static("Upgrade"));
    headers.insert(UPGRADE, HeaderValue::from_static("websocket"));
    let reply = answer(headers.clone());
    assert_eq!(reply.response.status.as_u16(), 400);
    assert!(
        matches!(reply.response.body, ReplyBody::Full(text) if text == "Sec-WebSocket-Key header is missing")
    );

    headers.insert("sec-websocket-version", HeaderValue::from_static("13"));
    headers.insert("sec-websocket-key", HeaderValue::from_static("dGhlIHNhbXBsZSBub25jZQ=="));
    headers.append(CONNECTION, HeaderValue::from_static("keep-alive"));
    headers.append(UPGRADE, HeaderValue::from_static("h2c"));
    let reply = answer(headers);
    assert_eq!(reply.response.status.as_u16(), 101);
    assert!(reply.session.is_some());
}

#[test]
fn upgrade_without_key_is_a_bad_request() {
    let mut headers = upgrade_headers();
    headers.remove("sec-websocket-key");
    let reply = answer(headers);
    assert_eq!(reply.response.status.as_u16(), 400);
    assert!(reply.response.headers.is_empty());
    assert!(
        matches!(reply.response.body, ReplyBody::Full(text) if text == "Sec-WebSocket-Key header is missing")
    );
    assert!(reply.session.is_none());
}

#[test]
fn upgrade_with_another_version_is_a_bad_request() {
    let mut headers = upgrade_headers();
    headers.insert("sec-websocket-version", HeaderValue::from_static("12"));
    let reply = answer(headers);
    assert_eq!(reply.response.status.as_u16(), 400);
    assert!(
        matches!(reply.response.body, ReplyBody::Full(text) if text == "Sec-Websocket-Version must be 13")
    );
    assert!(reply.session.is_none());

    let mut headers = upgrade_headers();
    headers.remove("sec-websocket-version");
    let reply = answer(headers);
    assert_eq!(reply.response.status.as_u16(), 400);
}

#[test]
fn first_version_header_decides() {
    let mut headers = upgrade_headers();
    headers.insert("sec-websocket-version", HeaderValue::from_static("12"));
    headers.append("sec-websocket-version", HeaderValue::from_static("13"));
    let reply = answer(headers);
    assert_eq!(reply.response.status.as_u16(), 400);
    assert!(
        matches!(reply.response.body, ReplyBody::Full(text) if text == "Sec-Websocket-Version must be 13")
    );

    let mut headers = upgrade_headers();
    headers.insert("sec-websocket-version", HeaderValue::from_static("13"));
    headers.append("sec-websocket-version", HeaderValue::from_static("12"));
    let reply = answer(headers);
    assert_eq!(reply.response.status.as_u16(), 101);
    assert!(reply.session.is_some());
}

#[test]
fn missing_key_is_reported_before_the_version() {
    let mut headers = upgrade_headers();
    headers.remove("sec-websocket-key");
    headers.insert("sec-websocket-version", HeaderValue::from_static("12"));
    let reply = answer(headers);
    assert_eq!(reply.response.status.as_u16(), 400);
    assert!(
        matches!(reply.response.body, ReplyBody::Full(text) if text == "Sec-WebSocket-Key header is missing")
    );
}

#[test]
fn handshake_answers_with_three_headers_in_order() {
    let reply = answer(upgrade_headers());
    let names: Vec<&str> = reply.response.headers.keys().map(|name| name.as_str()).collect();
    assert_eq!(names, vec!["connection", "upgrade", "sec-websocket-accept"]);
}

#[test]
fn dispatch_goes_by_what_it_is_told() {
    let reply = dispatch(false, request_with(upgrade_headers(), "some body"), plain_session_data())
        .unwrap();
    assert_is_echo(reply, &upgrade_headers());
    let reply = dispatch(true, request_with(HeaderMap::new(), "some body"), plain_session_data())
        .unwrap();
    assert_eq!(reply.response.status.as_u16(), 400);
    let reply = run_session(request_with(upgrade_headers(), ""), plain_session_data()).unwrap();
    assert_eq!(reply.response.status.as_u16(), 101);
}

#[test]
fn session_reply_follows_the_handshake() {
    let mut headers = HeaderMap::new();
    headers.insert("sec-websocket-accept", HeaderValue::from_static("abc"));
    let request = request_with(upgrade_headers(), "kept");
    let handshake = (StatusCode::switching_protocols(), headers.clone());
    let reply = session_reply(Ok(handshake), request, plain_session_data());
    assert_eq!(reply.response.status.as_u16(), 101);
    assert_eq!(reply.response.headers, headers);
    assert!(matches!(reply.response.body, ReplyBody::Empty));
    assert_eq!(reply.session.unwrap().request.body, "kept");

    let request = request_with(upgrade_headers(), "dropped");
    let reply = session_reply(Err("no".to_string()), request, plain_session_data());
    assert_eq!(reply.response.status.as_u16(), 400);
    assert!(matches!(reply.response.body, ReplyBody::Full(text) if text == "no"));
    assert!(reply.session.is_none());
}

#[test]
fn rejection_carries_the_diagnostic() {
    let response = to_response::<()>("Invalid value".to_string());
    assert_eq!(response.status.as_u16(), 400);
    assert_eq!(response.version, Version::Http11);
    assert!(response.headers.is_empty());
    assert!(response.extensions.is_empty());
    assert!(matches!(response.body, ReplyBody::Full(text) if text == "Invalid value"));
}

#[test]
fn echo_service_answers_like_process_request() {
    let service = EchoService::new(true, Some(Duration::from_millis(100)), LOCALHOST, 2);
    assert!(service.poll_ready().is_ok());
    let mut headers = HeaderMap::new();
    headers.insert(ACCEPT, HeaderValue::from_static("some value"));
    let reply = service.call(request_with(headers.clone(), "some body")).unwrap();
    assert_is_echo(reply, &headers);
    let reply = service.call(request_with(upgrade_headers(), "some body")).unwrap();
    assert_eq!(reply.response.status.as_u16(), 101);
    let plan = reply.session.unwrap().plan;
    assert_eq!(plan.data.ws_ping_interval(), Some(Duration::from_millis(100)));
    assert_eq!(
        plan.data.ws_logger().log("x").unwrap().span,
        Span::ws_client(LOCALHOST, 2)
    );
}

#[test]
fn made_service_logs_under_the_connection() {
    let mut service = make_service(HttpLogLevel::UriHeadersBody, false, None, LOCALHOST, 6);
    let mut headers = HeaderMap::new();
    headers.insert(ACCEPT, HeaderValue::from_static("some value"));
    let (wrapped, records) = service.call(request_with(headers.clone(), "some body"));
    assert_eq!(records.len(), 2);
    assert_eq!(records[0].message, "IN: POST / HTTP/1.1");
    assert_eq!(records[1].message, "IN: accept: some value");
    assert_eq!(records[1].span, Span::client(LOCALHOST, 6));
    let chunk = wrapped.body.poll_frame(&FramePoll::Data(b"some body")).unwrap();
    assert_eq!(chunk.message, "IN: b\"some body\"");
    let reply = service.inner_mut().call(wrapped).unwrap();
    assert_eq!(reply.response.status.as_u16(), 200);
    assert_eq!(reply.response.headers, headers);
    match reply.response.body {
        ReplyBody::Stream(body) => assert_eq!(body.into_inner(), "some body"),
        other => panic!("not an echo: {:?}", other),
    }
    assert!(reply.session.is_none());
}
