use hyper_echo::log_utils::HttpLogLevel;
use hyper_echo::message::{Request, Version};
use hyper_echo::record::{ClientIp, Span};
use hyper_echo::server::{
    Accept, Connection, ConnectionAction, ConnectionEvent, ConnectionPhase, EchoServer, Turn,
};
use hyper_echo::{EchoServer as RootEchoServer, HttpLogLevel as RootHttpLogLevel};
use std::time::Duration;

const LOCALHOST: ClientIp = ClientIp::V4(0x7f00_0001);

fn connection_from(client_ip: ClientIp) -> Accept {
    Accept::Connection { client_ip }
}

fn failed_accept(error: &str) -> Accept {
    Accept::Failed { error: error.to_string() }
}

fn span_of_next_connection(server: &mut EchoServer, client_ip: ClientIp) -> Span {
    match server.run(connection_from(client_ip)) {
        Turn::Serve { service, connection } => {
            assert_eq!(connection.phase(), ConnectionPhase::Serving);
            let request = Request {
                method: "GET".to_string(),
                path: "/".to_string(),
                version: Version::Http11,
                headers: hyper::HeaderMap::new(),
                extensions: hyper::http::Extensions::new(),
                body: (),
            };
            let (_, records) = service.call(request);
            assert_eq!(records.len(), 1);
            records[0].span
        }
        other => panic!("not served: {:?}", other),
    }
}

#[test]
fn server_listens_on_loopback() {
    let server = EchoServer::new(None, HttpLogLevel::Off, false);
    let addr = server.bind_addr();
    assert_eq!(addr.ip, (127, 0, 0, 1));
    assert_eq!(addr.port, 0);
    let server = EchoServer::new(Some(8080), HttpLogLevel::Off, false);
    let addr = server.bind_addr();
    assert_eq!(addr.ip, (127, 0, 0, 1));
    assert_eq!(addr.port, 8080);
}

#[test]
fn server_is_exported_from_the_root() {
    let server = RootEchoServer::new(Some(1), RootHttpLogLevel::Uri, true);
    assert_eq!(server.bind_addr().port, 1);
    assert!(server.has_ids_left());
    assert!(!server.is_stopped());
}

#[test]
fn connections_are_numbered_in_order() {
    let mut server = EchoServer::new(None, HttpLogLevel::Uri, false);
    for id in 0..5u64 {
        let client_ip = ClientIp::V4(0x0a00_0000 + id as u32);
        let span = span_of_next_connection(&mut server, client_ip);
        assert_eq!(span, Span::client(client_ip, id));
    }
}

#[test]
fn connection_gets_the_settings_of_the_server() {
    let mut server = EchoServer::new(None, HttpLogLevel::Off, true);
    server.set_ws_ping_interval(Some(Duration::from_millis(100)));
    let (service, connection) = server.process_connection(LOCALHOST, 11);
    assert_eq!(connection.phase(), ConnectionPhase::Serving);
    let mut headers = hyper::HeaderMap::new();
    headers.insert("connection", hyper::header::HeaderValue::from_static("upgrade"));
    headers.insert("upgrade", hyper::header::HeaderValue::from_static("websocket"));
    headers.insert("sec-websocket-version", hyper::header::HeaderValue::from_static("13"));
    headers.insert("sec-websocket-key", hyper::header::HeaderValue::from_static("a2V5"));
    let request = Request {
        method: "GET".to_string(),
        path: "/".to_string(),
        version: Version::Http11,
        headers,
        extensions: hyper::http::Extensions::new(),
        body: (),
    };
    let mut service = service;
    let (wrapped, records) = service.call(request);
    assert!(records.is_empty());
    let reply = service.inner_mut().call(wrapped).unwrap();
    let plan = reply.session.unwrap().plan;
    assert_eq!(plan.data.ws_ping_interval(), Some(Duration::from_millis(100)));
    assert_eq!(plan.data.ws_logger().log("x").unwrap().span, Span::ws_client(LOCALHOST, 11));

    server.set_ws_ping_interval(None);
    let (mut service, _) = server.process_connection(LOCALHOST, 12);
    let request = Request {
        method: "GET".to_string(),
        path: "/".to_string(),
        version: Version::Http11,
        headers: hyper::HeaderMap::new(),
        extensions: hyper::http::Extensions::new(),
        body: (),
    };
    let (wrapped, _) = service.call(request);
    assert!(service.inner_mut().call(wrapped).unwrap().session.is_none());
}

#[test]
fn http_request_fails_after_cancel() {
    let mut server = EchoServer::new(None, HttpLogLevel::Off, false);
    assert!(matches!(server.run(Accept::Cancelled), Turn::Stop));

    let response = server.run(connection_from(LOCALHOST));
    assert!(matches!(response, Turn::Ignore));
}

#[test]
fn cancelled_server_takes_no_connection_ever() {
    let mut server = EchoServer::new(None, HttpLogLevel::Off, false);
    assert!(matches!(server.run(connection_from(LOCALHOST)), Turn::Serve { .. }));
    assert!(matches!(server.run(Accept::Cancelled), Turn::Stop));
    assert!(server.is_stopped());
    for _ in 0..3 {
        assert!(matches!(server.run(connection_from(LOCALHOST)), Turn::Ignore));
        assert!(matches!(server.run(failed_accept("reset")), Turn::Ignore));
        assert!(matches!(server.run(Accept::Cancelled), Turn::Ignore));
    }
}

#[test]
fn failure_to_accept_is_reported_and_the_server_goes_on() {
    let mut server = EchoServer::new(None, HttpLogLevel::Uri, false);
    assert_eq!(span_of_next_connection(&mut server, LOCALHOST), Span::client(LOCALHOST, 0));
    match server.run(failed_accept("too many open files")) {
        Turn::Report { warning } => {
            assert_eq!(warning, "Error accepting connection: too many open files")
        }
        other => panic!("not reported: {:?}", other),
    }
    assert!(!server.is_stopped());
    assert!(matches!(server.run(failed_accept("again")), Turn::Report { .. }));
    assert!(!server.is_stopped());
    assert_eq!(span_of_next_connection(&mut server, LOCALHOST), Span::client(LOCALHOST, 1));
    assert!(matches!(server.run(Accept::Cancelled), Turn::Stop));
}

#[test]
fn cancelling_the_server_twice_is_cancelling_it_once() {
    let mut once = EchoServer::new(None, HttpLogLevel::Off, false);
    let mut twice = EchoServer::new(None, HttpLogLevel::Off, false);
    assert!(matches!(once.run(Accept::Cancelled), Turn::Stop));
    assert!(matches!(twice.run(Accept::Cancelled), Turn::Stop));
    assert!(matches!(twice.run(Accept::Cancelled), Turn::Ignore));
    assert!(matches!(once.run(connection_from(LOCALHOST)), Turn::Ignore));
    assert!(matches!(twice.run(connection_from(LOCALHOST)), Turn::Ignore));
}

#[test]
fn connection_that_ends_is_dropped() {
    let mut connection = Connection::new();
    assert_eq!(connection.step(ConnectionEvent::Finished), (ConnectionAction::Drop, None));
    assert_eq!(connection.phase(), ConnectionPhase::Done);
    assert_eq!(connection.step(ConnectionEvent::Finished), (ConnectionAction::Ignore, None));
}

#[test]
fn connection_that_fails_is_dropped_with_a_warning() {
    let mut connection = Connection::new();
    let (action, warning) = connection.step(ConnectionEvent::Failed { error: "broken pipe".to_string() });
    assert_eq!(action, ConnectionAction::Drop);
    assert_eq!(warning.as_deref(), Some("Error processing connection: broken pipe"));
    assert_eq!(connection.phase(), ConnectionPhase::Done);
}

#[test]
fn cancelled_connection_is_shut_down_before_it_is_dropped() {
    for failed in [false, true] {
        let mut connection = Connection::new();
        assert_eq!(connection.step(ConnectionEvent::Cancelled), (ConnectionAction::ShutDown, None));
        assert_eq!(connection.phase(), ConnectionPhase::Draining);
        assert_eq!(connection.step(ConnectionEvent::Cancelled), (ConnectionAction::Ignore, None));
        assert_eq!(connection.phase(), ConnectionPhase::Draining);
        let end = if failed {
            ConnectionEvent::Failed { error: "reset".to_string() }
        } else {
            ConnectionEvent::Finished
        };
        assert_eq!(connection.step(end), (ConnectionAction::Drop, None));
        assert_eq!(connection.phase(), ConnectionPhase::Done);
    }
}
