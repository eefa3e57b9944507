use hyper::header::{HeaderName, HeaderValue};
use hyper::HeaderMap;
use hyper_echo::custom_logger::body::FramePoll;
use hyper_echo::custom_logger::future::Completion;
use hyper_echo::custom_logger::{Logger, LoggerLayer, LoggingBody, LoggingFuture};
use hyper_echo::log_utils::{
    log_body_frame, log_headers, log_latency, log_request_uri, log_response_uri, Direction,
    Elapsed, HttpLogLevel,
};
use hyper_echo::message::{Request, RequestHead, ResponseHead, StatusCode, Version};
use hyper_echo::record::{under_span, ClientIp, LogRecord, Severity, Span, SpanName};
use hyper_echo::tower_loggers::{
    BodyLogger, OnRequestLogger, OnResponseLogger, SpanMaker, TraceHooks,
};
use std::time::{Duration, Instant};

const LOCALHOST: ClientIp = ClientIp::V4(0x7f00_0001);

const LEVELS: [HttpLogLevel; 4] = [
    HttpLogLevel::Off,
    HttpLogLevel::Uri,
    HttpLogLevel::UriHeaders,
    HttpLogLevel::UriHeadersBody,
];

fn sample_headers() -> HeaderMap {
    let mut headers = HeaderMap::new();
    headers.insert("accept", HeaderValue::from_static("some value"));
    headers.insert("host", HeaderValue::from_static("127.0.0.1:8080"));
    headers.insert("content-length", HeaderValue::from_static("9"));
    headers
}

fn messages(records: &[LogRecord]) -> Vec<String> {
    records.iter().map(|record| record.message.clone()).collect()
}

fn request_log(level: HttpLogLevel, headers: &HeaderMap) -> Vec<LogRecord> {
    let head = RequestHead { method: "GET", path: "/", version: Version::Http11, headers };
    Logger::new(level, LOCALHOST, 0).log_request(&head)
}

fn response_log(level: HttpLogLevel, headers: &HeaderMap) -> Vec<LogRecord> {
    let head = ResponseHead { status: StatusCode::ok(), version: Version::Http11, headers };
    let elapsed = Elapsed::new(0, 1_500_000).unwrap();
    Logger::new(level, LOCALHOST, 0).log_response(&head, elapsed)
}

#[test]
fn log_level_from_number() {
    assert_eq!(HttpLogLevel::from(0), HttpLogLevel::Off);
    assert_eq!(HttpLogLevel::from(1), HttpLogLevel::Uri);
    assert_eq!(HttpLogLevel::from(2), HttpLogLevel::UriHeaders);
    assert_eq!(HttpLogLevel::from(3), HttpLogLevel::UriHeadersBody);
    for (number, level) in LEVELS.iter().enumerate() {
        assert_eq!(level.as_u8() as usize, number);
    }
}

#[test]
fn log_levels_are_ordered() {
    for (i, lower) in LEVELS.iter().enumerate() {
        for (j, higher) in LEVELS.iter().enumerate() {
            assert_eq!(higher.includes(*lower), j >= i);
        }
    }
}

#[test]
fn direction_labels() {
    assert_eq!(Direction::Incoming.to_string(), "IN:");
    assert_eq!(Direction::Outgoing.to_string(), "OUT:");
}

#[test]
fn version_text_is_that_of_http() {
    let pairs = [
        (Version::Http09, hyper::Version::HTTP_09),
        (Version::Http10, hyper::Version::HTTP_10),
        (Version::Http11, hyper::Version::HTTP_11),
        (Version::H2, hyper::Version::HTTP_2),
        (Version::H3, hyper::Version::HTTP_3),
    ];
    for (ours, theirs) in pairs {
        assert_eq!(ours.as_str(), format!("{:?}", theirs));
    }
    assert_eq!(Version::Http11.as_str(), "HTTP/1.1");
}

#[test]
fn status_code_range() {
    assert!(StatusCode::from_u16(99).is_none());
    assert!(StatusCode::from_u16(1000).is_none());
    assert!(StatusCode::from_u16(0).is_none());
    assert_eq!(StatusCode::from_u16(100).unwrap().as_u16(), 100);
    assert_eq!(StatusCode::from_u16(999).unwrap().as_u16(), 999);
    assert_eq!(StatusCode::ok().as_u16(), 200);
    assert_eq!(StatusCode::bad_request().as_u16(), 400);
    assert_eq!(StatusCode::switching_protocols().as_u16(), 101);
}

#[test]
fn elapsed_takes_less_than_a_second_of_nanoseconds() {
    assert!(Elapsed::new(0, 1_000_000_000).is_none());
    assert!(Elapsed::new(7, u32::MAX).is_none());
    assert!(Elapsed::new(u64::MAX, 999_999_999).is_some());
    assert_eq!(Elapsed::new(1, 500_000_000).unwrap().to_string(), "1.5s");
    assert_eq!(Elapsed::new(0, 12_345_678).unwrap().to_string(), "12.3ms");
    assert_eq!(Elapsed::new(0, 0).unwrap().to_string(), "0.0ns");
    let text = format!("{:.1?}", Duration::new(3, 141_592_653));
    assert_eq!(Elapsed::new(3, 141_592_653).unwrap().to_string(), text);
}

#[test]
fn request_line_text() {
    let headers = HeaderMap::new();
    let head = RequestHead { method: "GET", path: "/", version: Version::Http11, headers: &headers };
    assert_eq!(log_request_uri(&head), "IN: GET / HTTP/1.1");
    let head = RequestHead {
        method: "POST",
        path: "/a/b",
        version: Version::H2,
        headers: &headers,
    };
    assert_eq!(log_request_uri(&head), "IN: POST /a/b HTTP/2.0");
}

#[test]
fn status_line_text() {
    let headers = HeaderMap::new();
    let head = ResponseHead { status: StatusCode::ok(), version: Version::Http11, headers: &headers };
    assert_eq!(log_response_uri(&head), "OUT: HTTP/1.1 200 OK");
    let head = ResponseHead {
        status: StatusCode::bad_request(),
        version: Version::Http10,
        headers: &headers,
    };
    assert_eq!(log_response_uri(&head), "OUT: HTTP/1.0 400 Bad Request");
    let head = ResponseHead {
        status: StatusCode::from_u16(999).unwrap(),
        version: Version::Http11,
        headers: &headers,
    };
    assert_eq!(log_response_uri(&head), "OUT: HTTP/1.1 999 <unknown status code>");
}

#[test]
fn header_lines_keep_the_order_of_the_map() {
    let headers = sample_headers();
    let lines = log_headers(&headers, Direction::Incoming);
    assert_eq!(
        lines,
        vec!["IN: accept: some value", "IN: host: 127.0.0.1:8080", "IN: content-length: 9"]
    );
    let lines = log_headers(&headers, Direction::Outgoing);
    assert_eq!(lines[0], "OUT: accept: some value");
    assert!(log_headers(&HeaderMap::new(), Direction::Incoming).is_empty());
}

#[test]
fn header_with_several_values_is_logged_once_for_each() {
    let mut headers = HeaderMap::new();
    headers.append("x-tag", HeaderValue::from_static("one"));
    headers.append("x-tag", HeaderValue::from_static("two"));
    let lines = log_headers(&headers, Direction::Incoming);
    assert_eq!(lines, vec!["IN: x-tag: one", "IN: x-tag: two"]);
}

#[test]
fn header_value_that_is_not_visible_is_not_written() {
    let mut headers = HeaderMap::new();
    headers.insert(
        HeaderName::from_static("x-binary"),
        HeaderValue::from_bytes(&[0x80, 0xff]).unwrap(),
    );
    headers.insert(HeaderName::from_static("x-tab"), HeaderValue::from_bytes(b"a\tb").unwrap());
    headers.insert(HeaderName::from_static("x-empty"), HeaderValue::from_static(""));
    let lines = log_headers(&headers, Direction::Outgoing);
    assert_eq!(
        lines,
        vec!["OUT: x-binary: <binary or malformed>", "OUT: x-tab: a\tb", "OUT: x-empty: "]
    );
}

#[test]
fn body_chunk_text() {
    let span = Span::client(LOCALHOST, 0);
    let record = log_body_frame(b"some body", &span);
    assert_eq!(record.message, "IN: b\"some body\"");
    assert_eq!(record.span, span);
    assert_eq!(record.severity, Severity::Info);
    let record = log_body_frame(&[0, b'\n', b'"', 0xfe], &span);
    assert_eq!(record.message, "IN: b\"\\0\\n\\\"\\xfe\"");
    assert_eq!(log_body_frame(b"", &span).message, "IN: b\"\"");
}

#[test]
fn latency_text() {
    assert_eq!(log_latency(Elapsed::new(0, 250_000).unwrap()), "Processed in 250.0µs");
    assert_eq!(log_latency(Elapsed::new(2, 0).unwrap()), "Processed in 2.0s");
}

#[test]
fn spans_name_their_connection() {
    let span = Span::client(LOCALHOST, 7);
    assert_eq!(span.name, SpanName::Client);
    assert_eq!(span.client_ip, LOCALHOST);
    assert_eq!(span.id, 7);
    let span = Span::ws_client(ClientIp::V6(1), 8);
    assert_eq!(span.name, SpanName::WsClient);
    assert_eq!(span.client_ip, ClientIp::V6(1));
    assert_eq!(span.id, 8);
    assert_eq!(SpanMaker::new(LOCALHOST, 7).make_span(), Span::client(LOCALHOST, 7));
}

#[test]
fn nothing_is_logged_when_logging_is_off() {
    let headers = sample_headers();
    assert!(request_log(HttpLogLevel::Off, &headers).is_empty());
    assert!(response_log(HttpLogLevel::Off, &headers).is_empty());
    let body = LoggingBody::new((), Span::client(LOCALHOST, 0), HttpLogLevel::Off);
    assert!(body.poll_frame(&FramePoll::Data(b"some body")).is_none());
}

#[test]
fn request_is_logged_at_uri_level() {
    let headers = sample_headers();
    assert_eq!(messages(&request_log(HttpLogLevel::Uri, &headers)), vec!["IN: GET / HTTP/1.1"]);
    assert_eq!(
        messages(&response_log(HttpLogLevel::Uri, &headers)),
        vec!["OUT: HTTP/1.1 200 OK", "Processed in 1.5ms"]
    );
}

#[test]
fn request_is_logged_with_headers() {
    let headers = sample_headers();
    for level in [HttpLogLevel::UriHeaders, HttpLogLevel::UriHeadersBody] {
        assert_eq!(
            messages(&request_log(level, &headers)),
            vec![
                "IN: GET / HTTP/1.1",
                "IN: accept: some value",
                "IN: host: 127.0.0.1:8080",
                "IN: content-length: 9",
            ]
        );
        assert_eq!(
            messages(&response_log(level, &headers)),
            vec![
                "OUT: HTTP/1.1 200 OK",
                "OUT: accept: some value",
                "OUT: host: 127.0.0.1:8080",
                "OUT: content-length: 9",
                "Processed in 1.5ms",
            ]
        );
    }
}

#[test]
fn body_is_logged_at_the_highest_level_only() {
    let span = Span::client(LOCALHOST, 0);
    for level in LEVELS {
        let body = LoggingBody::new((), span, level);
        let record = body.poll_frame(&FramePoll::Data(b"some body"));
        if level == HttpLogLevel::UriHeadersBody {
            let record = record.unwrap();
            assert_eq!(record.message, "IN: b\"some body\"");
            assert_eq!(record.span, span);
        } else {
            assert!(record.is_none());
        }
        assert!(body.poll_frame(&FramePoll::Pending).is_none());
        assert!(body.poll_frame(&FramePoll::Trailers).is_none());
        assert!(body.poll_frame(&FramePoll::Failed).is_none());
        assert!(body.poll_frame(&FramePoll::End).is_none());
    }
}

#[test]
fn every_record_is_under_the_span_of_its_connection() {
    let headers = sample_headers();
    let span = Span::client(LOCALHOST, 0);
    for level in LEVELS {
        for record in request_log(level, &headers) {
            assert_eq!(record.span, span);
            assert_eq!(record.severity, Severity::Info);
        }
        for record in response_log(level, &headers) {
            assert_eq!(record.span, span);
        }
    }
}

#[test]
fn higher_levels_log_what_lower_levels_log() {
    let headers = sample_headers();
    let mut previous: Vec<String> = Vec::new();
    for level in LEVELS {
        let mut log = messages(&request_log(level, &headers));
        let body = LoggingBody::new((), Span::client(LOCALHOST, 0), level);
        log.extend(body.poll_frame(&FramePoll::Data(b"some body")).map(|r| r.message));
        log.extend(messages(&response_log(level, &headers)));
        for message in &previous {
            assert!(log.contains(message));
        }
        if level != HttpLogLevel::Off {
            assert!(log.len() > previous.len());
        }
        previous = log;
    }
    assert_eq!(previous.len(), 10);
}

#[test]
fn levels_that_differ_by_what_is_missing_log_the_same() {
    let headers = HeaderMap::new();
    let uri = messages(&request_log(HttpLogLevel::Uri, &headers));
    let with_headers = messages(&request_log(HttpLogLevel::UriHeaders, &headers));
    assert_eq!(uri, with_headers);
    let uri = messages(&response_log(HttpLogLevel::Uri, &headers));
    let with_headers = messages(&response_log(HttpLogLevel::UriHeadersBody, &headers));
    assert_eq!(uri, with_headers);
}

#[test]
fn hooks_log_what_the_logger_logs() {
    let headers = sample_headers();
    let span = SpanMaker::new(LOCALHOST, 0).make_span();
    let request = RequestHead { method: "GET", path: "/", version: Version::Http11, headers: &headers };
    let response =
        ResponseHead { status: StatusCode::ok(), version: Version::Http11, headers: &headers };
    let elapsed = Elapsed::new(0, 1_500_000).unwrap();
    for level in LEVELS {
        let logger = Logger::new(level, LOCALHOST, 0);
        assert_eq!(OnRequestLogger::new(level).on_request(&request, &span), logger.log_request(&request));
        assert_eq!(
            OnResponseLogger::new(level).on_response(&response, elapsed, &span),
            logger.log_response(&response, elapsed)
        );
        let body = LoggingBody::new((), span, level);
        assert_eq!(
            BodyLogger::new(level).on_body_chunk(b"some body", &span),
            body.poll_frame(&FramePoll::Data(b"some body"))
        );
    }
}

#[test]
fn trace_hooks_follow_their_logger() {
    let headers = sample_headers();
    let request = RequestHead { method: "GET", path: "/", version: Version::Http11, headers: &headers };
    let response =
        ResponseHead { status: StatusCode::ok(), version: Version::Http11, headers: &headers };
    let elapsed = Elapsed::new(0, 1_500_000).unwrap();
    for level in LEVELS {
        let logger = Logger::new(level, ClientIp::V6(7), 9);
        assert_eq!(logger.span_of(), Span::client(ClientIp::V6(7), 9));
        let hooks = TraceHooks::new(&logger);
        let span = hooks.make_span.make_span();
        assert_eq!(span, Span::client(ClientIp::V6(7), 9));
        assert_eq!(hooks.on_request.on_request(&request, &span), logger.log_request(&request));
        assert_eq!(
            hooks.on_response.on_response(&response, elapsed, &span),
            logger.log_response(&response, elapsed)
        );
        assert_eq!(
            hooks.on_body_chunk.on_body_chunk(b"x", &span).is_some(),
            level == HttpLogLevel::UriHeadersBody
        );
    }
}

#[test]
fn messages_become_records_in_order() {
    let span = Span::ws_client(LOCALHOST, 1);
    let records = under_span(span, vec!["one".to_string(), "two".to_string()]);
    assert_eq!(
        records,
        vec![LogRecord::info(span, "one".to_string()), LogRecord::info(span, "two".to_string())]
    );
    assert!(under_span(span, Vec::new()).is_empty());
    let copy = records[0].clone();
    assert_eq!(copy, records[0]);
    let warning = LogRecord::new(span, Severity::Warn, "careful".to_string());
    assert_eq!(warning.severity, Severity::Warn);
    assert_eq!(warning.message, "careful");
}

#[test]
fn wrapping_a_request_changes_nothing_but_the_body() {
    let mut extensions = hyper::http::Extensions::new();
    extensions.insert("Some extension");
    let request = Request {
        method: "POST".to_string(),
        path: "/".to_string(),
        version: Version::Http11,
        headers: sample_headers(),
        extensions,
        body: "some body".to_string(),
    };
    let logger = Logger::new(HttpLogLevel::UriHeadersBody, LOCALHOST, 3);
    assert_eq!(logger.log_level(), HttpLogLevel::UriHeadersBody);
    let wrapped = logger.wrap_request(request);
    assert_eq!(wrapped.method, "POST");
    assert_eq!(wrapped.path, "/");
    assert_eq!(wrapped.version, Version::Http11);
    assert_eq!(wrapped.headers, sample_headers());
    assert_eq!(wrapped.extensions.get::<&str>(), Some(&"Some extension"));
    let record = wrapped.body.poll_frame(&FramePoll::Data(b"xyz")).unwrap();
    assert_eq!(record.span, Span::client(LOCALHOST, 3));
    assert_eq!(wrapped.body.into_inner(), "some body");
}

#[test]
fn layer_logs_the_request_and_hands_it_on() {
    let layer = LoggerLayer::new(HttpLogLevel::UriHeaders, LOCALHOST, 4);
    let mut service = layer.layer("inner");
    assert_eq!(*service.inner_mut(), "inner");
    assert_eq!(service.logger_of().log_level(), HttpLogLevel::UriHeaders);
    assert_eq!(service.logger_of().span_of(), Span::client(LOCALHOST, 4));
    let request = Request {
        method: "GET".to_string(),
        path: "/".to_string(),
        version: Version::Http11,
        headers: sample_headers(),
        extensions: hyper::http::Extensions::new(),
        body: vec![1u8, 2, 3],
    };
    let (mut wrapped, records) = service.call(request);
    assert_eq!(records.len(), 4);
    assert_eq!(records[0].message, "IN: GET / HTTP/1.1");
    assert_eq!(records[0].span, Span::client(LOCALHOST, 4));
    assert_eq!(*wrapped.body.inner_mut(), vec![1u8, 2, 3]);
    assert!(wrapped.body.poll_frame(&FramePoll::Data(b"xyz")).is_none());
    let start = Instant::now();
    let mut future = service.respond(17u8, start);
    assert_eq!(*future.inner_mut(), 17);
    assert_eq!(future.start_time(), start);
}

#[test]
fn future_logs_the_response_when_it_is_ready() {
    let headers = sample_headers();
    let logger = Logger::new(HttpLogLevel::Uri, LOCALHOST, 5);
    let future = LoggingFuture::new((), logger, Instant::now());
    let elapsed = Elapsed::new(0, 2_000).unwrap();
    assert!(future.poll(&Completion::Pending, elapsed).is_empty());
    let head = ResponseHead { status: StatusCode::ok(), version: Version::Http11, headers: &headers };
    let records = future.poll(&Completion::Ready(head), elapsed);
    assert_eq!(messages(&records), vec!["OUT: HTTP/1.1 200 OK", "Processed in 2.0µs"]);
    let records = future.poll(&Completion::Failed("Broken(7)"), elapsed);
    assert_eq!(records.len(), 1);
    assert_eq!(records[0].message, "Error processing request: Broken(7)");
    assert_eq!(records[0].severity, Severity::Error);
    assert_eq!(records[0].span, Span::client(LOCALHOST, 5));
}
