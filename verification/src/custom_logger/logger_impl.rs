//! The logger of one connection's HTTP traffic.

use crate::custom_logger::body::LoggingBody;
use crate::log_utils::{
    request_messages, request_records, response_messages, response_records, Elapsed, HttpLogLevel,
};
use crate::message::{Request, RequestHead, ResponseHead};
use crate::record::{info_records, ClientIp, LogRecord, Span, SpanName};
use crate::trusted::header_contents;
use vstd::prelude::*;

verus! {

/// Makes the records of the requests and responses of one connection, as
/// many as its level asks for, all under the connection's span.
#[derive(Debug, Clone, Copy)]
pub struct Logger {
    log_level: HttpLogLevel,
    span: Span,
}

impl Logger {
    #[verifier::type_invariant]
    spec fn is_of_client(self) -> bool {
        self.span.name == SpanName::Client
    }

    /// The level of the logger.
    pub closed spec fn level(self) -> HttpLogLevel {
        self.log_level
    }

    /// The span under which the logger makes its records.
    pub closed spec fn span(self) -> Span {
        self.span
    }

    /// A logger for connection `id` from `client_ip`.
    pub fn new(log_level: HttpLogLevel, client_ip: ClientIp, id: u64) -> (logger: Logger)
        ensures
            logger.level() == log_level,
            logger.span() == Span::client(client_ip, id),
    {
        Logger { log_level, span: Span::client(client_ip, id) }
    }

    /// The level of the logger.
    pub fn log_level(&self) -> (level: HttpLogLevel)
        ensures
            level == self.level(),
    {
        self.log_level
    }

    /// The span under which the logger makes its records: the span of the
    /// HTTP side of its connection.
    pub fn span_of(&self) -> (span: Span)
        ensures
            span == self.span(),
            span == Span::client(span.client_ip, span.id),
    {
        proof {
            use_type_invariant(self);
        }
        self.span
    }

    /// Puts the request's body inside a body that logs each chunk that
    /// passes, if the level asks for bodies. The rest of the request is as it
    /// was.
    pub fn wrap_request<B>(&self, request: Request<B>) -> (wrapped: Request<LoggingBody<B>>)
        ensures
            wrapped.method == request.method,
            wrapped.path == request.path,
            wrapped.version == request.version,
            wrapped.headers == request.headers,
            wrapped.extensions == request.extensions,
            wrapped.body.inner() == request.body,
            wrapped.body.span() == self.span(),
            wrapped.body.level() == self.level(),
    {
        let Request { method, path, version, headers, extensions, body } = request;
        Request {
            method,
            path,
            version,
            headers,
            extensions,
            body: LoggingBody::new(body, self.span, self.log_level),
        }
    }

    /// The records of a request: none, or the request line, or the request
    /// line and the headers.
    pub fn log_request(&self, request: &RequestHead) -> (records: Vec<LogRecord>)
        ensures
            records.deep_view() == info_records(
                self.span(),
                request_messages(
                    self.level(),
                    request.method@,
                    request.path@,
                    request.version,
                    header_contents(*request.headers),
                ),
            ),
    {
        request_records(self.log_level, self.span, request)
    }

    /// The records of a response that came `elapsed` after its request:
    /// none, or the status line, the headers if the level asks for them, and
    /// the time it took.
    pub fn log_response(&self, response: &ResponseHead, elapsed: Elapsed) -> (records: Vec<
        LogRecord,
    >)
        ensures
            records.deep_view() == info_records(
                self.span(),
                response_messages(
                    self.level(),
                    response.version,
                    response.status.value(),
                    header_contents(*response.headers),
                    elapsed,
                ),
            ),
    {
        response_records(self.log_level, self.span, response, elapsed)
    }
}

} // verus!
