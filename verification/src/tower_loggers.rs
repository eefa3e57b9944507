//! Hooks for a tracing middleware: one that makes the span of a connection,
//! and one each for requests, responses and chunks of a body.
//!
//! The middleware calls a hook when something passes; the hook answers with
//! the records to emit. Under the span of their connection the hooks make
//! the records that the crate's own logging layer makes.

use crate::custom_logger::Logger;
use crate::log_utils::{
    chunk_messages, chunk_records, request_messages, request_records, response_messages,
    response_records, Elapsed, HttpLogLevel,
};
use crate::message::{RequestHead, ResponseHead};
use crate::record::{info_records, ClientIp, LogRecord, Span};
use crate::trusted::header_contents;
use vstd::prelude::*;

verus! {

/// The hook for requests.
#[derive(Debug, Clone, Copy)]
pub struct OnRequestLogger {
    log_level: HttpLogLevel,
}

impl OnRequestLogger {
    /// The level of the hook.
    pub closed spec fn level(self) -> HttpLogLevel {
        self.log_level
    }

    /// The hook that logs requests as `log_level` asks.
    pub fn new(log_level: HttpLogLevel) -> (hook: OnRequestLogger)
        ensures
            hook.level() == log_level,
    {
        OnRequestLogger { log_level }
    }

    /// The records of a request: none, or the request line, or the request
    /// line and the headers.
    pub fn on_request(&self, request: &RequestHead, span: &Span) -> (records: Vec<LogRecord>)
        ensures
            records.deep_view() == info_records(
                *span,
                request_messages(
                    self.level(),
                    request.method@,
                    request.path@,
                    request.version,
                    header_contents(*request.headers),
                ),
            ),
    {
        request_records(self.log_level, *span, request)
    }
}

/// The hook for responses.
#[derive(Debug, Clone, Copy)]
pub struct OnResponseLogger {
    log_level: HttpLogLevel,
}

impl OnResponseLogger {
    /// The level of the hook.
    pub closed spec fn level(self) -> HttpLogLevel {
        self.log_level
    }

    /// The hook that logs responses as `log_level` asks.
    pub fn new(log_level: HttpLogLevel) -> (hook: OnResponseLogger)
        ensures
            hook.level() == log_level,
    {
        OnResponseLogger { log_level }
    }

    /// The records of a response that came `latency` after its request:
    /// none, or the status line, the headers if the level asks for them, and
    /// the time it took.
    pub fn on_response(&self, response: &ResponseHead, latency: Elapsed, span: &Span) -> (records:
        Vec<LogRecord>)
        ensures
            records.deep_view() == info_records(
                *span,
                response_messages(
                    self.level(),
                    response.version,
                    response.status.value(),
                    header_contents(*response.headers),
                    latency,
                ),
            ),
    {
        response_records(self.log_level, *span, response, latency)
    }
}

/// The hook for chunks of a body.
#[derive(Debug, Clone, Copy)]
pub struct BodyLogger {
    log_level: HttpLogLevel,
}

impl BodyLogger {
    /// The level of the hook.
    pub closed spec fn level(self) -> HttpLogLevel {
        self.log_level
    }

    /// The hook that logs chunks as `log_level` asks.
    pub fn new(log_level: HttpLogLevel) -> (hook: BodyLogger)
        ensures
            hook.level() == log_level,
    {
        BodyLogger { log_level }
    }

    /// The record of a chunk: one at the highest level, none below it.
    pub fn on_body_chunk(&self, chunk: &[u8], span: &Span) -> (record: Option<LogRecord>)
        ensures
            match record {
                Some(r) => seq![r@],
                None => seq![],
            } == info_records(*span, chunk_messages(self.level(), chunk@)),
    {
        chunk_records(self.log_level, span, chunk)
    }
}

/// The hook that makes the span of a connection.
#[derive(Debug, Clone, Copy)]
pub struct SpanMaker {
    client_ip: ClientIp,
    id: u64,
}

impl SpanMaker {
    /// The span that the hook makes.
    pub closed spec fn span(self) -> Span {
        Span::client(self.client_ip, self.id)
    }

    /// The hook for connection `id` from `client_ip`.
    pub fn new(client_ip: ClientIp, id: u64) -> (maker: SpanMaker)
        ensures
            maker.span() == Span::client(client_ip, id),
    {
        SpanMaker { client_ip, id }
    }

    /// The span of the connection: the same for every request on it.
    pub fn make_span(&self) -> (span: Span)
        ensures
            span == self.span(),
    {
        Span::client(self.client_ip, self.id)
    }
}

/// The four hooks of one connection.
#[derive(Debug, Clone, Copy)]
pub struct TraceHooks {
    pub make_span: SpanMaker,
    pub on_request: OnRequestLogger,
    pub on_response: OnResponseLogger,
    pub on_body_chunk: BodyLogger,
}

impl TraceHooks {
    /// The hooks that log what `logger` logs: they have its level, and the
    /// span they make is its span.
    pub fn new(logger: &Logger) -> (hooks: TraceHooks)
        ensures
            hooks.make_span.span() == logger.span(),
            hooks.on_request.level() == logger.level(),
            hooks.on_response.level() == logger.level(),
            hooks.on_body_chunk.level() == logger.level(),
    {
        let span = logger.span_of();
        let log_level = logger.log_level();
        TraceHooks {
            make_span: SpanMaker::new(span.client_ip, span.id),
            on_request: OnRequestLogger::new(log_level),
            on_response: OnResponseLogger::new(log_level),
            on_body_chunk: BodyLogger::new(log_level),
        }
    }
}

} // verus!
