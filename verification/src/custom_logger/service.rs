//! The layer that puts a logger around a service.

use crate::custom_logger::body::LoggingBody;
use crate::custom_logger::future::LoggingFuture;
use crate::custom_logger::logger_impl::Logger;
use crate::log_utils::{request_messages, HttpLogLevel};
use crate::message::Request;
use crate::record::{info_records, ClientIp, LogRecord, Span};
use crate::trusted::header_contents;
use std::time::Instant;
use vstd::prelude::*;

verus! {

/// The logger of a connection, ready to be put around a service.
#[derive(Debug, Clone, Copy)]
pub struct LoggerLayer {
    logger: Logger,
}

impl LoggerLayer {
    /// The logger that the layer puts around a service.
    pub closed spec fn logger(self) -> Logger {
        self.logger
    }

    /// The layer for connection `id` from `client_addr`.
    pub fn new(log_level: HttpLogLevel, client_addr: ClientIp, id: u64) -> (layer: LoggerLayer)
        ensures
            layer.logger().level() == log_level,
            layer.logger().span() == Span::client(client_addr, id),
    {
        LoggerLayer { logger: Logger::new(log_level, client_addr, id) }
    }

    /// Puts the layer's logger around `inner`.
    pub fn layer<S>(&self, inner: S) -> (service: LoggerService<S>)
        ensures
            service.inner() == inner,
            service.logger() == self.logger(),
    {
        LoggerService::new(self.logger, inner)
    }
}

/// A service of type `S` with the logger of its connection around it.
#[derive(Debug, Clone, Copy)]
pub struct LoggerService<S> {
    inner: S,
    logger: Logger,
}

impl<S> LoggerService<S> {
    /// The service inside.
    pub closed spec fn inner(self) -> S {
        self.inner
    }

    /// The logger of the connection.
    pub closed spec fn logger(self) -> Logger {
        self.logger
    }

    /// Puts `logger` around `inner`.
    pub fn new(logger: Logger, inner: S) -> (service: LoggerService<S>)
        ensures
            service.inner() == inner,
            service.logger() == logger,
    {
        LoggerService { inner, logger }
    }

    /// The logger of the connection.
    pub fn logger_of(&self) -> (logger: Logger)
        ensures
            logger == self.logger(),
    {
        self.logger
    }

    /// The service inside, to call it.
    pub fn inner_mut(&mut self) -> (inner: &mut S)
        ensures
            *inner == old(self).inner(),
            final(self).inner() == *final(inner),
            final(self).logger() == old(self).logger(),
    {
        &mut self.inner
    }

    /// What the layer does with a request before the service inside sees
    /// it: the request's body is put inside a logging body, and the request
    /// is logged. The request goes on to the service inside with nothing
    /// else changed.
    pub fn call<B>(&self, req: Request<B>) -> (prepared: (Request<LoggingBody<B>>, Vec<LogRecord>))
        ensures
            prepared.0.method == req.method,
            prepared.0.path == req.path,
            prepared.0.version == req.version,
            prepared.0.headers == req.headers,
            prepared.0.extensions == req.extensions,
            prepared.0.body.inner() == req.body,
            prepared.0.body.span() == self.logger().span(),
            prepared.0.body.level() == self.logger().level(),
            prepared.1.deep_view() == info_records(
                self.logger().span(),
                request_messages(
                    self.logger().level(),
                    req.method@,
                    req.path@,
                    req.version,
                    header_contents(req.headers),
                ),
            ),
    {
        let req = self.logger.wrap_request(req);
        let records = self.logger.log_request(&req.head());
        (req, records)
    }

    /// The future that logs the response of a call: the future that the
    /// service inside gave for it, with the logger and the moment the
    /// request came in.
    pub fn respond<F>(&self, future: F, start_time: Instant) -> (logging: LoggingFuture<F>)
        ensures
            logging.inner() == future,
            logging.logger() == self.logger(),
            logging.started() == start_time,
    {
        LoggingFuture::new(future, self.logger, start_time)
    }
}

} // verus!
