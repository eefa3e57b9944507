//! A future that logs the response it resolves to.

use crate::custom_logger::logger_impl::Logger;
use crate::log_utils::{response_messages, Elapsed};
use crate::message::ResponseHead;
use crate::record::{info_records, LogRecord, RecordView, Severity};
use crate::trusted::header_contents;
use std::time::Instant;
use vstd::prelude::*;
use vstd::string::*;

verus! {

/// What came of polling the future of a request.
pub enum Completion<'a> {
    /// The response is not ready yet.
    Pending,
    /// The service answered with a response that has this head.
    Ready(ResponseHead<'a>),
    /// The service failed; this is the error, written for debugging.
    Failed(&'a str),
}

/// What is reported when the service failed.
pub open spec fn failure_message(error: Seq<char>) -> Seq<char> {
    "Error processing request: "@ + error
}

/// A future of type `F` together with the logger of its connection and the
/// moment its request came in. The driver polls the inner future and shows
/// each outcome to `poll`; the outcome reaches the caller as the inner future
/// gave it.
#[derive(Debug)]
pub struct LoggingFuture<F> {
    inner: F,
    logger: Logger,
    start_time: Instant,
}

impl<F> LoggingFuture<F> {
    /// The future inside.
    pub closed spec fn inner(self) -> F {
        self.inner
    }

    /// The logger of the connection.
    pub closed spec fn logger(self) -> Logger {
        self.logger
    }

    /// The moment the request came in.
    pub closed spec fn started(self) -> Instant {
        self.start_time
    }

    /// Puts `inner` inside a future that logs with `logger` the response to
    /// the request that came in at `start_time`.
    pub fn new(inner: F, logger: Logger, start_time: Instant) -> (future: LoggingFuture<F>)
        ensures
            future.inner() == inner,
            future.logger() == logger,
            future.started() == start_time,
    {
        LoggingFuture { inner, logger, start_time }
    }

    /// The future inside, to poll it.
    pub fn inner_mut(&mut self) -> (inner: &mut F)
        ensures
            *inner == old(self).inner(),
            final(self).inner() == *final(inner),
            final(self).logger() == old(self).logger(),
            final(self).started() == old(self).started(),
    {
        &mut self.inner
    }

    /// The moment the request came in.
    pub fn start_time(&self) -> (start_time: Instant)
        ensures
            start_time == self.started(),
    {
        self.start_time
    }

    /// The records of what came of polling the future inside, `elapsed`
    /// after the request came in: none while it is pending, the records of
    /// the response once it is ready, and one record of an error if the
    /// service failed.
    pub fn poll(&self, polled: &Completion, elapsed: Elapsed) -> (records: Vec<LogRecord>)
        ensures
            records.deep_view() == match *polled {
                Completion::Pending => seq![],
                Completion::Ready(response) => info_records(
                    self.logger().span(),
                    response_messages(
                        self.logger().level(),
                        response.version,
                        response.status.value(),
                        header_contents(*response.headers),
                        elapsed,
                    ),
                ),
                Completion::Failed(error) => seq![
                    RecordView {
                        span: self.logger().span(),
                        severity: Severity::Error,
                        message: failure_message(error@),
                    },
                ],
            },
    {
        match polled {
            Completion::Pending => {
                let records: Vec<LogRecord> = Vec::new();
                assert(records.deep_view() =~= Seq::<RecordView>::empty());
                records
            },
            Completion::Ready(response) => self.logger.log_response(response, elapsed),
            Completion::Failed(error) => {
                let mut message = String::from_str("Error processing request: ");
                message.append(error);
                let record = LogRecord::new(self.logger.span_of(), Severity::Error, message);
                let mut records: Vec<LogRecord> = Vec::new();
                records.push(record);
                assert(records.deep_view() =~= seq![record@]);
                records
            },
        }
    }
}

} // verus!
