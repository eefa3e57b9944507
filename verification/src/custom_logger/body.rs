//! A body that logs the chunks that pass through it.

use crate::log_utils::{chunk_messages, chunk_records, HttpLogLevel};
use crate::record::{info_records, LogRecord, Span};
use vstd::prelude::*;

verus! {

/// What came of polling a body for its next frame.
#[derive(Debug, Clone, Copy)]
pub enum FramePoll<'a> {
    /// No frame is ready yet.
    Pending,
    /// A frame of data, with these bytes.
    Data(&'a [u8]),
    /// A frame of trailers.
    Trailers,
    /// The body failed.
    Failed,
    /// The body has ended.
    End,
}

/// A body of type `B` together with what is needed to log its chunks. The
/// driver polls the inner body and shows each outcome to `poll_frame`; the
/// frames reach their consumer as the inner body gave them.
#[derive(Debug)]
pub struct LoggingBody<B> {
    inner: B,
    span: Span,
    log_level: HttpLogLevel,
}

impl<B> LoggingBody<B> {
    /// The body inside.
    pub closed spec fn inner(self) -> B {
        self.inner
    }

    /// The span under which chunks are logged.
    pub closed spec fn span(self) -> Span {
        self.span
    }

    /// The level that decides whether chunks are logged.
    pub closed spec fn level(self) -> HttpLogLevel {
        self.log_level
    }

    /// Puts `inner` inside a body that logs under `span` as `log_level`
    /// asks.
    pub fn new(inner: B, span: Span, log_level: HttpLogLevel) -> (body: LoggingBody<B>)
        ensures
            body.inner() == inner,
            body.span() == span,
            body.level() == log_level,
    {
        LoggingBody { inner, span, log_level }
    }

    /// The body inside, to poll it.
    pub fn inner_mut(&mut self) -> (inner: &mut B)
        ensures
            *inner == old(self).inner(),
            final(self).inner() == *final(inner),
            final(self).span() == old(self).span(),
            final(self).level() == old(self).level(),
    {
        &mut self.inner
    }

    /// Gives the body inside back.
    pub fn into_inner(self) -> (inner: B)
        ensures
            inner == self.inner(),
    {
        self.inner
    }

    /// The record of what came of polling the body inside: one for a frame
    /// of data if the level asks for bodies, none for anything else.
    pub fn poll_frame(&self, polled: &FramePoll) -> (record: Option<LogRecord>)
        ensures
            match record {
                Some(r) => seq![r@],
                None => seq![],
            } == match *polled {
                FramePoll::Data(chunk) => info_records(
                    self.span(),
                    chunk_messages(self.level(), chunk@),
                ),
                _ => seq![],
            },
    {
        match polled {
            FramePoll::Data(chunk) => chunk_records(self.log_level, &self.span, chunk),
            _ => None,
        }
    }
}

} // verus!
