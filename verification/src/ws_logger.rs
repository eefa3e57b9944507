//! The logger of a WebSocket session.

use crate::log_utils::Elapsed;
use crate::record::{info_record, ClientIp, LogRecord, RecordView, Span};
use vstd::prelude::*;
use vstd::string::*;

verus! {

/// Makes the records of one WebSocket session, or none at all when logging
/// is switched off.
#[derive(Debug, Clone, Copy)]
pub struct WsLogger {
    span: Option<Span>,
}

/// The message of a session's record about `s`.
pub open spec fn ws_message(s: Seq<char>) -> Seq<char> {
    "WS: "@ + s
}

/// What is reported when a message was echoed after `elapsed`.
pub open spec fn echoed_in(elapsed: Elapsed) -> Seq<char> {
    "message echoed in "@ + elapsed.text()
}

impl WsLogger {
    /// The span under which the logger makes its records; `None` if it makes
    /// none.
    pub closed spec fn span(self) -> Option<Span> {
        self.span
    }

    /// The record that the logger makes about `s`, if it makes any.
    pub open spec fn record(self, s: Seq<char>) -> Option<RecordView> {
        match self.span() {
            Some(span) => Some(info_record(span, ws_message(s))),
            None => None,
        }
    }

    /// The records that the logger makes about `s`: one, or none.
    pub open spec fn records(self, s: Seq<char>) -> Seq<RecordView> {
        match self.record(s) {
            Some(record) => seq![record],
            None => seq![],
        }
    }

    /// A logger for the session of connection `id` from `client_ip`.
    pub fn new(ws_logging_enabled: bool, client_ip: ClientIp, id: u64) -> (logger: WsLogger)
        ensures
            logger.span() == if ws_logging_enabled {
                Some(Span::ws_client_spec(client_ip, id))
            } else {
                None
            },
    {
        if !ws_logging_enabled {
            WsLogger { span: None }
        } else {
            WsLogger { span: Some(Span::ws_client(client_ip, id)) }
        }
    }

    /// True if the logger makes records.
    pub fn is_enabled(&self) -> (enabled: bool)
        ensures
            enabled == self.span().is_some(),
    {
        self.span.is_some()
    }

    /// The record about `s`: `WS: ` and then `s`, under the session's span.
    pub fn log(&self, s: &str) -> (record: Option<LogRecord>)
        ensures
            record.deep_view() == self.record(s@),
    {
        match self.span {
            None => None,
            Some(span) => {
                let mut message = String::from_str("WS: ");
                message.append(s);
                Some(LogRecord::info(span, message))
            },
        }
    }

    /// The record of a session that begins.
    pub fn log_connection_established(&self) -> (record: Option<LogRecord>)
        ensures
            record.deep_view() == self.record("connection established"@),
    {
        self.log("connection established")
    }

    /// The record of a session that has ended.
    pub fn log_connection_closed(&self) -> (record: Option<LogRecord>)
        ensures
            record.deep_view() == self.record("connection closed"@),
    {
        self.log("connection closed")
    }

    /// The record of a message that was echoed after `elapsed`.
    pub fn log_duration(&self, elapsed: Elapsed) -> (record: Option<LogRecord>)
        ensures
            record.deep_view() == self.record(echoed_in(elapsed)),
    {
        let mut s = String::from_str("message echoed in ");
        let text = elapsed.to_string();
        s.append(text.as_str());
        self.log(s.as_str())
    }
}

} // verus!
