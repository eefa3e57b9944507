//! Log records and the connection they belong to.
//!
//! Nothing here writes a log. A function that has something to report returns
//! records, and the driver hands them to its log sink. Each record names the
//! span it was made under, so a record can always be attributed to one
//! connection.

use vstd::prelude::*;

verus! {

/// The address of a client, as a number.
#[derive(Debug, Clone, Copy, PartialEq, Eq, Structural)]
pub enum ClientIp {
    /// An IPv4 address, most significant octet first.
    V4(u32),
    /// An IPv6 address, most significant segment first.
    V6(u128),
}

/// Which part of the service a span belongs to.
#[derive(Debug, Clone, Copy, PartialEq, Eq, Structural)]
pub enum SpanName {
    /// The HTTP side of a connection.
    Client,
    /// The WebSocket session of a connection.
    WsClient,
}

/// The context under which a connection's records are made: who the client
/// is and which connection of the server this is.
#[derive(Debug, Clone, Copy, PartialEq, Eq, Structural)]
pub struct Span {
    pub name: SpanName,
    pub client_ip: ClientIp,
    pub id: u64,
}

impl Span {
    /// The span of the HTTP side of connection `id` from `client_ip`.
    pub open spec fn client_spec(client_ip: ClientIp, id: u64) -> Span {
        Span { name: SpanName::Client, client_ip, id }
    }

    /// The span of the WebSocket session of connection `id` from `client_ip`.
    pub open spec fn ws_client_spec(client_ip: ClientIp, id: u64) -> Span {
        Span { name: SpanName::WsClient, client_ip, id }
    }

    /// The span of the HTTP side of connection `id` from `client_ip`.
    #[verifier::when_used_as_spec(client_spec)]
    pub fn client(client_ip: ClientIp, id: u64) -> (span: Span)
        ensures
            span == Span::client_spec(client_ip, id),
    {
        Span { name: SpanName::Client, client_ip, id }
    }

    /// The span of the WebSocket session of connection `id` from `client_ip`.
    #[verifier::when_used_as_spec(ws_client_spec)]
    pub fn ws_client(client_ip: ClientIp, id: u64) -> (span: Span)
        ensures
            span == Span::ws_client_spec(client_ip, id),
    {
        Span { name: SpanName::WsClient, client_ip, id }
    }
}

/// How serious a record is.
#[derive(Debug, Clone, Copy, PartialEq, Eq, Structural)]
pub enum Severity {
    Info,
    Warn,
    Error,
}

/// One complete log record.
#[derive(Debug, PartialEq, Eq)]
pub struct LogRecord {
    pub span: Span,
    pub severity: Severity,
    pub message: String,
}

/// What a `LogRecord` holds, with the message as a sequence of characters.
pub ghost struct RecordView {
    pub span: Span,
    pub severity: Severity,
    pub message: Seq<char>,
}

impl View for LogRecord {
    type V = RecordView;

    open spec fn view(&self) -> RecordView {
        RecordView { span: self.span, severity: self.severity, message: self.message@ }
    }
}

impl DeepView for LogRecord {
    type V = RecordView;

    open spec fn deep_view(&self) -> RecordView {
        self@
    }
}

/// The informational record with the given message under `span`.
pub open spec fn info_record(span: Span, message: Seq<char>) -> RecordView {
    RecordView { span, severity: Severity::Info, message }
}

/// One informational record under `span` for each of `messages`, in order.
pub open spec fn info_records(span: Span, messages: Seq<Seq<char>>) -> Seq<RecordView> {
    Seq::new(messages.len(), |i: int| info_record(span, messages[i]))
}

impl Clone for LogRecord {
    fn clone(&self) -> (copy: LogRecord)
        ensures
            copy@ == self@,
    {
        LogRecord { span: self.span, severity: self.severity, message: self.message.clone() }
    }
}

impl LogRecord {
    /// An informational record.
    pub fn info(span: Span, message: String) -> (record: LogRecord)
        ensures
            record@ == info_record(span, message@),
    {
        LogRecord { span, severity: Severity::Info, message }
    }

    /// A record of the given severity.
    pub fn new(span: Span, severity: Severity, message: String) -> (record: LogRecord)
        ensures
            record@ == (RecordView { span, severity, message: message@ }),
    {
        LogRecord { span, severity, message }
    }
}

/// Turns messages into informational records under `span`, keeping their order.
pub fn under_span(span: Span, messages: Vec<String>) -> (records: Vec<LogRecord>)
    ensures
        records.deep_view() == info_records(span, messages.deep_view()),
{
    let mut records: Vec<LogRecord> = Vec::new();
    let mut messages = messages;
    let ghost all = messages.deep_view();
    let mut i: usize = 0;
    let n = messages.len();
    while i < n
        invariant
            n == messages.len(),
            i <= n,
            records.len() == i,
            forall|k: int| i <= k < n ==> (#[trigger] messages[k])@ == all[k],
            all.len() == n,
            forall|k: int| 0 <= k < i ==> (#[trigger] records[k])@ == info_record(span, all[k]),
        decreases n - i,
    {
        let mut taken = String::new();
        std::mem::swap(&mut taken, &mut messages[i]);
        records.push(LogRecord::info(span, taken));
        i += 1;
    }
    assert(records.deep_view() =~= info_records(span, all));
    records
}

} // verus!
