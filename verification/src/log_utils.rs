//! Verbosity levels and the text of the log messages.
//!
//! The functions here make messages; they do not emit them. The text of a
//! status code, of a chunk of bytes and of a duration is the text that the
//! `http`, `bytes` and `std` crates give them.

use crate::message::{RequestHead, ResponseHead, Version};
use crate::record::{info_record, info_records, under_span, LogRecord, Span};
use crate::trusted::{
    chunk_debug, chunk_text, duration_debug, duration_text, header_contents, header_entries,
    is_visible, status_display, status_text, visible_text, HeaderEntry, Headers,
};
use vstd::prelude::*;
use vstd::string::*;

verus! {

/// How much of a request and of its response is logged.
///
/// The levels are ordered: each one logs what the one before it logs, and more.
#[derive(Debug, Clone, Copy, PartialEq, Eq, Structural)]
pub enum HttpLogLevel {
    /// Nothing is logged.
    Off,
    /// The request line and the status line.
    Uri,
    /// As `Uri`, and the headers.
    UriHeaders,
    /// As `UriHeaders`, and each chunk of the body as it streams by.
    UriHeadersBody,
}

impl HttpLogLevel {
    /// The position of the level in the order, from 0 for `Off`.
    pub open spec fn rank(self) -> nat {
        match self {
            HttpLogLevel::Off => 0,
            HttpLogLevel::Uri => 1,
            HttpLogLevel::UriHeaders => 2,
            HttpLogLevel::UriHeadersBody => 3,
        }
    }

    /// The level with the given number, which is at most 3.
    pub fn from(value: u8) -> (level: HttpLogLevel)
        requires
            value <= 3,
        ensures
            level.rank() == value,
    {
        if value == 0 {
            HttpLogLevel::Off
        } else if value == 1 {
            HttpLogLevel::Uri
        } else if value == 2 {
            HttpLogLevel::UriHeaders
        } else {
            HttpLogLevel::UriHeadersBody
        }
    }

    /// The number of the level: its rank.
    pub fn as_u8(self) -> (value: u8)
        ensures
            value == self.rank(),
    {
        match self {
            HttpLogLevel::Off => 0,
            HttpLogLevel::Uri => 1,
            HttpLogLevel::UriHeaders => 2,
            HttpLogLevel::UriHeadersBody => 3,
        }
    }

    /// True if this level logs at least what `other` logs.
    pub fn includes(self, other: HttpLogLevel) -> (yes: bool)
        ensures
            yes == (self.rank() >= other.rank()),
    {
        self.as_u8() >= other.as_u8()
    }
}

/// Whether a message is about what came in or about what goes out.
#[derive(Debug, Clone, Copy, PartialEq, Eq, Structural)]
pub enum Direction {
    Incoming,
    Outgoing,
}

impl Direction {
    /// The mark that starts a message of this direction.
    pub open spec fn label(self) -> Seq<char> {
        match self {
            Direction::Incoming => "IN:"@,
            Direction::Outgoing => "OUT:"@,
        }
    }

    /// The mark that starts a message of this direction.
    pub fn to_string(&self) -> (text: String)
        ensures
            text@ == self.label(),
    {
        match self {
            Direction::Incoming => String::from_str("IN:"),
            Direction::Outgoing => String::from_str("OUT:"),
        }
    }
}

/// A length of time: whole seconds and the nanoseconds beyond them.
#[derive(Debug, Clone, Copy, PartialEq, Eq, Structural)]
pub struct Elapsed {
    secs: u64,
    subsec_nanos: u32,
}

impl Elapsed {
    #[verifier::type_invariant]
    spec fn below_one_second(self) -> bool {
        self.subsec_nanos < 1_000_000_000
    }

    /// The whole seconds.
    pub closed spec fn secs(self) -> u64 {
        self.secs
    }

    /// The nanoseconds beyond the whole seconds.
    pub closed spec fn subsec_nanos(self) -> u32 {
        self.subsec_nanos
    }

    /// The length of time of `secs` seconds and `subsec_nanos` nanoseconds,
    /// if the nanoseconds are less than a second.
    pub fn new(secs: u64, subsec_nanos: u32) -> (elapsed: Option<Elapsed>)
        ensures
            elapsed.is_some() <==> subsec_nanos < 1_000_000_000,
            elapsed matches Some(e) ==> e.secs() == secs && e.subsec_nanos() == subsec_nanos,
    {
        if subsec_nanos < 1_000_000_000 {
            Some(Elapsed { secs, subsec_nanos })
        } else {
            None
        }
    }

    /// The length of time as it is written in a log line.
    pub open spec fn text(self) -> Seq<char> {
        duration_debug(self.secs(), self.subsec_nanos())
    }

    /// The length of time as it is written in a log line.
    pub fn to_string(&self) -> (text: String)
        ensures
            text@ == self.text(),
    {
        proof {
            use_type_invariant(self);
        }
        duration_text(self.secs, self.subsec_nanos)
    }
}

/// The message for the first line of a request.
pub open spec fn request_line(method: Seq<char>, path: Seq<char>, version: Version) -> Seq<char> {
    Direction::Incoming.label() + " "@ + method + " "@ + path + " "@ + version.text()
}

/// The message for the first line of a response.
pub open spec fn status_line(version: Version, code: u16) -> Seq<char> {
    Direction::Outgoing.label() + " "@ + version.text() + " "@ + status_display(code)
}

/// A header value as it is written in a log line.
pub open spec fn header_value_text(value: Seq<u8>) -> Seq<char> {
    if is_visible(value) {
        value.map_values(|b: u8| b as char)
    } else {
        "<binary or malformed>"@
    }
}

/// The message for one header.
pub open spec fn header_line(direction: Direction, entry: HeaderEntry) -> Seq<char> {
    direction.label() + " "@ + entry.0 + ": "@ + header_value_text(entry.1)
}

/// The messages for the given headers: one for each, in order.
pub open spec fn header_lines(direction: Direction, entries: Seq<HeaderEntry>) -> Seq<Seq<char>> {
    Seq::new(entries.len(), |i: int| header_line(direction, entries[i]))
}

/// The message for one chunk of a body.
pub open spec fn chunk_line(chunk: Seq<u8>) -> Seq<char> {
    Direction::Incoming.label() + " "@ + chunk_debug(chunk)
}

/// The message for the time a request took.
pub open spec fn latency_line(latency: Elapsed) -> Seq<char> {
    "Processed in "@ + latency.text()
}

/// The messages that are logged for a request at the given level: nothing,
/// or the request line, or the request line and the headers.
pub open spec fn request_messages(
    level: HttpLogLevel,
    method: Seq<char>,
    path: Seq<char>,
    version: Version,
    headers: Seq<HeaderEntry>,
) -> Seq<Seq<char>> {
    match level {
        HttpLogLevel::Off => seq![],
        HttpLogLevel::Uri => seq![request_line(method, path, version)],
        _ => seq![request_line(method, path, version)] + header_lines(
            Direction::Incoming,
            headers,
        ),
    }
}

/// The messages that are logged for a response at the given level: nothing,
/// or the status line and the time the request took, or those two with the
/// headers between them.
pub open spec fn response_messages(
    level: HttpLogLevel,
    version: Version,
    code: u16,
    headers: Seq<HeaderEntry>,
    latency: Elapsed,
) -> Seq<Seq<char>> {
    match level {
        HttpLogLevel::Off => seq![],
        HttpLogLevel::Uri => seq![status_line(version, code), latency_line(latency)],
        _ => seq![status_line(version, code)] + header_lines(Direction::Outgoing, headers)
            + seq![latency_line(latency)],
    }
}

/// The messages that are logged for a chunk of a body at the given level: one
/// at the highest level, none below it.
pub open spec fn chunk_messages(level: HttpLogLevel, chunk: Seq<u8>) -> Seq<Seq<char>> {
    match level {
        HttpLogLevel::UriHeadersBody => seq![chunk_line(chunk)],
        _ => seq![],
    }
}

/// The message for the first line of a request: the method, the path and the
/// version.
pub fn log_request_uri(request: &RequestHead) -> (message: String)
    ensures
        message@ == request_line(request.method@, request.path@, request.version),
{
    let mut message = Direction::Incoming.to_string();
    message.append(" ");
    message.append(request.method);
    message.append(" ");
    message.append(request.path);
    message.append(" ");
    message.append(request.version.as_str());
    message
}

/// The message for the first line of a response: the version and the status.
pub fn log_response_uri(response: &ResponseHead) -> (message: String)
    ensures
        message@ == status_line(response.version, response.status.value()),
{
    let mut message = Direction::Outgoing.to_string();
    message.append(" ");
    message.append(response.version.as_str());
    message.append(" ");
    let status = status_text(response.status.as_u16());
    message.append(status.as_str());
    message
}

/// The messages for the headers of a request or a response: one for each
/// header, in the order of the map. A value that is not visible ASCII is
/// written as `<binary or malformed>`.
pub fn log_headers(headers: &Headers, direction: Direction) -> (messages: Vec<String>)
    ensures
        messages.deep_view() == header_lines(direction, header_contents(*headers)),
{
    let entries = header_entries(headers);
    let ghost contents = header_contents(*headers);
    let mut messages: Vec<String> = Vec::new();
    let mut i: usize = 0;
    while i < entries.len()
        invariant
            i <= entries.len(),
            entries.deep_view() == contents,
            messages.len() == i,
            forall|k: int| 0 <= k < i ==> (#[trigger] messages[k])@ == header_line(direction, contents[k]),
        decreases entries.len() - i,
    {
        let entry = &entries[i];
        assert(entries.deep_view()[i as int] == (entry.0@, entry.1@));
        let mut message = direction.to_string();
        message.append(" ");
        message.append(entry.0.as_str());
        message.append(": ");
        match visible_text(entry.1.as_slice()) {
            Some(text) => {
                message.append(text.as_str());
            },
            None => {
                message.append("<binary or malformed>");
            },
        }
        messages.push(message);
        i += 1;
    }
    assert(messages.deep_view() =~= header_lines(direction, contents));
    messages
}

/// The record for one chunk of a body, under the given span.
pub fn log_body_frame(frame: &[u8], span: &Span) -> (record: LogRecord)
    ensures
        record@ == info_record(*span, chunk_line(frame@)),
{
    let mut message = Direction::Incoming.to_string();
    message.append(" ");
    let text = chunk_text(frame);
    message.append(text.as_str());
    LogRecord::info(*span, message)
}

/// The message for the time a request took.
pub fn log_latency(latency: Elapsed) -> (message: String)
    ensures
        message@ == latency_line(latency),
{
    let mut message = String::from_str("Processed in ");
    let text = latency.to_string();
    message.append(text.as_str());
    message
}

/// The records of a request at the given level, under the given span.
pub fn request_records(level: HttpLogLevel, span: Span, request: &RequestHead) -> (records: Vec<
    LogRecord,
>)
    ensures
        records.deep_view() == info_records(
            span,
            request_messages(
                level,
                request.method@,
                request.path@,
                request.version,
                header_contents(*request.headers),
            ),
        ),
{
    let mut messages: Vec<String> = Vec::new();
    match level {
        HttpLogLevel::Off => {},
        HttpLogLevel::Uri => {
            messages.push(log_request_uri(request));
        },
        HttpLogLevel::UriHeaders | HttpLogLevel::UriHeadersBody => {
            messages.push(log_request_uri(request));
            let mut headers = log_headers(request.headers, Direction::Incoming);
            let ghost first = messages.deep_view();
            let ghost rest = headers.deep_view();
            messages.append(&mut headers);
            assert(messages.deep_view() =~= first + rest);
        },
    }
    assert(messages.deep_view() =~= request_messages(
        level,
        request.method@,
        request.path@,
        request.version,
        header_contents(*request.headers),
    ));
    under_span(span, messages)
}

/// The records of a response at the given level, under the given span.
pub fn response_records(
    level: HttpLogLevel,
    span: Span,
    response: &ResponseHead,
    latency: Elapsed,
) -> (records: Vec<LogRecord>)
    ensures
        records.deep_view() == info_records(
            span,
            response_messages(
                level,
                response.version,
                response.status.value(),
                header_contents(*response.headers),
                latency,
            ),
        ),
{
    let mut messages: Vec<String> = Vec::new();
    match level {
        HttpLogLevel::Off => {},
        HttpLogLevel::Uri => {
            messages.push(log_response_uri(response));
            messages.push(log_latency(latency));
        },
        HttpLogLevel::UriHeaders | HttpLogLevel::UriHeadersBody => {
            messages.push(log_response_uri(response));
            let mut headers = log_headers(response.headers, Direction::Outgoing);
            let ghost first = messages.deep_view();
            let ghost rest = headers.deep_view();
            messages.append(&mut headers);
            assert(messages.deep_view() =~= first + rest);
            messages.push(log_latency(latency));
        },
    }
    assert(messages.deep_view() =~= response_messages(
        level,
        response.version,
        response.status.value(),
        header_contents(*response.headers),
        latency,
    ));
    under_span(span, messages)
}

/// The records of a chunk of a body at the given level, under the given
/// span: one at the highest level, none below it.
pub fn chunk_records(level: HttpLogLevel, span: &Span, chunk: &[u8]) -> (record: Option<LogRecord>)
    ensures
        match record {
            Some(r) => seq![r@],
            None => seq![],
        } == info_records(*span, chunk_messages(level, chunk@)),
{
    match level {
        HttpLogLevel::UriHeadersBody => {
            let r = log_body_frame(chunk, span);
            assert(seq![r@] =~= info_records(*span, chunk_messages(level, chunk@)));
            Some(r)
        },
        _ => {
            assert(Seq::<crate::record::RecordView>::empty() =~= info_records(
                *span,
                chunk_messages(level, chunk@),
            ));
            None
        },
    }
}

} // verus!
