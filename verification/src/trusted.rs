//! What this crate takes from other crates without proof.
//!
//! Every item here is either a type of another crate that the engine carries
//! around unopened, a name for what a function of another crate returns, or a
//! thin function around one call into another crate. The contracts of those
//! functions are believed, not proved: they state what the other crate's
//! source or documentation says.

use vstd::prelude::*;
use vstd::utf8::*;

verus! {

/// The header map of the `http` crate.
#[verifier::external_type_specification]
#[verifier::external_body]
#[verifier::reject_recursive_types(T)]
pub struct ExHeaderMap<T>(hyper::HeaderMap<T>);

/// The header value of the `http` crate.
#[verifier::external_type_specification]
#[verifier::external_body]
pub struct ExHeaderValue(hyper::header::HeaderValue);

/// The extension map of the `http` crate.
#[verifier::external_type_specification]
#[verifier::external_body]
pub struct ExExtensions(hyper::http::Extensions);

/// A moment on the clock of `std`.
#[verifier::external_type_specification]
#[verifier::external_body]
pub struct ExInstant(std::time::Instant);

/// The headers of a request or a response.
pub type Headers = hyper::HeaderMap<hyper::header::HeaderValue>;

/// One header: its name in lower case, and the bytes of its value.
pub type HeaderEntry = (Seq<char>, Seq<u8>);

/// The entries of a header map, in the order in which its `iter` yields them.
pub uninterp spec fn header_contents(headers: Headers) -> Seq<HeaderEntry>;

/// What `fastwebsockets::upgrade::is_upgrade_request` answers for a request
/// with the given headers.
pub uninterp spec fn upgrade_requested(entries: Seq<HeaderEntry>) -> bool;

/// The bytes of `Upgrade`.
pub open spec fn upgrade_token() -> Seq<u8> {
    seq![0x55u8, 0x70u8, 0x67u8, 0x72u8, 0x61u8, 0x64u8, 0x65u8]
}

/// The bytes of `websocket`.
pub open spec fn websocket_token() -> Seq<u8> {
    seq![0x77u8, 0x65u8, 0x62u8, 0x73u8, 0x6fu8, 0x63u8, 0x6bu8, 0x65u8, 0x74u8]
}

/// True if one of the entries has the given name.
pub open spec fn has_header(entries: Seq<HeaderEntry>, name: Seq<char>) -> bool {
    exists|i: int| 0 <= i < entries.len() && (#[trigger] entries[i]).0 == name
}

/// The value of the first of the entries that has the given name, which is
/// what `HeaderMap::get` gives for that name.
pub open spec fn first_value(entries: Seq<HeaderEntry>, name: Seq<char>) -> Option<Seq<u8>>
    decreases entries.len(),
{
    if entries.len() == 0 {
        None
    } else if entries[0].0 == name {
        Some(entries[0].1)
    } else {
        first_value(entries.drop_first(), name)
    }
}

/// The headers of the handshake response that
/// `fastwebsockets::upgrade::upgrade` makes for a request with the given
/// headers.
pub uninterp spec fn handshake_headers(entries: Seq<HeaderEntry>) -> Seq<HeaderEntry>;

/// What `fastwebsockets::upgrade::upgrade` answers for a request with the
/// given headers: an error if the request has no `sec-websocket-key` header,
/// another if its `sec-websocket-version` header is not `13`, and else the
/// headers of the handshake response.
pub open spec fn handshake_outcome(entries: Seq<HeaderEntry>) -> Result<
    Seq<HeaderEntry>,
    Seq<char>,
> {
    if first_value(entries, "sec-websocket-key"@) is None {
        Err("Sec-WebSocket-Key header is missing"@)
    } else if first_value(entries, "sec-websocket-version"@) != Some(seq![0x31u8, 0x33u8]) {
        Err("Sec-Websocket-Version must be 13"@)
    } else {
        Ok(handshake_headers(entries))
    }
}

/// The text that `Display` of `http::StatusCode` gives for a status code.
pub uninterp spec fn status_display(code: u16) -> Seq<char>;

/// The text that `Debug` of `bytes::Bytes` gives for a chunk of bytes.
pub uninterp spec fn chunk_debug(bytes: Seq<u8>) -> Seq<char>;

/// The text that `Debug` of `std::time::Duration` gives, with one digit after
/// the decimal point, for a duration of `secs` seconds and `nanos` nanoseconds.
pub uninterp spec fn duration_debug(secs: u64, nanos: u32) -> Seq<char>;

/// The text that `String::from_utf8_lossy` makes of bytes.
pub uninterp spec fn lossy_text(bytes: Seq<u8>) -> Seq<char>;

/// True of a byte that `http::HeaderValue::to_str` accepts: a visible ASCII
/// character, a space or a tab.
pub open spec fn is_visible_ascii(b: u8) -> bool {
    32 <= b < 127 || b == 9
}

/// True of a header value that `http::HeaderValue::to_str` accepts: every
/// byte of it is a visible ASCII character, a space or a tab.
pub open spec fn is_visible(value: Seq<u8>) -> bool {
    forall|i: int| 0 <= i < value.len() ==> is_visible_ascii(#[trigger] value[i])
}

/// `HeaderMap::new`: a header map without entries.
#[verifier::external_body]
pub(crate) fn empty_headers() -> (headers: Headers)
    ensures
        header_contents(headers) == Seq::<HeaderEntry>::empty(),
{
    hyper::HeaderMap::new()
}

/// `Extensions::new`: an extension map. Nothing is claimed of it.
#[verifier::external_body]
pub(crate) fn empty_extensions() -> hyper::http::Extensions {
    hyper::http::Extensions::new()
}

/// `HeaderMap::iter`: every entry of the map, in the map's order, with the
/// name as text and the value as bytes.
#[verifier::external_body]
pub(crate) fn header_entries(headers: &Headers) -> (entries: Vec<(String, Vec<u8>)>)
    ensures
        entries.deep_view() == header_contents(*headers),
{
    headers
        .iter()
        .map(|(name, value)| (name.as_str().to_owned(), value.as_bytes().to_vec()))
        .collect()
}

/// `HeaderValue::to_str` on a header value with the given bytes: the bytes as
/// text when every one of them is a visible ASCII character, a space or a tab,
/// and nothing otherwise.
#[verifier::external_body]
pub(crate) fn visible_text(value: &[u8]) -> (text: Option<String>)
    ensures
        text.is_some() <==> is_visible(value@),
        text matches Some(s) ==> s@ == value@.map_values(|b: u8| b as char),
{
    let value = hyper::header::HeaderValue::from_bytes(value).ok()?;
    value.to_str().ok().map(str::to_owned)
}

/// `fastwebsockets::upgrade::is_upgrade_request` on a request with the given
/// headers. It looks for `Upgrade` among the values of the `connection`
/// headers and for `websocket` among the values of the `upgrade` headers. So
/// a request that lacks either header is no upgrade request, and a request
/// whose first `connection` header is `Upgrade` and whose first `upgrade`
/// header is `websocket` is one.
#[verifier::external_body]
pub(crate) fn is_upgrade_request(headers: &Headers) -> (yes: bool)
    ensures
        yes == upgrade_requested(header_contents(*headers)),
        yes ==> has_header(header_contents(*headers), "connection"@) && has_header(
            header_contents(*headers),
            "upgrade"@,
        ),
        first_value(header_contents(*headers), "connection"@) == Some(upgrade_token())
            && first_value(header_contents(*headers), "upgrade"@) == Some(websocket_token())
            ==> yes,
{
    let mut request = hyper::Request::new(());
    *request.headers_mut() = headers.clone();
    fastwebsockets::upgrade::is_upgrade_request(&request)
}

/// `fastwebsockets::upgrade::upgrade` on a request with the given headers:
/// the status code and the headers of the handshake response, or the text of
/// the error. The status of the handshake response is 101. The function
/// fails with `MissingSecWebSocketKey` where the request has no
/// `Sec-WebSocket-Key` header, and with `InvalidSecWebsocketVersion` where
/// the value of its `Sec-WebSocket-Version` header is not `13`; it fails in
/// no other way.
#[verifier::external_body]
pub(crate) fn upgrade(headers: &Headers) -> (outcome: Result<(u16, Headers), String>)
    ensures
        outcome matches Ok(reply) ==> reply.0 == 101 && header_contents(reply.1)
            == handshake_headers(header_contents(*headers)),
        handshake_outcome(header_contents(*headers)) == match outcome {
            Ok(reply) => Ok(header_contents(reply.1)),
            Err(text) => Err(text@),
        },
{
    let mut request = hyper::Request::new(());
    *request.headers_mut() = headers.clone();
    match fastwebsockets::upgrade::upgrade(&mut request) {
        Ok((response, _)) => Ok((response.status().as_u16(), response.headers().clone())),
        Err(error) => Err(error.to_string()),
    }
}

/// `Display` of `http::StatusCode` for a code from 100 to 999.
#[verifier::external_body]
pub(crate) fn status_text(code: u16) -> (text: String)
    requires
        100 <= code <= 999,
    ensures
        text@ == status_display(code),
{
    hyper::StatusCode::from_u16(code).map(|status| status.to_string()).unwrap_or_default()
}

/// `Debug` of `bytes::Bytes` for a chunk of bytes.
#[verifier::external_body]
pub(crate) fn chunk_text(chunk: &[u8]) -> (text: String)
    ensures
        text@ == chunk_debug(chunk@),
{
    format!("{:?}", hyper::body::Bytes::copy_from_slice(chunk))
}

/// `Debug` of `std::time::Duration`, with one digit after the decimal point.
#[verifier::external_body]
pub(crate) fn duration_text(secs: u64, nanos: u32) -> (text: String)
    requires
        nanos < 1_000_000_000,
    ensures
        text@ == duration_debug(secs, nanos),
{
    format!("{:.1?}", std::time::Duration::new(secs, nanos))
}

/// `String::from_utf8_lossy`: the text that the bytes encode, with each
/// malformed part replaced. Bytes that are valid UTF-8 come back as the text
/// they encode.
#[verifier::external_body]
pub(crate) fn utf8_lossy(bytes: &[u8]) -> (text: String)
    ensures
        text@ == lossy_text(bytes@),
        valid_utf8(bytes@) ==> text@ == decode_utf8(bytes@),
{
    String::from_utf8_lossy(bytes).into_owned()
}

} // verus!
