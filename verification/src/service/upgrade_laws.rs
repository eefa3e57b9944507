//! What holds of the answer to every request for an upgrade.

use crate::message::Request;
use crate::service::ws::{answers_upgrade, is_handshake, is_rejection, SessionData};
use crate::service::{asks_for_websocket, names_upgrade, Reply};
use crate::trusted::{
    first_value, handshake_headers, handshake_outcome, has_header, header_contents, HeaderEntry,
};
use vstd::prelude::*;

verus! {

/// A header has a first value exactly if there is a header of its name.
pub proof fn first_value_is_of_a_header(entries: Seq<HeaderEntry>, name: Seq<char>)
    ensures
        first_value(entries, name).is_some() <==> has_header(entries, name),
    decreases entries.len(),
{
    if entries.len() > 0 {
        let rest = entries.drop_first();
        first_value_is_of_a_header(rest, name);
        if entries[0].0 != name {
            if has_header(rest, name) {
                let i = choose|i: int| 0 <= i < rest.len() && (#[trigger] rest[i]).0 == name;
                assert(entries[i + 1] == rest[i]);
            }
            if has_header(entries, name) {
                let i = choose|i: int| 0 <= i < entries.len() && (#[trigger] entries[i]).0 == name;
                assert(rest[i - 1] == entries[i]);
            }
        }
    }
}

/// Headers whose first `connection` header is `Upgrade` and whose first
/// `upgrade` header is `websocket` hold both headers.
pub proof fn websocket_request_names_upgrade(entries: Seq<HeaderEntry>)
    requires
        asks_for_websocket(entries),
    ensures
        names_upgrade(entries),
{
    first_value_is_of_a_header(entries, "connection"@);
    first_value_is_of_a_header(entries, "upgrade"@);
}

/// A request for an upgrade that has no `sec-websocket-key` header is
/// answered with a bad request that says so, and no session begins.
pub proof fn upgrade_without_key_is_rejected<B>(
    reply: Reply<B>,
    request: Request<B>,
    session_data: SessionData,
)
    requires
        answers_upgrade(
            reply,
            handshake_outcome(header_contents(request.headers)),
            request,
            session_data,
        ),
        !has_header(header_contents(request.headers), "sec-websocket-key"@),
    ensures
        is_rejection(reply, "Sec-WebSocket-Key header is missing"@),
{
    first_value_is_of_a_header(header_contents(request.headers), "sec-websocket-key"@);
}

/// A request for an upgrade that has a key but whose `sec-websocket-version`
/// header is missing or is not `13` is answered with a bad request that says
/// so, and no session begins.
pub proof fn upgrade_of_another_version_is_rejected<B>(
    reply: Reply<B>,
    request: Request<B>,
    session_data: SessionData,
)
    requires
        answers_upgrade(
            reply,
            handshake_outcome(header_contents(request.headers)),
            request,
            session_data,
        ),
        has_header(header_contents(request.headers), "sec-websocket-key"@),
        first_value(header_contents(request.headers), "sec-websocket-version"@) != Some(
            seq![0x31u8, 0x33u8],
        ),
    ensures
        is_rejection(reply, "Sec-Websocket-Version must be 13"@),
{
    first_value_is_of_a_header(header_contents(request.headers), "sec-websocket-key"@);
}

/// A request for an upgrade that has a key and whose first
/// `sec-websocket-version` header is `13` is answered with the handshake,
/// and its session begins.
pub proof fn upgrade_of_version_13_is_accepted<B>(
    reply: Reply<B>,
    request: Request<B>,
    session_data: SessionData,
)
    requires
        answers_upgrade(
            reply,
            handshake_outcome(header_contents(request.headers)),
            request,
            session_data,
        ),
        has_header(header_contents(request.headers), "sec-websocket-key"@),
        first_value(header_contents(request.headers), "sec-websocket-version"@) == Some(
            seq![0x31u8, 0x33u8],
        ),
    ensures
        is_handshake(
            reply,
            handshake_headers(header_contents(request.headers)),
            request,
            session_data,
        ),
{
    first_value_is_of_a_header(header_contents(request.headers), "sec-websocket-key"@);
}

} // verus!
