//! What the service does with a request, and with a session once a request
//! has become one.

pub mod http;
pub mod session_laws;
pub mod upgrade_laws;
pub mod ws;

use crate::custom_logger::{LoggerLayer, LoggerService};
use crate::log_utils::HttpLogLevel;
use crate::message::{Request, Response};
use crate::record::{ClientIp, Span};
use crate::service::http::{is_echo, ReplyBody};
use crate::service::ws::{answers_upgrade, SessionData, SessionPlan};
use crate::trusted::{
    first_value, handshake_outcome, has_header, header_contents, is_upgrade_request,
    upgrade_requested, upgrade_token, websocket_token, HeaderEntry,
};
use crate::ws_logger::WsLogger;
use std::convert::Infallible;
use std::time::Duration;
use vstd::prelude::*;

verus! {

/// A request that is answered with a handshake: once the response is sent,
/// the driver takes the connection over from the request and runs a session
/// on it as the plan says.
#[derive(Debug)]
pub struct Upgrade<B> {
    pub plan: SessionPlan,
    pub request: Request<B>,
}

/// The answer of the service to a request: the response to send, and the
/// upgrade to perform, if the request has become a session.
#[derive(Debug)]
pub struct Reply<B> {
    pub response: Response<ReplyBody<B>>,
    pub session: Option<Upgrade<B>>,
}

/// True of the answer to a plain request: its echo, and no session.
pub open spec fn is_plain_reply<B>(reply: Reply<B>, request: Request<B>) -> bool {
    is_echo(reply.response, request) && reply.session.is_none()
}

/// True of the answer that the service owes to `request`, where `upgrade`
/// says whether the request asks for an upgrade to WebSocket.
pub open spec fn is_reply<B>(
    reply: Reply<B>,
    upgrade: bool,
    request: Request<B>,
    session_data: SessionData,
) -> bool {
    if upgrade {
        answers_upgrade(
            reply,
            handshake_outcome(header_contents(request.headers)),
            request,
            session_data,
        )
    } else {
        is_plain_reply(reply, request)
    }
}

/// True of headers that hold both a `connection` header and an `upgrade`
/// header. Headers that lack either ask for no upgrade, whatever else they
/// hold.
pub open spec fn names_upgrade(headers: Seq<HeaderEntry>) -> bool {
    has_header(headers, "connection"@) && has_header(headers, "upgrade"@)
}

/// True of headers whose first `connection` header is `Upgrade` and whose
/// first `upgrade` header is `websocket`. Such headers ask for an upgrade,
/// whatever else they hold.
pub open spec fn asks_for_websocket(headers: Seq<HeaderEntry>) -> bool {
    first_value(headers, "connection"@) == Some(upgrade_token()) && first_value(
        headers,
        "upgrade"@,
    ) == Some(websocket_token())
}

/// The logging layer of connection `id` from `client_ip`, around an echo
/// service for that connection.
pub fn make_service(
    log_level: HttpLogLevel,
    ws_logging_enabled: bool,
    ws_ping_interval: Option<Duration>,
    client_ip: ClientIp,
    id: u64,
) -> (service: LoggerService<EchoService>)
    ensures
        service.logger().level() == log_level,
        service.logger().span() == Span::client(client_ip, id),
        service.inner().session_data().logger().span() == if ws_logging_enabled {
            Some(Span::ws_client(client_ip, id))
        } else {
            None
        },
        service.inner().session_data().ping_interval() == ws_ping_interval,
{
    let svc = EchoService::new(ws_logging_enabled, ws_ping_interval, client_ip, id);
    LoggerLayer::new(log_level, client_ip, id).layer(svc)
}

/// The service of one connection: it echoes plain requests and starts a
/// session for requests that ask for an upgrade.
#[derive(Debug, Clone, Copy)]
pub struct EchoService {
    ws_session_data: SessionData,
}

impl EchoService {
    /// What the sessions of the connection are given.
    pub closed spec fn session_data(self) -> SessionData {
        self.ws_session_data
    }

    /// The service for connection `id` from `client_ip`.
    pub fn new(
        ws_logging_enabled: bool,
        ws_ping_interval: Option<Duration>,
        client_ip: ClientIp,
        id: u64,
    ) -> (service: EchoService)
        ensures
            service.session_data().logger().span() == if ws_logging_enabled {
                Some(Span::ws_client(client_ip, id))
            } else {
                None
            },
            service.session_data().ping_interval() == ws_ping_interval,
    {
        let ws_logger = WsLogger::new(ws_logging_enabled, client_ip, id);
        let ws_session_data = SessionData::new(ws_logger, ws_ping_interval);
        EchoService { ws_session_data }
    }

    /// Always ready.
    pub fn poll_ready(&self) -> (ready: Result<(), Infallible>)
        ensures
            ready is Ok,
    {
        Ok(())
    }

    /// Answers a request. The service never fails.
    pub fn call<B>(&self, req: Request<B>) -> (result: Result<Reply<B>, Infallible>)
        ensures
            result matches Ok(reply) && is_reply(
                reply,
                upgrade_requested(header_contents(req.headers)),
                req,
                self.session_data(),
            ),
            !names_upgrade(header_contents(req.headers)) ==> (result matches Ok(reply)
                && is_plain_reply(reply, req)),
            asks_for_websocket(header_contents(req.headers)) ==> (result matches Ok(reply)
                && answers_upgrade(
                reply,
                handshake_outcome(header_contents(req.headers)),
                req,
                self.session_data(),
            )),
    {
        process_request(req, self.ws_session_data)
    }
}

/// Answers a request: with the start of a session if its headers ask for an
/// upgrade to WebSocket, and with its echo if they do not. A request whose
/// upgrade headers are malformed is a plain request, and so is every request
/// without a `connection` header or without an `upgrade` header. A request
/// whose first `connection` header is `Upgrade` and whose first `upgrade`
/// header is `websocket` reaches the handshake.
pub fn process_request<B>(request: Request<B>, ws_session_data: SessionData) -> (result: Result<
    Reply<B>,
    Infallible,
>)
    ensures
        result matches Ok(reply) && is_reply(
            reply,
            upgrade_requested(header_contents(request.headers)),
            request,
            ws_session_data,
        ),
        !names_upgrade(header_contents(request.headers)) ==> (result matches Ok(reply)
            && is_plain_reply(reply, request)),
        asks_for_websocket(header_contents(request.headers)) ==> (result matches Ok(reply)
            && answers_upgrade(
            reply,
            handshake_outcome(header_contents(request.headers)),
            request,
            ws_session_data,
        )),
{
    let upgrade = is_upgrade_request(&request.headers);
    dispatch(upgrade, request, ws_session_data)
}

/// Answers a request of which it is known whether it asks for an upgrade.
pub fn dispatch<B>(upgrade: bool, request: Request<B>, ws_session_data: SessionData) -> (result:
    Result<Reply<B>, Infallible>)
    ensures
        result matches Ok(reply) && is_reply(reply, upgrade, request, ws_session_data),
{
    if upgrade {
        ws::run_session(request, ws_session_data)
    } else {
        match http::echo(request) {
            Ok(response) => Ok(Reply { response, session: None }),
            Err(never) => Err(never),
        }
    }
}

} // verus!
