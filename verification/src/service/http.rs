//! The echo of a plain request.

use crate::message::{Request, Response, StatusCode};
use std::convert::Infallible;
use vstd::prelude::*;

verus! {

/// The body of a response of the service.
#[derive(Debug)]
pub enum ReplyBody<B> {
    /// The body of the request, handed back as it streams in.
    Stream(B),
    /// No body.
    Empty,
    /// A short text.
    Full(String),
}

/// True of the response that echoes `request`: status 200, and the
/// request's version, headers, extensions and body, each as it came.
pub open spec fn is_echo<B>(response: Response<ReplyBody<B>>, request: Request<B>) -> bool {
    &&& response.status.value() == 200
    &&& response.version == request.version
    &&& response.headers == request.headers
    &&& response.extensions == request.extensions
    &&& response.body == ReplyBody::Stream(request.body)
}

/// Answers a request with itself: the response has status 200 and the
/// request's version, headers, extensions and body. The body is not read: it
/// is handed over, so what the response streams out is what the request
/// streams in, errors included.
pub fn echo<B>(request: Request<B>) -> (result: Result<Response<ReplyBody<B>>, Infallible>)
    ensures
        result matches Ok(response) && is_echo(response, request),
{
    let Request { method: _, path: _, version, headers, extensions, body } = request;
    let response = Response { status: StatusCode::ok(), version, headers, extensions, body };
    Ok(to_boxed_body(response))
}

/// The same response with its body as a body of the service.
pub fn to_boxed_body<B>(resp: Response<B>) -> (boxed: Response<ReplyBody<B>>)
    ensures
        boxed.status == resp.status,
        boxed.version == resp.version,
        boxed.headers == resp.headers,
        boxed.extensions == resp.extensions,
        boxed.body == ReplyBody::Stream(resp.body),
{
    let Response { status, version, headers, extensions, body } = resp;
    Response { status, version, headers, extensions, body: ReplyBody::Stream(body) }
}

} // verus!
