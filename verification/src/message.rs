//! HTTP requests and responses, as far as the engine reads them.

use crate::trusted::Headers;
use vstd::prelude::*;

verus! {

/// The protocol version of a message.
#[derive(Debug, Clone, Copy, PartialEq, Eq, Structural)]
pub enum Version {
    Http09,
    Http10,
    Http11,
    H2,
    H3,
}

impl Version {
    /// The version as it is written in a log line.
    pub open spec fn text(self) -> Seq<char> {
        match self {
            Version::Http09 => "HTTP/0.9"@,
            Version::Http10 => "HTTP/1.0"@,
            Version::Http11 => "HTTP/1.1"@,
            Version::H2 => "HTTP/2.0"@,
            Version::H3 => "HTTP/3.0"@,
        }
    }

    /// The version as it is written in a log line.
    pub fn as_str(self) -> (text: &'static str)
        ensures
            text@ == self.text(),
    {
        match self {
            Version::Http09 => "HTTP/0.9",
            Version::Http10 => "HTTP/1.0",
            Version::Http11 => "HTTP/1.1",
            Version::H2 => "HTTP/2.0",
            Version::H3 => "HTTP/3.0",
        }
    }
}

/// A status code: a number from 100 to 999.
#[derive(Debug, Clone, Copy, PartialEq, Eq, Structural)]
pub struct StatusCode {
    code: u16,
}

impl StatusCode {
    #[verifier::type_invariant]
    spec fn in_range(self) -> bool {
        100 <= self.code <= 999
    }

    /// The number of the status code.
    pub closed spec fn value(self) -> u16 {
        self.code
    }

    /// The status code with the given number, if that is from 100 to 999.
    pub fn from_u16(code: u16) -> (status: Option<StatusCode>)
        ensures
            status.is_some() <==> 100 <= code <= 999,
            status matches Some(s) ==> s.value() == code,
    {
        if 100 <= code && code <= 999 {
            Some(StatusCode { code })
        } else {
            None
        }
    }

    /// 101 Switching Protocols.
    pub fn switching_protocols() -> (status: StatusCode)
        ensures
            status.value() == 101,
    {
        StatusCode { code: 101 }
    }

    /// 200 OK.
    pub fn ok() -> (status: StatusCode)
        ensures
            status.value() == 200,
    {
        StatusCode { code: 200 }
    }

    /// 400 Bad Request.
    pub fn bad_request() -> (status: StatusCode)
        ensures
            status.value() == 400,
    {
        StatusCode { code: 400 }
    }

    /// The number of the status code.
    pub fn as_u16(&self) -> (code: u16)
        ensures
            code == self.value(),
            100 <= code <= 999,
    {
        proof {
            use_type_invariant(self);
        }
        self.code
    }
}

/// The head of a request: what a logger reads of it.
#[derive(Debug, Clone, Copy)]
pub struct RequestHead<'a> {
    pub method: &'a str,
    pub path: &'a str,
    pub version: Version,
    pub headers: &'a Headers,
}

/// The head of a response: what a logger reads of it.
#[derive(Debug, Clone, Copy)]
pub struct ResponseHead<'a> {
    pub status: StatusCode,
    pub version: Version,
    pub headers: &'a Headers,
}

/// A request with a body of type `B`.
#[derive(Debug)]
pub struct Request<B> {
    pub method: String,
    pub path: String,
    pub version: Version,
    pub headers: Headers,
    pub extensions: hyper::http::Extensions,
    pub body: B,
}

/// A response with a body of type `B`.
#[derive(Debug)]
pub struct Response<B> {
    pub status: StatusCode,
    pub version: Version,
    pub headers: Headers,
    pub extensions: hyper::http::Extensions,
    pub body: B,
}

impl<B> Request<B> {
    /// The head of the request.
    pub fn head(&self) -> (head: RequestHead<'_>)
        ensures
            head.method@ == self.method@,
            head.path@ == self.path@,
            head.version == self.version,
            *head.headers == self.headers,
    {
        RequestHead {
            method: self.method.as_str(),
            path: self.path.as_str(),
            version: self.version,
            headers: &self.headers,
        }
    }
}

impl<B> Response<B> {
    /// The head of the response.
    pub fn head(&self) -> (head: ResponseHead<'_>)
        ensures
            head.status == self.status,
            head.version == self.version,
            *head.headers == self.headers,
    {
        ResponseHead { status: self.status, version: self.version, headers: &self.headers }
    }
}

} // verus!
