//! What holds of the log of every exchange, at every level.

use crate::log_utils::{
    chunk_messages, request_messages, response_messages, Elapsed, HttpLogLevel,
};
use crate::message::Version;
use crate::trusted::HeaderEntry;
use vstd::prelude::*;

verus! {

/// One request and its response, as far as the loggers read them.
pub ghost struct Exchange {
    pub method: Seq<char>,
    pub path: Seq<char>,
    pub request_version: Version,
    pub request_headers: Seq<HeaderEntry>,
    /// The chunks of the body, in the order in which they stream by.
    pub chunks: Seq<Seq<u8>>,
    pub response_version: Version,
    pub status: u16,
    pub response_headers: Seq<HeaderEntry>,
    pub latency: Elapsed,
}

/// The messages for the chunks of a body at the given level, in order.
pub open spec fn body_messages(level: HttpLogLevel, chunks: Seq<Seq<u8>>) -> Seq<Seq<char>>
    decreases chunks.len(),
{
    if chunks.len() == 0 {
        seq![]
    } else {
        body_messages(level, chunks.drop_last()) + chunk_messages(level, chunks.last())
    }
}

impl Exchange {
    /// The messages that are logged for the request at the given level.
    pub open spec fn of_request(self, level: HttpLogLevel) -> Seq<Seq<char>> {
        request_messages(
            level,
            self.method,
            self.path,
            self.request_version,
            self.request_headers,
        )
    }

    /// The messages that are logged for the body at the given level.
    pub open spec fn of_body(self, level: HttpLogLevel) -> Seq<Seq<char>> {
        body_messages(level, self.chunks)
    }

    /// The messages that are logged for the response at the given level.
    pub open spec fn of_response(self, level: HttpLogLevel) -> Seq<Seq<char>> {
        response_messages(
            level,
            self.response_version,
            self.status,
            self.response_headers,
            self.latency,
        )
    }

    /// Everything that is logged for the exchange at the given level.
    pub open spec fn log(self, level: HttpLogLevel) -> Seq<Seq<char>> {
        self.of_request(level) + self.of_body(level) + self.of_response(level)
    }

    /// True if the exchange has nothing of what `higher` logs and `lower`
    /// does not: no headers where the two differ by the headers, no chunks
    /// where they differ by the body.
    pub open spec fn lacks_what_differs(self, lower: HttpLogLevel, higher: HttpLogLevel) -> bool {
        let no_headers = self.request_headers.len() + self.response_headers.len() == 0;
        let no_body = self.chunks.len() == 0;
        match (lower, higher) {
            (HttpLogLevel::Uri, HttpLogLevel::UriHeaders) => no_headers,
            (HttpLogLevel::UriHeaders, HttpLogLevel::UriHeadersBody) => no_body,
            (HttpLogLevel::Uri, HttpLogLevel::UriHeadersBody) => no_headers && no_body,
            _ => false,
        }
    }
}

proof fn lemma_contains_concat(a: Seq<Seq<char>>, b: Seq<Seq<char>>, m: Seq<char>)
    ensures
        (a + b).contains(m) <==> a.contains(m) || b.contains(m),
{
    if a.contains(m) {
        let i = choose|i: int| 0 <= i < a.len() && a[i] == m;
        assert((a + b)[i] == m);
    }
    if b.contains(m) {
        let i = choose|i: int| 0 <= i < b.len() && b[i] == m;
        assert((a + b)[a.len() + i] == m);
    }
    if (a + b).contains(m) {
        let i = choose|i: int| 0 <= i < (a + b).len() && (a + b)[i] == m;
        if i < a.len() {
            assert(a[i] == m);
        } else {
            assert(b[i - a.len()] == m);
        }
    }
}

proof fn lemma_body_length(level: HttpLogLevel, chunks: Seq<Seq<u8>>)
    ensures
        body_messages(level, chunks).len() == if level == HttpLogLevel::UriHeadersBody {
            chunks.len()
        } else {
            0
        },
    decreases chunks.len(),
{
    if chunks.len() > 0 {
        lemma_body_length(level, chunks.drop_last());
    }
}

proof fn lemma_body_included(
    lower: HttpLogLevel,
    higher: HttpLogLevel,
    chunks: Seq<Seq<u8>>,
    m: Seq<char>,
)
    requires
        lower.rank() <= higher.rank(),
        body_messages(lower, chunks).contains(m),
    ensures
        body_messages(higher, chunks).contains(m),
    decreases chunks.len(),
{
    if chunks.len() > 0 {
        let before = chunks.drop_last();
        lemma_contains_concat(body_messages(lower, before), chunk_messages(lower, chunks.last()), m);
        lemma_contains_concat(
            body_messages(higher, before),
            chunk_messages(higher, chunks.last()),
            m,
        );
        if body_messages(lower, before).contains(m) {
            lemma_body_included(lower, higher, before, m);
        }
    }
}

proof fn lemma_request_included(
    lower: HttpLogLevel,
    higher: HttpLogLevel,
    x: Exchange,
    m: Seq<char>,
)
    requires
        lower.rank() <= higher.rank(),
        x.of_request(lower).contains(m),
    ensures
        x.of_request(higher).contains(m),
{
    if lower == HttpLogLevel::Uri && higher != HttpLogLevel::Uri {
        assert(x.of_request(higher)[0] == m);
    }
}

proof fn lemma_response_included(
    lower: HttpLogLevel,
    higher: HttpLogLevel,
    x: Exchange,
    m: Seq<char>,
)
    requires
        lower.rank() <= higher.rank(),
        x.of_response(lower).contains(m),
    ensures
        x.of_response(higher).contains(m),
{
    if lower == HttpLogLevel::Uri && higher != HttpLogLevel::Uri {
        let low = x.of_response(lower);
        let high = x.of_response(higher);
        let i = choose|i: int| 0 <= i < low.len() && low[i] == m;
        if i == 0 {
            assert(high[0] == m);
        } else {
            assert(high[high.len() - 1] == m);
        }
    }
}

/// The number of messages that are logged for an exchange at each level.
proof fn lemma_log_length(level: HttpLogLevel, x: Exchange)
    ensures
        x.log(level).len() == match level {
            HttpLogLevel::Off => 0,
            HttpLogLevel::Uri => 3,
            HttpLogLevel::UriHeaders => 3 + x.request_headers.len() + x.response_headers.len(),
            HttpLogLevel::UriHeadersBody => 3 + x.request_headers.len() + x.response_headers.len()
                + x.chunks.len(),
        },
{
    lemma_body_length(level, x.chunks);
}

/// Nothing is logged at the lowest level.
pub proof fn off_logs_nothing(x: Exchange)
    ensures
        x.log(HttpLogLevel::Off) =~= Seq::<Seq<char>>::empty(),
{
    lemma_body_length(HttpLogLevel::Off, x.chunks);
}

/// A higher level logs what a lower level logs: every message that is
/// logged for an exchange at the lower level is logged for it at the higher
/// level, and the higher level logs at least as many.
pub proof fn verbosity_is_monotonic(lower: HttpLogLevel, higher: HttpLogLevel, x: Exchange)
    requires
        lower.rank() <= higher.rank(),
    ensures
        forall|m: Seq<char>| x.log(lower).contains(m) ==> #[trigger] x.log(higher).contains(m),
        x.log(lower).len() <= x.log(higher).len(),
{
    lemma_log_length(lower, x);
    lemma_log_length(higher, x);
    assert forall|m: Seq<char>| x.log(lower).contains(m) implies #[trigger] x.log(higher).contains(
        m,
    ) by {
        lemma_contains_concat(x.of_request(lower) + x.of_body(lower), x.of_response(lower), m);
        lemma_contains_concat(x.of_request(lower), x.of_body(lower), m);
        lemma_contains_concat(x.of_request(higher) + x.of_body(higher), x.of_response(higher), m);
        lemma_contains_concat(x.of_request(higher), x.of_body(higher), m);
        if x.of_request(lower).contains(m) {
            lemma_request_included(lower, higher, x, m);
        } else if x.of_body(lower).contains(m) {
            lemma_body_included(lower, higher, x.chunks, m);
        } else {
            lemma_response_included(lower, higher, x, m);
        }
    }
}

/// A higher level logs more than a lower level: strictly more messages are
/// logged for an exchange at the higher of two levels, unless the exchange
/// has nothing of what the two differ by. In that case the two levels log
/// the same number of messages.
pub proof fn higher_level_logs_more(lower: HttpLogLevel, higher: HttpLogLevel, x: Exchange)
    requires
        lower.rank() < higher.rank(),
    ensures
        !x.lacks_what_differs(lower, higher) ==> x.log(lower).len() < x.log(higher).len(),
        x.lacks_what_differs(lower, higher) ==> x.log(lower).len() == x.log(higher).len(),
{
    lemma_log_length(lower, x);
    lemma_log_length(higher, x);
}

} // verus!
