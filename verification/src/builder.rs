//! Builder for configuring SSE responses.
use std::time::Duration;
use vstd::prelude::*;

use crate::response::{headers_view, spec_sse_headers, sse_headers};

verus! {

/// Builder for SSE HTTP responses: a keep-alive interval and custom headers.
pub struct SseResponseBuilder {
    /// Interval at which the keep-alive comment (`: keep-alive\n\n`) is sent
    /// to prevent connection timeouts; `None` sends none.
    pub keep_alive_interval: Option<Duration>,
    /// Custom headers, in the order they were added.
    pub headers: Vec<(String, String)>,
}

/// The headers of the response that a builder configures: the SSE headers,
/// then the custom ones in the order they were added, so that a custom header
/// with the name of an SSE header replaces it.
pub open spec fn spec_response_headers(b: SseResponseBuilder) -> Seq<(Seq<char>, Seq<char>)> {
    spec_sse_headers() + headers_view(b.headers@)
}

impl SseResponseBuilder {
    /// Creates a new builder with default settings: no keep-alive interval
    /// and no custom headers.
    pub fn new() -> (b: Self)
        ensures
            b.keep_alive_interval is None,
            b.headers@.len() == 0,
    {
        SseResponseBuilder { keep_alive_interval: None, headers: Vec::new() }
    }

    /// Sets the keep-alive interval: a comment line (`: keep-alive\n\n`) is
    /// then sent periodically to prevent connection timeouts.
    pub fn keep_alive_interval(self, interval: Duration) -> (b: Self)
        ensures
            b.keep_alive_interval == Some(interval),
            b.headers@ == self.headers@,
    {
        let mut b = self;
        b.keep_alive_interval = Some(interval);
        b
    }

    /// Adds a custom header to the response, after those already added.
    pub fn header(self, name: &str, value: &str) -> (b: Self)
        ensures
            headers_view(b.headers@) == headers_view(self.headers@).push((name@, value@)),
            b.keep_alive_interval == self.keep_alive_interval,
    {
        let mut b = self;
        let ghost before = b.headers@;
        b.headers.push((name.to_owned(), value.to_owned()));
        proof {
            assert(headers_view(b.headers@) =~= headers_view(before).push((name@, value@)));
        }
        b
    }

    /// The headers to set on the response, in order: the SSE headers, then
    /// the custom headers.
    pub fn response_headers(&self) -> (r: Vec<(String, String)>)
        ensures
            headers_view(r@) == spec_response_headers(*self),
    {
        let mut r = sse_headers();
        let n = self.headers.len();
        for i in 0..n
            invariant
                n == self.headers@.len(),
                headers_view(r@) == spec_sse_headers() + headers_view(self.headers@.take(i as int)),
        {
            let ghost before = r@;
            let name = self.headers[i].0.clone();
            let value = self.headers[i].1.clone();
            r.push((name, value));
            proof {
                assert(self.headers@.take(i + 1) =~= self.headers@.take(i as int).push(
                    self.headers@[i as int],
                ));
                assert(headers_view(r@) =~= headers_view(before).push(
                    (self.headers@[i as int].0@, self.headers@[i as int].1@),
                ));
                assert(headers_view(self.headers@.take(i + 1)) =~= headers_view(
                    self.headers@.take(i as int),
                ).push((self.headers@[i as int].0@, self.headers@[i as int].1@)));
            }
        }
        proof {
            assert(self.headers@.take(n as int) =~= self.headers@);
        }
        r
    }
}

impl Default for SseResponseBuilder {
    fn default() -> (b: Self)
        ensures
            b.keep_alive_interval is None,
            b.headers@.len() == 0,
    {
        Self::new()
    }
}

/// A builder with no custom headers configures exactly the headers of a
/// plain SSE response.
pub proof fn law_builder_without_custom_headers(b: SseResponseBuilder)
    requires
        b.headers@.len() == 0,
    ensures
        spec_response_headers(b) == spec_sse_headers(),
{
    assert(headers_view(b.headers@) =~= Seq::<(Seq<char>, Seq<char>)>::empty());
    assert(spec_response_headers(b) =~= spec_sse_headers());
}

/// Custom headers keep the order in which they were added, after the SSE
/// headers: adding a header appends exactly that header to the response's
/// header list.
pub proof fn law_header_appends(before: SseResponseBuilder, after: SseResponseBuilder, name: Seq<char>, value: Seq<char>)
    requires
        headers_view(after.headers@) == headers_view(before.headers@).push((name, value)),
    ensures
        spec_response_headers(after) == spec_response_headers(before).push((name, value)),
{
    assert(spec_response_headers(after) =~= spec_response_headers(before).push((name, value)));
}

} // verus!
