//! What the handler reads of an HTTP request. The framework parses the
//! request line and headers; the handler receives the URL's percent-decoded
//! path segments, whether the externally visible URL path ends in `/`, that
//! URL itself (the original URL when the handler is mounted under a prefix),
//! and the few header values it acts on.

use vstd::prelude::*;

verus! {

/// The request methods the handler tells apart.
#[derive(Clone, Copy, PartialEq, Eq, Structural, Debug)]
pub enum Method {
    Get,
    Head,
}

/// One request, reduced to what the handler reads.
#[derive(Clone, Debug)]
pub struct HttpRequest {
    /// The URL path's segments, percent-decoded, in order. A decoded segment
    /// may contain `/`.
    pub segments: Vec<String>,
    /// Whether the externally visible URL path ends in `/`.
    pub trailing_slash: bool,
    /// The externally visible URL, as the client sent it: the original URL
    /// when a mounting layer stripped a prefix, else the request URL.
    pub url: String,
    /// The request method.
    pub method: Method,
    /// The `If-Modified-Since` header value, if sent.
    pub if_modified_since: Option<String>,
    /// The `Range` header value, if sent.
    pub range: Option<String>,
    /// The `Content-Type` header value, if sent (echoed on HEAD answers).
    pub content_type: Option<String>,
}

/// The view of an optional header value.
pub open spec fn opt_view(o: Option<String>) -> Option<Seq<char>> {
    match o {
        Some(s) => Some(s@),
        None => None,
    }
}

} // verus!
