//! What the handler answers: a status code, ordered headers, and a body
//! source. The driver turns the body source into bytes on the wire; a
//! `FileSlice` must be streamed by seeking, never by loading the whole file.

use vstd::prelude::*;

verus! {

/// Where the response body comes from.
#[derive(Clone, Debug)]
pub enum Body {
    /// No body (304, 416, and HEAD answers).
    Empty,
    /// A literal text body (the redirect notice).
    Text(String),
    /// The whole file at this path.
    FullFile(String),
    /// The bytes `[start, end)` of the file at this path.
    FileSlice(String, u64, u64),
}

/// The spec-level value of a body source.
pub ghost enum SpecBody {
    Empty,
    Text(Seq<char>),
    FullFile(Seq<char>),
    FileSlice(Seq<char>, u64, u64),
}

impl View for Body {
    type V = SpecBody;

    open spec fn view(&self) -> SpecBody {
        match self {
            Body::Empty => SpecBody::Empty,
            Body::Text(t) => SpecBody::Text(t@),
            Body::FullFile(p) => SpecBody::FullFile(p@),
            Body::FileSlice(p, a, b) => SpecBody::FileSlice(p@, *a, *b),
        }
    }
}

/// One HTTP response: status, headers in emission order, body source.
#[derive(Clone, Debug)]
pub struct Response {
    pub status: u16,
    pub headers: Vec<(String, String)>,
    pub body: Body,
}

/// The spec-level value of a response.
pub ghost struct SpecResponse {
    pub status: u16,
    pub headers: Seq<(Seq<char>, Seq<char>)>,
    pub body: SpecBody,
}

impl View for Response {
    type V = SpecResponse;

    open spec fn view(&self) -> SpecResponse {
        SpecResponse {
            status: self.status,
            headers: Seq::new(self.headers@.len(), |i: int| (self.headers@[i].0@, self.headers@[i].1@)),
            body: self.body@,
        }
    }
}

/// The value of header `name` in `headers`, if present (first match).
pub open spec fn header_of(headers: Seq<(Seq<char>, Seq<char>)>, name: Seq<char>) -> Option<
    Seq<char>,
>
    decreases headers.len(),
{
    if headers.len() == 0 {
        None
    } else if headers[0].0 == name {
        Some(headers[0].1)
    } else {
        header_of(headers.skip(1), name)
    }
}

impl Response {
    /// Builds a response with no headers.
    pub fn new(status: u16, body: Body) -> (r: Response)
        ensures
            r@.status == status,
            r@.headers =~= Seq::<(Seq<char>, Seq<char>)>::empty(),
            r@.body == body@,
    {
        Response { status, headers: Vec::new(), body }
    }

    /// Appends one header.
    pub fn push_header(&mut self, name: &str, value: String)
        ensures
            final(self)@.status == old(self)@.status,
            final(self)@.body == old(self)@.body,
            final(self)@.headers =~= old(self)@.headers.push((name@, value@)),
    {
        let n = name.to_owned();
        self.headers.push((n, value));
    }
}

} // verus!
