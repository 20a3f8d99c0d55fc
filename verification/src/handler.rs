//! The static file-serving handler: classification of what a request path
//! resolves to, and construction of the response.
//!
//! The handler itself performs no I/O. A driver stats the paths the handler
//! names and passes the outcomes in an `FsProbe`; the handler decides and
//! builds the response. `handle` composes the stages; `classify`,
//! `classify_index` and `serve` expose them one by one for drivers that stat
//! lazily.

use crate::freshness::check_fresh;
use crate::freshness::is_fresh;
use crate::fs::FileMeta;
use crate::fs::FsError;
use crate::fs::FsStat;
use crate::headers::cache_control_of;
use crate::headers::cache_control_value;
use crate::headers::content_range_of;
use crate::headers::content_range_value;
use crate::headers::etag_of;
use crate::headers::etag_value;
use crate::httpdates::format_http_date;
use crate::httpdates::http_date_of;
use crate::httpdates::http_date_secs_of;
use crate::numfmt::dec_seq;
use crate::numfmt::dec_u64;
use crate::paths::candidate_of;
use crate::paths::candidate_path;
use crate::paths::index_path;
use crate::range::evaluate_range;
use crate::range::range_outcome_of;
use crate::range::lemma_partial_in_bounds;
use crate::range::RangeOutcome;
use crate::request::opt_view;
use crate::request::HttpRequest;
use crate::request::Method;
use crate::response::Body;
use crate::response::Response;
use crate::response::SpecBody;
use crate::response::SpecResponse;
use crate::urls::slashed_url_of;
use crate::urls::with_trailing_slash;
use vstd::prelude::*;
use vstd::string::StringExecFns;

verus! {

/// What went wrong, paired with the status code it is surfaced under. The
/// operating system's error code, where one is carried, is for logging only.
#[derive(Clone, Copy, PartialEq, Eq, Structural, Debug)]
pub enum ErrorKind {
    /// The resource does not exist (404).
    NoFile,
    /// The filesystem denied reading (403).
    PermissionDenied,
    /// Another I/O error during resolution (500).
    OtherIo(u32),
    /// Metadata could not be re-read at the freshness stage (500).
    MetadataUnreadable,
    /// The externally visible URL cannot take a trailing slash (500). The
    /// framework hands the handler a parsed URL, so this is defensive only.
    RedirectUrlInvalid,
}

impl ErrorKind {
    /// A short fixed description, for logging.
    pub fn description(&self) -> (r: &'static str)
        ensures
            *self == ErrorKind::NoFile ==> r@ == "File not found"@,
            *self == ErrorKind::PermissionDenied ==> r@ == "Permission denied"@,
            *self == ErrorKind::MetadataUnreadable ==> r@ == "Metadata unreadable"@,
            *self == ErrorKind::RedirectUrlInvalid ==> r@ == "Invalid redirect URL"@,
            (self matches ErrorKind::OtherIo(_)) ==> r@ == "I/O error"@,
    {
        match self {
            ErrorKind::NoFile => "File not found",
            ErrorKind::PermissionDenied => "Permission denied",
            ErrorKind::OtherIo(_) => "I/O error",
            ErrorKind::MetadataUnreadable => "Metadata unreadable",
            ErrorKind::RedirectUrlInvalid => "Invalid redirect URL",
        }
    }
}

/// The error and status that a failed metadata lookup is surfaced as.
pub open spec fn reject_of(e: FsError) -> (ErrorKind, u16) {
    match e {
        FsError::NotFound => (ErrorKind::NoFile, 404u16),
        FsError::PermissionDenied => (ErrorKind::PermissionDenied, 403u16),
        FsError::Other(k) => (ErrorKind::OtherIo(k), 500u16),
    }
}

/// Maps a failed metadata lookup to its error and status.
fn reject_pair(e: FsError) -> (r: (ErrorKind, u16))
    ensures
        r == reject_of(e),
{
    match e {
        FsError::NotFound => (ErrorKind::NoFile, 404),
        FsError::PermissionDenied => (ErrorKind::PermissionDenied, 403),
        FsError::Other(k) => (ErrorKind::OtherIo(k), 500),
    }
}

/// Freshness configuration: answers carry cache headers, and a request whose
/// cached copy is current is answered 304.
#[derive(Clone, Copy, PartialEq, Eq, Structural, Debug)]
pub struct Cache {
    /// The `max-age` the `Cache-Control` header advertises, in seconds.
    pub duration_secs: u32,
}

impl Cache {
    /// Freshness configuration with the given `max-age`, in seconds.
    pub fn new(duration_secs: u32) -> (r: Cache)
        ensures
            r.duration_secs == duration_secs,
    {
        Cache { duration_secs }
    }
}

/// The static file-serving handler: a root directory, and optional freshness
/// configuration. Immutable once built; safe to share across requests.
#[derive(Clone, Debug)]
pub struct Static {
    /// The directory files are served from.
    pub root: String,
    /// Freshness configuration, if any.
    pub cache: Option<Cache>,
}

/// What the resolution stage decides for a request.
pub enum Resolution {
    /// A finished response (the trailing-slash redirect).
    Respond(Response),
    /// A regular file to serve, with its metadata.
    Found(String, FileMeta),
    /// A directory with a trailing slash: stat this index path and continue
    /// with `classify_index`.
    NeedIndex(String),
    /// A failure, as error kind and status.
    Reject(ErrorKind, u16),
}

/// The stat outcomes a driver hands to `handle`: the candidate path's, the
/// index path's (when the candidate is a directory and the URL has a
/// trailing slash), and a re-stat of the served file (when freshness is
/// configured).
#[derive(Clone, Copy, PartialEq, Eq, Structural, Debug)]
pub struct FsProbe {
    pub candidate: FsStat,
    pub index: Option<FsStat>,
    pub fresh: Option<FsStat>,
}

/// Whether the re-stat outcome, if it found a file, carries a modification
/// time an HTTP-date can hold.
pub open spec fn fresh_file_wf(f: Option<FsStat>) -> bool {
    match f {
        Some(FsStat::File(m)) => m.wf(),
        _ => true,
    }
}

/// The redirect answer for a directory URL missing its trailing slash:
/// status 301, the slashed URL in `Location`, and a short text body naming
/// it.
pub open spec fn redirect_model(loc: Seq<char>) -> SpecResponse {
    SpecResponse {
        status: 301,
        headers: seq![("Location"@, loc)],
        body: SpecBody::Text("Redirecting to "@ + loc),
    }
}

/// The cache headers attached to answers when freshness is configured.
pub open spec fn cache_header_seq(c: Cache, m: FileMeta) -> Seq<(Seq<char>, Seq<char>)> {
    seq![
        ("Cache-Control"@, cache_control_of(c.duration_secs)),
        ("Last-Modified"@, http_date_of(m.mtime_secs)),
        ("ETag"@, etag_of(m)),
    ]
}

/// The cache headers for the configuration at hand: none when freshness is
/// not configured.
pub open spec fn base_headers(cache: Option<Cache>, m: FileMeta) -> Seq<(Seq<char>, Seq<char>)> {
    match cache {
        Some(c) => cache_header_seq(c, m),
        None => Seq::empty(),
    }
}

/// The `Content-Type` a HEAD answer carries: the request's, or `text/plain`.
pub open spec fn ctype_or_default(ct: Option<Seq<char>>) -> Seq<char> {
    match ct {
        Some(t) => t,
        None => "text/plain"@,
    }
}

/// The answer the range stage builds for a file of known metadata: the whole
/// file, one slice with its `Content-Range`, or 416; every one carries
/// `Accept-Ranges: bytes` after any cache headers.
pub open spec fn range_response_model(
    cache: Option<Cache>,
    range: Option<Seq<char>>,
    path: Seq<char>,
    m: FileMeta,
) -> SpecResponse {
    match range_outcome_of(range, m.len) {
        RangeOutcome::Full => SpecResponse {
            status: 200,
            headers: base_headers(cache, m) + seq![("Accept-Ranges"@, "bytes"@)],
            body: SpecBody::FullFile(path),
        },
        RangeOutcome::Partial { start, end } => SpecResponse {
            status: 206,
            headers: base_headers(cache, m) + seq![
                ("Accept-Ranges"@, "bytes"@),
                ("Content-Range"@, content_range_of(start, end, m.len)),
            ],
            body: SpecBody::FileSlice(path, start, end),
        },
        RangeOutcome::Unsatisfiable => SpecResponse {
            status: 416,
            headers: base_headers(cache, m) + seq![("Accept-Ranges"@, "bytes"@)],
            body: SpecBody::Empty,
        },
    }
}

/// The answer for a resolved file of metadata `m`: 304 bare of headers and
/// body when the client's copy is fresh; for HEAD under freshness
/// configuration, the header set with `Content-Type` and `Content-Length`
/// and no body; else the range stage's answer.
pub open spec fn serve_model(
    cache: Option<Cache>,
    method: Method,
    ims: Option<Seq<char>>,
    ct: Option<Seq<char>>,
    range: Option<Seq<char>>,
    path: Seq<char>,
    m: FileMeta,
) -> SpecResponse {
    if cache is Some && is_fresh(ims, m.mtime_secs) {
        SpecResponse {
            status: 304,
            headers: Seq::empty(),
            body: SpecBody::Empty,
        }
    } else if cache is Some && method == Method::Head {
        SpecResponse {
            status: 200,
            headers: seq![
                ("Content-Type"@, ctype_or_default(ct)),
                ("Content-Length"@, dec_seq(m.len as nat)),
            ] + base_headers(cache, m),
            body: SpecBody::Empty,
        }
    } else {
        range_response_model(cache, range, path, m)
    }
}

/// What `serve` returns: when freshness is configured the file is re-stated
/// first, and anything but a file there is a 500; the metadata that stat
/// found supersedes the resolver's.
pub open spec fn spec_serve(
    cache: Option<Cache>,
    method: Method,
    ims: Option<Seq<char>>,
    ct: Option<Seq<char>>,
    range: Option<Seq<char>>,
    path: Seq<char>,
    meta: FileMeta,
    fresh: Option<FsStat>,
) -> Result<SpecResponse, (ErrorKind, u16)> {
    match cache {
        Some(_) => match fresh {
            Some(FsStat::File(m2)) => Ok(serve_model(cache, method, ims, ct, range, path, m2)),
            _ => Err((ErrorKind::MetadataUnreadable, 500u16)),
        },
        None => Ok(serve_model(cache, method, ims, ct, range, path, meta)),
    }
}

/// What `handle` returns for a request and the stat outcomes of its paths.
pub open spec fn spec_handle(h: Static, req: HttpRequest, probe: FsProbe) -> Result<
    SpecResponse,
    (ErrorKind, u16),
> {
    let cand = candidate_of(h.root@, req.segments.deep_view());
    match probe.candidate {
        FsStat::Error(e) => Err(reject_of(e)),
        FsStat::File(m) => spec_serve(
            h.cache,
            req.method,
            opt_view(req.if_modified_since),
            opt_view(req.content_type),
            opt_view(req.range),
            cand,
            m,
            probe.fresh,
        ),
        FsStat::Dir => if !req.trailing_slash {
            match slashed_url_of(req.url@) {
                Some(loc) => Ok(redirect_model(loc)),
                None => Err((ErrorKind::RedirectUrlInvalid, 500u16)),
            }
        } else {
            match probe.index {
                Some(FsStat::File(m)) => spec_serve(
                    h.cache,
                    req.method,
                    opt_view(req.if_modified_since),
                    opt_view(req.content_type),
                    opt_view(req.range),
                    cand + "/index.html"@,
                    m,
                    probe.fresh,
                ),
                _ => Err((ErrorKind::NoFile, 404u16)),
            }
        },
    }
}

/// Appends the cache headers for configuration `c` and metadata `m`. The
/// last clause records that the emitted `Last-Modified` value parses back to
/// the very modification time.
fn push_cache_headers(resp: &mut Response, c: Cache, m: &FileMeta)
    requires
        m.wf(),
    ensures
        final(resp)@.status == old(resp)@.status,
        final(resp)@.body == old(resp)@.body,
        final(resp)@.headers =~= old(resp)@.headers + cache_header_seq(c, *m),
        http_date_secs_of(http_date_of(m.mtime_secs)) == Some(m.mtime_secs),
{
    resp.push_header("Cache-Control", cache_control_value(c.duration_secs));
    resp.push_header("Last-Modified", format_http_date(m.mtime_secs));
    resp.push_header("ETag", etag_value(m));
}

impl Static {
    /// A handler serving files from the given root path. With an empty root,
    /// files are served from the current directory.
    pub fn new(root: String) -> (r: Static)
        ensures
            r.root == root,
            r.cache is None,
    {
        Static { root, cache: None }
    }

    /// The same handler with freshness configured: responses carry cache
    /// headers with the given `max-age` in seconds, and conditional requests
    /// may be answered 304.
    pub fn cache(self, duration_secs: u32) -> (r: Static)
        ensures
            r.root == self.root,
            r.cache == Some(Cache { duration_secs }),
    {
        Static { root: self.root, cache: Some(Cache::new(duration_secs)) }
    }

    /// The filesystem path the request resolves to under the root.
    pub fn resolve_path(&self, req: &HttpRequest) -> (r: String)
        ensures
            r@ == candidate_of(self.root@, req.segments.deep_view()),
    {
        candidate_path(self.root.as_str(), &req.segments)
    }

    /// Classifies the stat outcome of the candidate path: a failure is
    /// rejected with its status; a file is found; a directory redirects to
    /// the slashed URL when the URL lacks its trailing slash, and otherwise
    /// names the index path to stat next.
    pub fn classify(&self, req: &HttpRequest, candidate: String, stat: &FsStat) -> (r: Resolution)
        ensures
            match *stat {
                FsStat::Error(e) => r matches Resolution::Reject(k, s) && (k, s) == reject_of(e),
                FsStat::File(m) => r matches Resolution::Found(p, fm) && p@ == candidate@ && fm
                    == m,
                FsStat::Dir => if !req.trailing_slash {
                    match slashed_url_of(req.url@) {
                        Some(loc) => r matches Resolution::Respond(resp) && resp@
                            == redirect_model(loc),
                        None => r matches Resolution::Reject(k, s) && k
                            == ErrorKind::RedirectUrlInvalid && s == 500,
                    }
                } else {
                    r matches Resolution::NeedIndex(p) && p@ == candidate@ + "/index.html"@
                },
            },
    {
        match stat {
            FsStat::Error(e) => {
                let (k, s) = reject_pair(*e);
                Resolution::Reject(k, s)
            },
            FsStat::File(m) => Resolution::Found(candidate, *m),
            FsStat::Dir => {
                if !req.trailing_slash {
                    match with_trailing_slash(req.url.as_str()) {
                        None => Resolution::Reject(ErrorKind::RedirectUrlInvalid, 500),
                        Some(loc) => {
                            let mut body = String::from_str("Redirecting to ");
                            body.append(loc.as_str());
                            let mut resp = Response::new(301, Body::Text(body));
                            resp.push_header("Location", loc);
                            proof {
                                assert(resp@.headers =~= redirect_model(
                                    resp@.headers[0].1,
                                ).headers);
                            }
                            Resolution::Respond(resp)
                        },
                    }
                } else {
                    Resolution::NeedIndex(index_path(candidate.as_str()))
                }
            },
        }
    }

    /// Classifies the stat outcome of a directory's index path: a regular
    /// file is served; anything else is not found.
    pub fn classify_index(&self, index: String, stat: &FsStat) -> (r: Resolution)
        ensures
            match *stat {
                FsStat::File(m) => r matches Resolution::Found(p, fm) && p@ == index@ && fm == m,
                _ => r matches Resolution::Reject(k, s) && k == ErrorKind::NoFile && s == 404,
            },
    {
        match stat {
            FsStat::File(m) => Resolution::Found(index, *m),
            _ => Resolution::Reject(ErrorKind::NoFile, 404),
        }
    }

    /// Builds the range stage's answer for the file at `path` with metadata
    /// `m`.
    fn respond_range(&self, req: &HttpRequest, path: String, m: &FileMeta) -> (r: Response)
        requires
            self.cache is Some ==> m.wf(),
        ensures
            r@ == range_response_model(self.cache, opt_view(req.range), path@, *m),
            self.cache is Some ==> http_date_secs_of(http_date_of(m.mtime_secs)) == Some(
                m.mtime_secs,
            ),
    {
        let outcome = evaluate_range(&req.range, m.len);
        let mut resp = match outcome {
            RangeOutcome::Full => Response::new(200, Body::FullFile(path)),
            RangeOutcome::Partial { start, end } => Response::new(
                206,
                Body::FileSlice(path, start, end),
            ),
            RangeOutcome::Unsatisfiable => Response::new(416, Body::Empty),
        };
        match &self.cache {
            Some(c) => {
                push_cache_headers(&mut resp, *c, m);
            },
            None => {},
        }
        resp.push_header("Accept-Ranges", String::from_str("bytes"));
        match outcome {
            RangeOutcome::Partial { start, end } => {
                proof {
                    lemma_partial_in_bounds(opt_view(req.range), m.len);
                }
                resp.push_header("Content-Range", content_range_value(start, end, m.len));
            },
            _ => {},
        }
        proof {
            assert(resp@.headers =~= range_response_model(
                self.cache,
                opt_view(req.range),
                path@,
                *m,
            ).headers);
        }
        resp
    }

    /// Builds the answer for a resolved file: freshness first (when
    /// configured, over a re-stat of the file, whose failure is a 500), then
    /// HEAD short-circuiting, then the range stage.
    ///
    /// The re-stat's modification time must fit in an HTTP-date (real
    /// filesystem times do).
    pub fn serve(
        &self,
        req: &HttpRequest,
        path: String,
        meta: &FileMeta,
        fresh: &Option<FsStat>,
    ) -> (r: Result<Response, (ErrorKind, u16)>)
        requires
            self.cache is Some ==> fresh_file_wf(*fresh),
        ensures
            match r {
                Ok(resp) => spec_serve(
                    self.cache,
                    req.method,
                    opt_view(req.if_modified_since),
                    opt_view(req.content_type),
                    opt_view(req.range),
                    path@,
                    *meta,
                    *fresh,
                ) == Ok::<SpecResponse, (ErrorKind, u16)>(resp@),
                Err(e) => spec_serve(
                    self.cache,
                    req.method,
                    opt_view(req.if_modified_since),
                    opt_view(req.content_type),
                    opt_view(req.range),
                    path@,
                    *meta,
                    *fresh,
                ) == Err::<SpecResponse, (ErrorKind, u16)>(e),
            },
            match *fresh {
                Some(FsStat::File(m2)) => (self.cache is Some && !is_fresh(
                    opt_view(req.if_modified_since),
                    m2.mtime_secs,
                )) ==> http_date_secs_of(http_date_of(m2.mtime_secs)) == Some(m2.mtime_secs),
                _ => true,
            },
    {
        let m: FileMeta = match &self.cache {
            Some(_) => match fresh {
                Some(FsStat::File(m2)) => *m2,
                _ => {
                    return Err((ErrorKind::MetadataUnreadable, 500));
                },
            },
            None => *meta,
        };
        match &self.cache {
            Some(c) => {
                if check_fresh(&req.if_modified_since, m.mtime_secs) {
                    return Ok(Response::new(304, Body::Empty));
                }
                if req.method == Method::Head {
                    let mut resp = Response::new(200, Body::Empty);
                    let ct = match &req.content_type {
                        Some(t) => t.clone(),
                        None => String::from_str("text/plain"),
                    };
                    resp.push_header("Content-Type", ct);
                    resp.push_header("Content-Length", dec_u64(m.len));
                    push_cache_headers(&mut resp, *c, &m);
                    proof {
                        assert(resp@.headers =~= serve_model(
                            self.cache,
                            req.method,
                            opt_view(req.if_modified_since),
                            opt_view(req.content_type),
                            opt_view(req.range),
                            path@,
                            m,
                        ).headers);
                    }
                    return Ok(resp);
                }
            },
            None => {},
        }
        Ok(self.respond_range(req, path, &m))
    }

    /// Handles one request given the stat outcomes of its paths: resolution,
    /// then redirect, error, or the freshness and range stages over the
    /// resolved file.
    ///
    /// The re-stat's modification time must fit in an HTTP-date (real
    /// filesystem times do).
    pub fn handle(&self, req: &HttpRequest, probe: &FsProbe) -> (r: Result<
        Response,
        (ErrorKind, u16),
    >)
        requires
            self.cache is Some ==> fresh_file_wf(probe.fresh),
        ensures
            match r {
                Ok(resp) => spec_handle(*self, *req, *probe) == Ok::<
                    SpecResponse,
                    (ErrorKind, u16),
                >(resp@),
                Err(e) => spec_handle(*self, *req, *probe) == Err::<
                    SpecResponse,
                    (ErrorKind, u16),
                >(e),
            },
            match (r, probe.fresh) {
                (Ok(resp), Some(FsStat::File(m2))) => (self.cache is Some && resp@.status != 301
                    && resp@.status != 304) ==> http_date_secs_of(http_date_of(m2.mtime_secs))
                    == Some(m2.mtime_secs),
                _ => true,
            },
    {
        let candidate = self.resolve_path(req);
        match self.classify(req, candidate, &probe.candidate) {
            Resolution::Respond(resp) => Ok(resp),
            Resolution::Reject(k, s) => Err((k, s)),
            Resolution::Found(p, fm) => self.serve(req, p, &fm, &probe.fresh),
            Resolution::NeedIndex(ip) => {
                match &probe.index {
                    Some(st) => {
                        match self.classify_index(ip, st) {
                            Resolution::Found(p, fm) => self.serve(req, p, &fm, &probe.fresh),
                            Resolution::Reject(k, s) => Err((k, s)),
                            _ => Err((ErrorKind::NoFile, 404)),
                        }
                    },
                    None => Err((ErrorKind::NoFile, 404)),
                }
            },
        }
    }
}

} // verus!
