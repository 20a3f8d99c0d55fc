//! The handler's behavioral laws, stated over the spec-level models and
//! proved once and for all.

use crate::fs::FileMeta;
use crate::fs::FsError;
use crate::fs::FsStat;
use crate::handler::range_response_model;
use crate::handler::redirect_model;
use crate::handler::serve_model;
use crate::handler::spec_handle;
use crate::handler::Cache;
use crate::handler::ErrorKind;
use crate::handler::FsProbe;
use crate::handler::Static;
use crate::headers::content_range_of;
use crate::httpdates::http_date_of;
use crate::httpdates::http_date_secs_of;
use crate::paths::candidate_of;
use crate::range::range_outcome_of;
use crate::range::spec_eval_one;
use crate::range::spec_parse_range;
use crate::range::ByteRangeSpec;
use crate::range::RangeOutcome;
use crate::request::opt_view;
use crate::request::HttpRequest;
use crate::response::header_of;
use crate::response::SpecBody;
use crate::response::SpecResponse;
use crate::urls::slashed_url_of;
use vstd::prelude::*;

verus! {

/// A resolved regular file, requested without a `Range` header and without
/// freshness configuration, is answered 200 with the whole file as body.
pub proof fn lemma_no_range_serves_whole_file(h: Static, req: HttpRequest, probe: FsProbe, m: FileMeta)
    requires
        h.cache is None,
        opt_view(req.range) is None,
        probe.candidate == FsStat::File(m),
    ensures
        spec_handle(h, req, probe) matches Ok(resp) && resp.status == 200 && resp.body
            == SpecBody::FullFile(candidate_of(h.root@, req.segments.deep_view())),
{
}

/// A directory requested without its trailing slash is answered 301: the
/// slashed URL stands in `Location`, and the body announces it.
pub proof fn lemma_redirects_to_slashed_url(h: Static, req: HttpRequest, probe: FsProbe, loc: Seq<char>)
    requires
        probe.candidate is Dir,
        !req.trailing_slash,
    ensures
        slashed_url_of(req.url@) == Some(loc) ==> spec_handle(h, req, probe) == Ok::<
            SpecResponse,
            (ErrorKind, u16),
        >(redirect_model(loc)),
        redirect_model(loc).status == 301,
        header_of(redirect_model(loc).headers, "Location"@) == Some(loc),
        redirect_model(loc).body == SpecBody::Text("Redirecting to "@ + loc),
{
    assert(header_of(redirect_model(loc).headers, "Location"@) == Some(loc));
}

/// A directory requested with its trailing slash, holding an index file, is
/// answered 200 with that index file as body (absent a `Range` header and
/// freshness configuration).
pub proof fn lemma_serves_directory_index(h: Static, req: HttpRequest, probe: FsProbe, m: FileMeta)
    requires
        h.cache is None,
        opt_view(req.range) is None,
        req.trailing_slash,
        probe.candidate is Dir,
        probe.index == Some(FsStat::File(m)),
    ensures
        spec_handle(h, req, probe) matches Ok(resp) && resp.status == 200 && resp.body
            == SpecBody::FullFile(candidate_of(h.root@, req.segments.deep_view()) + "/index.html"@),
{
}

/// A missing path is rejected with 404, and a path the filesystem refuses to
/// read with 403.
pub proof fn lemma_missing_and_forbidden(h: Static, req: HttpRequest, probe: FsProbe)
    ensures
        probe.candidate == FsStat::Error(FsError::NotFound) ==> spec_handle(h, req, probe)
            == Err::<SpecResponse, (ErrorKind, u16)>((ErrorKind::NoFile, 404u16)),
        probe.candidate == FsStat::Error(FsError::PermissionDenied) ==> spec_handle(h, req, probe)
            == Err::<SpecResponse, (ErrorKind, u16)>((ErrorKind::PermissionDenied, 403u16)),
{
}

/// With freshness configured, a request whose `If-Modified-Since` denotes a
/// time at or after the file's modification time is answered 304, bare of
/// body and headers (so without `Content-Length`).
pub proof fn lemma_not_modified(
    c: Cache,
    method: crate::request::Method,
    ims: Seq<char>,
    t: u64,
    ct: Option<Seq<char>>,
    range: Option<Seq<char>>,
    path: Seq<char>,
    m: FileMeta,
)
    ensures
        (http_date_secs_of(ims) == Some(t) && m.mtime_secs <= t) ==> serve_model(
            Some(c),
            method,
            Some(ims),
            ct,
            range,
            path,
            m,
        ) == (SpecResponse { status: 304, headers: Seq::empty(), body: SpecBody::Empty }),
        header_of(Seq::empty(), "Content-Length"@) is None,
{
}

/// A single satisfiable range is answered 206: the body is exactly the
/// selected slice, which lies inside the file, and `Content-Range` names it.
pub proof fn lemma_partial_content(
    cache: Option<Cache>,
    range: Seq<char>,
    path: Seq<char>,
    m: FileMeta,
    start: u64,
    end: u64,
)
    ensures
        range_outcome_of(Some(range), m.len) == (RangeOutcome::Partial { start, end })
            ==> range_response_model(cache, Some(range), path, m).status == 206
            && range_response_model(cache, Some(range), path, m).body == SpecBody::FileSlice(
            path,
            start,
            end,
        ) && header_of(
            range_response_model(cache, Some(range), path, m).headers,
            "Content-Range"@,
        ) == Some(content_range_of(start, end, m.len)) && start < end <= m.len,
{
    crate::range::lemma_partial_in_bounds(Some(range), m.len);
    if range_outcome_of(Some(range), m.len) == (RangeOutcome::Partial { start, end }) {
        lemma_emitted_header_names_differ();
        let hs = range_response_model(cache, Some(range), path, m).headers;
        assert(header_of(hs, "Content-Range"@) == Some(content_range_of(start, end, m.len))) by {
            lemma_emitted_header_names_differ();
            reveal_strlit("Content-Range");
            reveal_strlit("Accept-Ranges");
            reveal_strlit("Cache-Control");
            reveal_strlit("Last-Modified");
            reveal_strlit("ETag");
            assert forall|k: int| 0 <= k < hs.len() - 1 implies hs[k].0 != "Content-Range"@ by {
                assert(hs[k].0 == "Accept-Ranges"@ || hs[k].0 == "Cache-Control"@ || hs[k].0
                    == "Last-Modified"@ || hs[k].0 == "ETag"@);
            }
            lemma_header_of_last(hs, "Content-Range"@);
        }
    }
}

/// The names of the headers emitted beside `Content-Range` differ from it.
proof fn lemma_emitted_header_names_differ()
    ensures
        "Accept-Ranges"@ != "Content-Range"@,
        "Cache-Control"@ != "Content-Range"@,
        "Last-Modified"@ != "Content-Range"@,
        "ETag"@ != "Content-Range"@,
{
    reveal_strlit("Content-Range");
    reveal_strlit("Accept-Ranges");
    reveal_strlit("Cache-Control");
    reveal_strlit("Last-Modified");
    reveal_strlit("ETag");
    assert("Accept-Ranges"@[0] != "Content-Range"@[0]);
    assert("Cache-Control"@[1] != "Content-Range"@[1]);
    assert("Last-Modified"@[0] != "Content-Range"@[0]);
    assert("ETag"@.len() != "Content-Range"@.len());
}

/// Looking a name up in a header sequence whose other entries carry
/// different names finds the last entry.
proof fn lemma_header_of_last(hs: Seq<(Seq<char>, Seq<char>)>, name: Seq<char>)
    requires
        hs.len() >= 1,
        hs.last().0 == name,
        forall|k: int| 0 <= k < hs.len() - 1 ==> hs[k].0 != name,
    ensures
        header_of(hs, name) == Some(hs.last().1),
    decreases hs.len(),
{
    if hs.len() == 1 {
    } else {
        assert(hs.skip(1).last() == hs.last());
        assert(forall|k: int| 0 <= k < hs.skip(1).len() - 1 ==> hs.skip(1)[k].0 != name);
        lemma_header_of_last(hs.skip(1), name);
    }
}

/// A `Range` of the final `k` bytes of a file of `n` bytes selects exactly
/// the last `k` of them when both are positive (all of the file when `k`
/// exceeds `n`), and is unsatisfiable when `k` is zero or the file is empty.
pub proof fn lemma_suffix_range(n: u64, k: u64)
    ensures
        k > 0 && n > 0 ==> spec_eval_one(ByteRangeSpec::Last(k), n) == (RangeOutcome::Partial {
            start: if k < n { (n - k) as u64 } else { 0u64 },
            end: n,
        }),
        k == 0 || n == 0 ==> spec_eval_one(ByteRangeSpec::Last(k), n)
            == RangeOutcome::Unsatisfiable,
{
}

/// A 200 answer's `Last-Modified` value revalidates: while the file is
/// unchanged, a request carrying that value back as `If-Modified-Since` is
/// answered 304. The hypothesis — the emitted date parses back to the very
/// modification time — is what `serve` guarantees of every answer that
/// carries `Last-Modified`.
pub proof fn lemma_last_modified_round_trip(
    c: Cache,
    method: crate::request::Method,
    ct: Option<Seq<char>>,
    range: Option<Seq<char>>,
    path: Seq<char>,
    m: FileMeta,
)
    ensures
        http_date_secs_of(http_date_of(m.mtime_secs)) == Some(m.mtime_secs) ==> serve_model(
            Some(c),
            method,
            Some(http_date_of(m.mtime_secs)),
            ct,
            range,
            path,
            m,
        ).status == 304,
{
}

/// A `Range` header naming more than one range is answered as unsatisfiable
/// (416).
pub proof fn lemma_multiple_ranges_unsatisfiable(h: Seq<char>, n: u64, specs: Seq<ByteRangeSpec>)
    ensures
        (spec_parse_range(h) == Some(specs) && specs.len() >= 2) ==> range_outcome_of(Some(h), n)
            == RangeOutcome::Unsatisfiable,
{
}

/// A `first-last` range with `first` beyond `last` is served as the whole
/// file with 200, as though no `Range` header were present.
pub proof fn lemma_backwards_range_serves_whole_file(
    cache: Option<Cache>,
    h: Seq<char>,
    path: Seq<char>,
    m: FileMeta,
    a: u64,
    b: u64,
)
    ensures
        (spec_parse_range(h) == Some(seq![ByteRangeSpec::FromTo(a, b)]) && a > b) ==> {
            &&& range_response_model(cache, Some(h), path, m).status == 200
            &&& range_response_model(cache, Some(h), path, m).body == SpecBody::FullFile(path)
        },
{
}

} // verus!
