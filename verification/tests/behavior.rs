//! Behavior of the individual stages: freshness headers, conditional
//! requests, HEAD, error mapping, range edge cases, and the small rendering
//! and parsing helpers.

use staticfile::numfmt::dec_u64;
use staticfile::numfmt::hex_u64;
use staticfile::paths::candidate_path;
use staticfile::range::parse_range_header;
use staticfile::range::ByteRangeSpec;
use staticfile::Body;
use staticfile::ErrorKind;
use staticfile::FileMeta;
use staticfile::FsError;
use staticfile::FsProbe;
use staticfile::FsStat;
use staticfile::HttpRequest;
use staticfile::Method;
use staticfile::Response;
use staticfile::Static;

fn meta(len: u64, mtime_secs: u64) -> FileMeta {
    FileMeta { len, mtime_secs, mtime_nsecs: 0 }
}

fn plain_request(segments: &[&str], trailing_slash: bool, url: &str) -> HttpRequest {
    HttpRequest {
        segments: segments.iter().map(|s| s.to_string()).collect(),
        trailing_slash,
        url: url.to_string(),
        method: Method::Get,
        if_modified_since: None,
        range: None,
        content_type: None,
    }
}

fn file_probe(m: FileMeta, restat: bool) -> FsProbe {
    FsProbe {
        candidate: FsStat::File(m),
        index: None,
        fresh: if restat { Some(FsStat::File(m)) } else { None },
    }
}

fn header<'a>(res: &'a Response, name: &str) -> Option<&'a str> {
    res.headers
        .iter()
        .find(|(n, _)| n == name)
        .map(|(_, v)| v.as_str())
}

#[test]
fn serves_index_at_root() {
    let st = Static::new("srv".to_string());
    let req = plain_request(&[""], true, "http://localhost:3000/");
    let probe = FsProbe {
        candidate: FsStat::Dir,
        index: Some(FsStat::File(meta(13, 7))),
        fresh: None,
    };
    let res = st.handle(&req, &probe).unwrap();
    assert_eq!(res.status, 200);
    assert!(matches!(res.body, Body::FullFile(p) if p == "srv/index.html"));
}

#[test]
fn emits_exact_cache_headers() {
    let st = Static::new("srv".to_string()).cache(3600);
    let mut req = plain_request(&["file1.html"], false, "http://localhost:3000/file1.html");
    req.range = None;
    let res = st.handle(&req, &file_probe(meta(10, 10), true)).unwrap();
    assert_eq!(res.status, 200);
    assert_eq!(header(&res, "Cache-Control"), Some("public, max-age=3600"));
    assert_eq!(
        header(&res, "Last-Modified"),
        Some("Thu, 01 Jan 1970 00:00:10 GMT")
    );
    assert_eq!(header(&res, "ETag"), Some("W/\"a-a.0\""));
    assert_eq!(header(&res, "Accept-Ranges"), Some("bytes"));
    assert!(matches!(res.body, Body::FullFile(p) if p == "srv/file1.html"));
}

#[test]
fn not_modified_when_copy_is_current() {
    let st = Static::new("srv".to_string()).cache(3600);
    let mut req = plain_request(&["file1.html"], false, "http://localhost:3000/file1.html");
    req.if_modified_since = Some("Thu, 01 Jan 1970 00:00:10 GMT".to_string());
    let res = st.handle(&req, &file_probe(meta(10, 10), true)).unwrap();
    assert_eq!(res.status, 304);
    assert!(matches!(res.body, Body::Empty));
    assert!(res.headers.is_empty());
    assert_eq!(header(&res, "Content-Length"), None);
}

#[test]
fn revalidates_with_emitted_last_modified() {
    let st = Static::new("srv".to_string()).cache(60);
    let req = plain_request(&["file1.html"], false, "http://localhost:3000/file1.html");
    let probe = file_probe(meta(10, 1_700_000_000), true);
    let first = st.handle(&req, &probe).unwrap();
    assert_eq!(first.status, 200);
    let last_modified = header(&first, "Last-Modified").unwrap().to_string();

    let mut second_req = req.clone();
    second_req.if_modified_since = Some(last_modified);
    let second = st.handle(&second_req, &probe).unwrap();
    assert_eq!(second.status, 304);
    assert!(matches!(second.body, Body::Empty));
}

#[test]
fn serves_when_cached_copy_is_stale() {
    let st = Static::new("srv".to_string()).cache(3600);
    let mut req = plain_request(&["file1.html"], false, "http://localhost:3000/file1.html");
    req.if_modified_since = Some("Thu, 01 Jan 1970 00:00:09 GMT".to_string());
    let res = st.handle(&req, &file_probe(meta(10, 10), true)).unwrap();
    assert_eq!(res.status, 200);
    assert!(matches!(res.body, Body::FullFile(_)));
}

#[test]
fn head_sends_headers_without_body() {
    let st = Static::new("srv".to_string()).cache(3600);
    let mut req = plain_request(&["file1.html"], false, "http://localhost:3000/file1.html");
    req.method = Method::Head;
    let res = st.handle(&req, &file_probe(meta(10, 10), true)).unwrap();
    assert_eq!(res.status, 200);
    assert!(matches!(res.body, Body::Empty));
    assert_eq!(header(&res, "Content-Type"), Some("text/plain"));
    assert_eq!(header(&res, "Content-Length"), Some("10"));
    assert_eq!(header(&res, "Cache-Control"), Some("public, max-age=3600"));
    assert_eq!(header(&res, "Accept-Ranges"), None);
}

#[test]
fn returns_403_if_permission_denied() {
    let st = Static::new("srv".to_string());
    let req = plain_request(&["secret"], false, "http://localhost:3000/secret");
    let probe = FsProbe {
        candidate: FsStat::Error(FsError::PermissionDenied),
        index: None,
        fresh: None,
    };
    let err = st.handle(&req, &probe).unwrap_err();
    assert_eq!(err, (ErrorKind::PermissionDenied, 403));
}

#[test]
fn returns_500_on_other_io_error() {
    let st = Static::new("srv".to_string());
    let req = plain_request(&["file1.html"], false, "http://localhost:3000/file1.html");
    let probe = FsProbe {
        candidate: FsStat::Error(FsError::Other(5)),
        index: None,
        fresh: None,
    };
    let err = st.handle(&req, &probe).unwrap_err();
    assert_eq!(err, (ErrorKind::OtherIo(5), 500));
}

#[test]
fn returns_500_when_restat_fails() {
    let st = Static::new("srv".to_string()).cache(3600);
    let req = plain_request(&["file1.html"], false, "http://localhost:3000/file1.html");
    let probe = FsProbe {
        candidate: FsStat::File(meta(10, 10)),
        index: None,
        fresh: Some(FsStat::Error(FsError::NotFound)),
    };
    let err = st.handle(&req, &probe).unwrap_err();
    assert_eq!(err, (ErrorKind::MetadataUnreadable, 500));
}

#[test]
fn rejects_foreign_range_unit() {
    let st = Static::new("srv".to_string());
    let mut req = plain_request(&["file1.html"], false, "http://localhost:3000/file1.html");
    for bad in ["items=2-7", "bytes=", "bytes=a-b", "bytes"] {
        req.range = Some(bad.to_string());
        let res = st.handle(&req, &file_probe(meta(10, 10), false)).unwrap();
        assert_eq!(res.status, 416, "range {:?}", bad);
        assert!(matches!(res.body, Body::Empty));
        assert_eq!(header(&res, "Accept-Ranges"), Some("bytes"));
    }
}

#[test]
fn rejects_multiple_ranges() {
    let st = Static::new("srv".to_string());
    let mut req = plain_request(&["file1.html"], false, "http://localhost:3000/file1.html");
    req.range = Some("bytes=0-1,3-4".to_string());
    let res = st.handle(&req, &file_probe(meta(10, 10), false)).unwrap();
    assert_eq!(res.status, 416);
    assert!(matches!(res.body, Body::Empty));
}

#[test]
fn rejects_empty_suffix_range() {
    let st = Static::new("srv".to_string());
    let mut req = plain_request(&["file1.html"], false, "http://localhost:3000/file1.html");
    req.range = Some("bytes=-0".to_string());
    let res = st.handle(&req, &file_probe(meta(10, 10), false)).unwrap();
    assert_eq!(res.status, 416);
}

#[test]
fn serves_whole_file_for_long_suffix_range() {
    let st = Static::new("srv".to_string());
    let mut req = plain_request(&["file1.html"], false, "http://localhost:3000/file1.html");
    req.range = Some("bytes=-100".to_string());
    let res = st.handle(&req, &file_probe(meta(10, 10), false)).unwrap();
    assert_eq!(res.status, 206);
    assert!(matches!(res.body, Body::FileSlice(_, 0, 10)));
    assert_eq!(header(&res, "Content-Range"), Some("bytes 0-9/10"));
}

#[test]
fn rejects_any_range_of_an_empty_file() {
    let st = Static::new("srv".to_string());
    let mut req = plain_request(&["empty.html"], false, "http://localhost:3000/empty.html");
    req.range = Some("bytes=-1".to_string());
    let res = st.handle(&req, &file_probe(meta(0, 10), false)).unwrap();
    assert_eq!(res.status, 416);
}

#[test]
fn content_range_names_the_slice() {
    let st = Static::new("srv".to_string());
    let mut req = plain_request(&["file1.html"], false, "http://localhost:3000/file1.html");
    req.range = Some("bytes=2-7".to_string());
    let res = st.handle(&req, &file_probe(meta(10, 10), false)).unwrap();
    assert_eq!(res.status, 206);
    assert_eq!(header(&res, "Content-Range"), Some("bytes 2-7/10"));
    assert_eq!(header(&res, "Accept-Ranges"), Some("bytes"));
    assert!(matches!(res.body, Body::FileSlice(_, 2, 8)));
}

#[test]
fn redirect_body_names_target() {
    let st = Static::new("srv".to_string());
    let req = plain_request(&["dir"], false, "http://localhost:3000/dir");
    let probe = FsProbe { candidate: FsStat::Dir, index: None, fresh: None };
    let res = st.handle(&req, &probe).unwrap();
    assert_eq!(res.status, 301);
    assert_eq!(header(&res, "Location"), Some("http://localhost:3000/dir/"));
    assert!(
        matches!(res.body, Body::Text(t) if t == "Redirecting to http://localhost:3000/dir/")
    );
}

#[test]
fn renders_decimal_and_hex() {
    assert_eq!(dec_u64(0), "0");
    assert_eq!(dec_u64(10), "10");
    assert_eq!(dec_u64(3600), "3600");
    assert_eq!(dec_u64(18446744073709551615), "18446744073709551615");
    assert_eq!(hex_u64(0), "0");
    assert_eq!(hex_u64(10), "a");
    assert_eq!(hex_u64(255), "ff");
    assert_eq!(hex_u64(3735928559), "deadbeef");
}

#[test]
fn resolves_candidate_paths() {
    let segs = |v: &[&str]| -> Vec<String> { v.iter().map(|s| s.to_string()).collect() };
    assert_eq!(candidate_path("root", &segs(&[])), "root");
    assert_eq!(candidate_path("root", &segs(&[""])), "root");
    assert_eq!(candidate_path("root", &segs(&["a", "b"])), "root/a/b");
    assert_eq!(candidate_path("root", &segs(&["a", "..", "b"])), "root/b");
    assert_eq!(candidate_path("root", &segs(&["..", ".."])), "root");
    assert_eq!(candidate_path("root", &segs(&[".", "a", ""])), "root/a");
    assert_eq!(candidate_path("root", &segs(&["a/../b"])), "root/b");
}

#[test]
fn parses_range_header_forms() {
    assert_eq!(
        parse_range_header("bytes=2-7"),
        Some(vec![ByteRangeSpec::FromTo(2, 7)])
    );
    assert_eq!(
        parse_range_header("bytes=-3"),
        Some(vec![ByteRangeSpec::Last(3)])
    );
    assert_eq!(
        parse_range_header("bytes=5-"),
        Some(vec![ByteRangeSpec::AllFrom(5)])
    );
    assert_eq!(
        parse_range_header("bytes=1-2,4-5"),
        Some(vec![
            ByteRangeSpec::FromTo(1, 2),
            ByteRangeSpec::FromTo(4, 5)
        ])
    );
    assert_eq!(parse_range_header("bytes=99999999999999999999-2"), None);
    assert_eq!(parse_range_header("bytes=1-2-3"), None);
    assert_eq!(parse_range_header("bytes=--1"), None);
    assert_eq!(parse_range_header(""), None);
    assert_eq!(parse_range_header("bytes"), None);
}

#[test]
fn error_descriptions() {
    assert_eq!(ErrorKind::NoFile.description(), "File not found");
    assert_eq!(ErrorKind::PermissionDenied.description(), "Permission denied");
    assert_eq!(ErrorKind::OtherIo(5).description(), "I/O error");
    assert_eq!(
        ErrorKind::MetadataUnreadable.description(),
        "Metadata unreadable"
    );
    assert_eq!(
        ErrorKind::RedirectUrlInvalid.description(),
        "Invalid redirect URL"
    );
}

#[test]
fn redirects_using_original_url() {
    // Mounted under a prefix: the handler sees the stripped segments but
    // redirects to the URL the client sent.
    let st = Static::new("srv".to_string());
    let req = plain_request(&["dir"], false, "http://localhost:3000/mnt/dir");
    let probe = FsProbe { candidate: FsStat::Dir, index: None, fresh: None };
    let res = st.handle(&req, &probe).unwrap();
    assert_eq!(res.status, 301);
    assert_eq!(header(&res, "Location"), Some("http://localhost:3000/mnt/dir/"));
}

#[test]
fn redirect_keeps_query_string() {
    let st = Static::new("srv".to_string());
    let req = plain_request(&["dir"], false, "http://localhost:3000/dir?page=2");
    let probe = FsProbe { candidate: FsStat::Dir, index: None, fresh: None };
    let res = st.handle(&req, &probe).unwrap();
    assert_eq!(res.status, 301);
    assert_eq!(
        header(&res, "Location"),
        Some("http://localhost:3000/dir/?page=2")
    );
}

#[test]
fn rejects_unusable_redirect_url() {
    let st = Static::new("srv".to_string());
    let req = plain_request(&["dir"], false, "data:text/plain,hello");
    let probe = FsProbe { candidate: FsStat::Dir, index: None, fresh: None };
    let err = st.handle(&req, &probe).unwrap_err();
    assert_eq!(err, (ErrorKind::RedirectUrlInvalid, 500));
}

#[test]
fn head_echoes_content_type() {
    let st = Static::new("srv".to_string()).cache(60);
    let mut req = plain_request(&["file1.html"], false, "http://localhost:3000/file1.html");
    req.method = Method::Head;
    req.content_type = Some("text/html".to_string());
    let res = st.handle(&req, &file_probe(meta(42, 10), true)).unwrap();
    assert_eq!(res.status, 200);
    assert_eq!(header(&res, "Content-Type"), Some("text/html"));
    assert_eq!(header(&res, "Content-Length"), Some("42"));
}
