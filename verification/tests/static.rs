//! The handler driven end to end over an in-memory filesystem: requests are
//! built from URL strings the way a hosting framework would, and response
//! bodies are materialized from the body source the handler names.

use staticfile::Body;
use staticfile::ErrorKind;
use staticfile::FileMeta;
use staticfile::FsError;
use staticfile::FsProbe;
use staticfile::FsStat;
use staticfile::HttpRequest;
use staticfile::Method;
use staticfile::Response;
use staticfile::Static;

/// An in-memory filesystem: files with contents and a modification time,
/// directories, and paths that refuse to be read.
pub struct TestFs {
    files: Vec<(String, Vec<u8>, u64)>,
    dirs: Vec<String>,
    denied: Vec<String>,
}

impl TestFs {
    pub fn new() -> TestFs {
        TestFs { files: Vec::new(), dirs: Vec::new(), denied: Vec::new() }
    }

    /// Adds a file, registering every ancestor directory.
    pub fn file(mut self, path: &str, contents: &str) -> TestFs {
        self = self.file_with_mtime(path, contents, 1_000_000);
        self
    }

    pub fn file_with_mtime(mut self, path: &str, contents: &str, mtime_secs: u64) -> TestFs {
        let mut prefix = String::new();
        for piece in path.split('/') {
            if !prefix.is_empty() {
                prefix.push('/');
            }
            prefix.push_str(piece);
            if prefix != path && !self.dirs.contains(&prefix) {
                self.dirs.push(prefix.clone());
            }
        }
        self.files.push((path.to_string(), contents.as_bytes().to_vec(), mtime_secs));
        self
    }

    pub fn dir(mut self, path: &str) -> TestFs {
        self.dirs.push(path.to_string());
        self
    }

    pub fn deny(mut self, path: &str) -> TestFs {
        self.denied.push(path.to_string());
        self
    }

    pub fn stat(&self, path: &str) -> FsStat {
        if self.denied.iter().any(|p| p == path) {
            return FsStat::Error(FsError::PermissionDenied);
        }
        for (p, c, t) in &self.files {
            if p == path {
                return FsStat::File(FileMeta {
                    len: c.len() as u64,
                    mtime_secs: *t,
                    mtime_nsecs: 0,
                });
            }
        }
        if self.dirs.iter().any(|p| p == path) {
            return FsStat::Dir;
        }
        FsStat::Error(FsError::NotFound)
    }

    pub fn read(&self, path: &str) -> Vec<u8> {
        for (p, c, _) in &self.files {
            if p == path {
                return c.clone();
            }
        }
        panic!("no such file: {}", path);
    }

    /// The bytes a driver would put on the wire for this body source.
    pub fn body_bytes(&self, body: &Body) -> Vec<u8> {
        match body {
            Body::Empty => Vec::new(),
            Body::Text(t) => t.as_bytes().to_vec(),
            Body::FullFile(p) => self.read(p),
            Body::FileSlice(p, start, end) => {
                self.read(p)[*start as usize..*end as usize].to_vec()
            }
        }
    }

    pub fn body_string(&self, body: &Body) -> String {
        String::from_utf8(self.body_bytes(body)).unwrap()
    }
}

/// Builds the request model from a URL string as the framework would: the
/// parsed URL's path segments, percent-decoded, and the trailing-slash flag.
pub fn request_from_url(url_str: &str) -> HttpRequest {
    let parsed = url::Url::parse(url_str).unwrap();
    let segments: Vec<String> = parsed
        .path_segments()
        .unwrap()
        .map(|s| {
            percent_encoding::percent_decode_str(s)
                .decode_utf8_lossy()
                .to_string()
        })
        .collect();
    HttpRequest {
        segments,
        trailing_slash: parsed.path().ends_with('/'),
        url: parsed.as_str().to_string(),
        method: Method::Get,
        if_modified_since: None,
        range: None,
        content_type: None,
    }
}

/// Runs the handler against the in-memory filesystem, performing the stats
/// the handler's stages ask for.
pub fn run(handler: &Static, fs: &TestFs, req: &HttpRequest) -> Result<Response, (ErrorKind, u16)> {
    let candidate = handler.resolve_path(req);
    let candidate_stat = fs.stat(&candidate);
    let index = if matches!(candidate_stat, FsStat::Dir) && req.trailing_slash {
        Some(fs.stat(&format!("{}/index.html", candidate)))
    } else {
        None
    };
    let served: Option<String> = match candidate_stat {
        FsStat::File(_) => Some(candidate.clone()),
        FsStat::Dir if req.trailing_slash => Some(format!("{}/index.html", candidate)),
        _ => None,
    };
    let fresh = if handler.cache.is_some() {
        served.map(|p| fs.stat(&p))
    } else {
        None
    };
    handler.handle(
        req,
        &FsProbe { candidate: candidate_stat, index, fresh },
    )
}

pub fn header<'a>(res: &'a Response, name: &str) -> Option<&'a str> {
    res.headers
        .iter()
        .find(|(n, _)| n == name)
        .map(|(_, v)| v.as_str())
}

#[test]
fn serves_non_default_file_from_absolute_root_path() {
    let fs = TestFs::new().file("example/file1.html", "this is file1");
    let st = Static::new("example".to_string());
    let req = request_from_url("http://localhost:3000/file1.html");
    match run(&st, &fs, &req) {
        Ok(res) => assert_eq!(fs.body_string(&res.body), "this is file1"),
        Err(e) => panic!("{:?}", e),
    }
}

#[test]
fn serves_default_file_from_absolute_root_path() {
    let fs = TestFs::new().file("example/index.html", "this is index");
    let st = Static::new("example".to_string());
    let req = request_from_url("http://localhost:3000/index.html");
    match run(&st, &fs, &req) {
        Ok(res) => assert_eq!(fs.body_string(&res.body), "this is index"),
        Err(e) => panic!("{:?}", e),
    }
}

#[test]
fn returns_404_if_file_not_found() {
    let fs = TestFs::new().dir("example");
    let st = Static::new("example".to_string());
    let req = request_from_url("http://localhost:3000");
    match run(&st, &fs, &req) {
        Ok(res) => panic!("Expected an error, got Response: {:?}", res.status),
        Err((_, status)) => assert_eq!(status, 404),
    }
}

#[test]
fn redirects_if_trailing_slash_is_missing() {
    let fs = TestFs::new().file("example/dir/index.html", "this is index");
    let st = Static::new("example".to_string());
    let req = request_from_url("http://localhost:3000/dir");
    match run(&st, &fs, &req) {
        Ok(res) => {
            assert_eq!(res.status, 301);
            assert_eq!(header(&res, "Location"), Some("http://localhost:3000/dir/"));
        }
        Err(e) => panic!("{:?}", e),
    }
}

#[test]
fn decodes_percent_notation() {
    let fs = TestFs::new().file("example/has space.html", "file with funky chars");
    let st = Static::new("example".to_string());
    let req = request_from_url("http://localhost:3000/has space.html");
    match run(&st, &fs, &req) {
        Ok(res) => assert_eq!(fs.body_string(&res.body), "file with funky chars"),
        Err(e) => panic!("{:?}", e),
    }
}

#[test]
fn normalizes_path() {
    let fs = TestFs::new().file("example/index.html", "this is index");
    let st = Static::new("example".to_string());
    let req = request_from_url("http://localhost:3000/xxx/../index.html");
    match run(&st, &fs, &req) {
        Ok(res) => assert_eq!(fs.body_string(&res.body), "this is index"),
        Err(e) => panic!("{:?}", e),
    }
}

#[test]
fn normalizes_percent_encoded_path() {
    let fs = TestFs::new().file("example/file1.html", "this is file1");
    let st = Static::new("example".to_string());
    let req = request_from_url("http://localhost:3000/xxx/..%2ffile1.html");
    match run(&st, &fs, &req) {
        Ok(res) => assert_eq!(fs.body_string(&res.body), "this is file1"),
        Err(e) => panic!("{:?}", e),
    }
}

#[test]
fn prevents_from_escaping_root() {
    let fs = TestFs::new().file("example/file1.html", "this is file1");
    let st = Static::new("example".to_string());

    let req = request_from_url("http://localhost:3000/../file1.html");
    match run(&st, &fs, &req) {
        Ok(res) => assert_eq!(fs.body_string(&res.body), "this is file1"),
        Err(e) => panic!("{:?}", e),
    }

    let req = request_from_url("http://localhost:3000/..%2ffile1.html");
    match run(&st, &fs, &req) {
        Ok(res) => assert_eq!(fs.body_string(&res.body), "this is file1"),
        Err(e) => panic!("{:?}", e),
    }

    let req = request_from_url("http://localhost:3000/xxx/..%2f..%2ffile1.html");
    match run(&st, &fs, &req) {
        Ok(res) => assert_eq!(fs.body_string(&res.body), "this is file1"),
        Err(e) => panic!("{:?}", e),
    }
}

#[test]
fn serves_partial_content_from_to() {
    let fs = TestFs::new().file("example/file1.html", "0123456789");
    let st = Static::new("example".to_string());

    // A range with both ends inside the file.
    let mut req = request_from_url("http://localhost:3000/file1.html");
    req.range = Some("bytes=2-7".to_string());
    let res = run(&st, &fs, &req).unwrap();
    assert_eq!(res.status, 206);
    assert_eq!(fs.body_string(&res.body), "234567");

    // Implicit end of range.
    let mut req = request_from_url("http://localhost:3000/file1.html");
    req.range = Some("bytes=5-100".to_string());
    let res = run(&st, &fs, &req).unwrap();
    assert_eq!(res.status, 206);
    assert_eq!(fs.body_string(&res.body), "56789");

    // Range out of bounds.
    let mut req = request_from_url("http://localhost:3000/file1.html");
    req.range = Some("bytes=11-12".to_string());
    let res = run(&st, &fs, &req).unwrap();
    assert_eq!(res.status, 416);

    // Backwards range.
    let mut req = request_from_url("http://localhost:3000/file1.html");
    req.range = Some("bytes=8-5".to_string());
    let res = run(&st, &fs, &req).unwrap();
    assert_eq!(res.status, 200);
    assert_eq!(fs.body_string(&res.body), "0123456789");
}

#[test]
fn serves_partial_content_last() {
    let fs = TestFs::new().file("example/file1.html", "0123456789");
    let st = Static::new("example".to_string());

    let mut req = request_from_url("http://localhost:3000/file1.html");
    req.range = Some("bytes=-3".to_string());
    let res = run(&st, &fs, &req).unwrap();
    assert_eq!(res.status, 206);
    assert_eq!(fs.body_string(&res.body), "789");
}

#[test]
fn serves_partial_content_all_from() {
    let fs = TestFs::new().file("example/file1.html", "0123456789");
    let st = Static::new("example".to_string());

    let mut req = request_from_url("http://localhost:3000/file1.html");
    req.range = Some("bytes=5-".to_string());
    let res = run(&st, &fs, &req).unwrap();
    assert_eq!(res.status, 206);
    assert_eq!(fs.body_string(&res.body), "56789");

    // Range out of bounds.
    let mut req = request_from_url("http://localhost:3000/file1.html");
    req.range = Some("bytes=11-".to_string());
    let res = run(&st, &fs, &req).unwrap();
    assert_eq!(res.status, 416);
}
