//! Core of a static file-serving HTTP request handler.
//!
//! The handler maps a request URL onto a root directory, classifies what it
//! finds there (a regular file, a directory with an `index.html`, nothing),
//! and builds the HTTP response: the file itself, a byte range of it, a
//! trailing-slash redirect, a not-modified answer, or an error status.
//!
//! The crate holds no I/O. A driver performs the filesystem lookups and the
//! byte streaming; it hands the handler plain values (metadata, header
//! strings) and receives a description of the response to send.

pub mod freshness;
pub mod fs;
pub mod handler;
pub mod headers;
pub mod httpdates;
pub mod laws;
pub mod numfmt;
pub mod paths;
pub mod range;
pub mod request;
pub mod response;
pub mod urls;

pub use fs::FileMeta;
pub use fs::FsError;
pub use fs::FsStat;
pub use handler::Cache;
pub use handler::ErrorKind;
pub use handler::FsProbe;
pub use handler::Resolution;
pub use handler::Static;
pub use request::HttpRequest;
pub use request::Method;
pub use response::Body;
pub use response::Response;
