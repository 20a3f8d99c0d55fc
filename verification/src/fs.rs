//! What the handler knows of the filesystem: metadata of one object, and the
//! outcome of one metadata lookup. The driver fills these from real `stat`
//! calls; the handler only reads them.

use vstd::prelude::*;

verus! {

/// The largest seconds-since-epoch value that still falls before the year
/// 9999 and can therefore be carried in an HTTP-date header.
pub const HTTP_DATE_MAX_SECS: u64 = 253402300799;

/// Metadata of a filesystem object: length in bytes and last-modification
/// time as seconds and nanoseconds since the Unix epoch.
#[derive(Clone, Copy, PartialEq, Eq, Structural, Debug)]
pub struct FileMeta {
    pub len: u64,
    pub mtime_secs: u64,
    pub mtime_nsecs: u32,
}

impl FileMeta {
    /// The modification time fits in an HTTP-date header (falls before the
    /// year 9999). Real filesystems satisfy this.
    pub open spec fn wf(&self) -> bool {
        self.mtime_secs <= HTTP_DATE_MAX_SECS
    }
}

/// Why a metadata lookup failed. `Other` carries the operating system's
/// error code, for logging only.
#[derive(Clone, Copy, PartialEq, Eq, Structural, Debug)]
pub enum FsError {
    NotFound,
    PermissionDenied,
    Other(u32),
}

/// The outcome of one metadata lookup.
#[derive(Clone, Copy, PartialEq, Eq, Structural, Debug)]
pub enum FsStat {
    File(FileMeta),
    Dir,
    Error(FsError),
}

} // verus!
