//! The header values the handler emits, rendered exactly.

use crate::fs::FileMeta;
use crate::numfmt::dec_seq;
use crate::numfmt::dec_u64;
use crate::numfmt::hex_seq;
use crate::numfmt::hex_u64;
use vstd::prelude::*;
use vstd::string::StringExecFns;

verus! {

/// The `Cache-Control` value for a max-age of `secs` seconds.
pub open spec fn cache_control_of(secs: u32) -> Seq<char> {
    "public, max-age="@ + dec_seq(secs as nat)
}

/// The weak `ETag` value for a file: size, modification seconds and
/// nanoseconds, each in hexadecimal.
pub open spec fn etag_of(m: FileMeta) -> Seq<char> {
    "W/\""@ + hex_seq(m.len as nat) + "-"@ + hex_seq(m.mtime_secs as nat) + "."@ + hex_seq(
        m.mtime_nsecs as nat,
    ) + "\""@
}

/// The `Content-Range` value for the slice `[start, end)` of a file of `n`
/// bytes.
pub open spec fn content_range_of(start: u64, end: u64, n: u64) -> Seq<char>
    recommends
        start < end,
{
    "bytes "@ + dec_seq(start as nat) + "-"@ + dec_seq((end - 1) as nat) + "/"@ + dec_seq(n as nat)
}

/// Renders the `Cache-Control` value.
pub fn cache_control_value(secs: u32) -> (r: String)
    ensures
        r@ == cache_control_of(secs),
{
    let mut r = String::from_str("public, max-age=");
    let d = dec_u64(secs as u64);
    r.append(d.as_str());
    r
}

/// Renders the weak `ETag` value.
pub fn etag_value(m: &FileMeta) -> (r: String)
    ensures
        r@ == etag_of(*m),
{
    let mut r = String::from_str("W/\"");
    let size = hex_u64(m.len);
    r.append(size.as_str());
    r.append("-");
    let secs = hex_u64(m.mtime_secs);
    r.append(secs.as_str());
    r.append(".");
    let nsecs = hex_u64(m.mtime_nsecs as u64);
    r.append(nsecs.as_str());
    r.append("\"");
    r
}

/// Renders the `Content-Range` value for the slice `[start, end)` of a file
/// of `n` bytes.
pub fn content_range_value(start: u64, end: u64, n: u64) -> (r: String)
    requires
        start < end,
    ensures
        r@ == content_range_of(start, end, n),
{
    let mut r = String::from_str("bytes ");
    let s = dec_u64(start);
    r.append(s.as_str());
    r.append("-");
    let e = dec_u64(end - 1);
    r.append(e.as_str());
    r.append("/");
    let total = dec_u64(n);
    r.append(total.as_str());
    r
}

} // verus!
