//! Conditional-GET freshness: whether the client's cached copy, dated by its
//! `If-Modified-Since` header, is still current for a file's modification
//! time.

use crate::httpdates::http_date_secs_of;
use crate::httpdates::parse_http_date_secs;
use crate::request::opt_view;
use vstd::prelude::*;

verus! {

/// Whether a copy dated by the `If-Modified-Since` value `ims` is still
/// current for a file last modified at `mtime_secs` (one-second resolution):
/// the header is present, denotes a date, and the file is not newer. A
/// missing or undecodable header is never fresh.
pub open spec fn is_fresh(ims: Option<Seq<char>>, mtime_secs: u64) -> bool {
    match ims {
        None => false,
        Some(s) => match http_date_secs_of(s) {
            None => false,
            Some(t) => mtime_secs <= t,
        },
    }
}

/// Decides freshness for a request's `If-Modified-Since` header.
pub fn check_fresh(ims: &Option<String>, mtime_secs: u64) -> (r: bool)
    ensures
        r == is_fresh(opt_view(*ims), mtime_secs),
{
    match ims {
        None => false,
        Some(s) => {
            match parse_http_date_secs(s.as_str()) {
                None => false,
                Some(t) => mtime_secs <= t,
            }
        },
    }
}

} // verus!
