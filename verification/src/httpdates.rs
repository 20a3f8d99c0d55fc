//! HTTP-date strings (`Last-Modified`, `If-Modified-Since`), through the
//! `httpdate` crate.

use vstd::prelude::*;

verus! {

/// The IMF-fixdate rendering of the time `secs` whole seconds after the Unix
/// epoch, for times before the year 9999.
pub uninterp spec fn http_date_of(secs: u64) -> Seq<char>;

/// The whole seconds after the Unix epoch that the HTTP-date string `s`
/// denotes, or `None` when `s` is not an HTTP-date.
pub uninterp spec fn http_date_secs_of(s: Seq<char>) -> Option<u64>;

/// Relies on httpdate::fmt_http_date: renders the time as an IMF-fixdate
/// string, a function of the whole seconds alone; it refuses times from the
/// year 9999 on. The second clause relies on httpdate::parse_http_date
/// reading an IMF-fixdate back: the crate's `HttpDate` validates itself by
/// round-tripping through `SystemTime`, so formatting then parsing returns
/// the seconds unchanged.
#[verifier::external_body]
pub(crate) fn format_http_date(secs: u64) -> (r: String)
    requires
        secs <= crate::fs::HTTP_DATE_MAX_SECS,
    ensures
        r@ == http_date_of(secs),
        http_date_secs_of(r@) == Some(secs),
{
    httpdate::fmt_http_date(std::time::UNIX_EPOCH + std::time::Duration::from_secs(secs))
}

/// Relies on httpdate::parse_http_date: parses the IMF-fixdate and the two
/// legacy HTTP-date forms, a function of the string alone; every accepted
/// date falls at or after the Unix epoch.
#[verifier::external_body]
pub(crate) fn parse_http_date_secs(s: &str) -> (r: Option<u64>)
    ensures
        r == http_date_secs_of(s@),
{
    match httpdate::parse_http_date(s) {
        Ok(t) => match t.duration_since(std::time::UNIX_EPOCH) {
            Ok(d) => Some(d.as_secs()),
            Err(_) => None,
        },
        Err(_) => None,
    }
}

} // verus!
