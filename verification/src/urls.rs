//! The redirect target for a directory requested without a trailing slash,
//! through the `url` crate.

use crate::request::opt_view;
use vstd::prelude::*;

verus! {

/// The URL `u` with one empty path segment appended, which serializes as the
/// same URL with a trailing slash; `None` when `u` is not an absolute URL
/// whose path has segments.
pub uninterp spec fn slashed_url_of(u: Seq<char>) -> Option<Seq<char>>;

/// Relies on url::Url::parse and url::PathSegmentsMut::push: pushing the
/// empty segment appends `/` to the serialized path; the result is a
/// function of the string alone. `parse` fails on a relative URL, and
/// `path_segments_mut` on a cannot-be-a-base URL.
#[verifier::external_body]
pub(crate) fn with_trailing_slash(u: &str) -> (r: Option<String>)
    ensures
        opt_view(r) == slashed_url_of(u@),
{
    match url::Url::parse(u) {
        Ok(mut parsed) => {
            match parsed.path_segments_mut() {
                Ok(mut segments) => {
                    segments.push("");
                },
                Err(()) => {
                    return None;
                },
            }
            Some(String::from(parsed))
        },
        Err(_) => None,
    }
}

} // verus!
