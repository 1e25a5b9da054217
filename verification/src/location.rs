use crate::error::Error;
use crate::text::{slice_view, text_result_view};
use reqwest::Url;
use vstd::prelude::*;

verus! {

/// What `Url::path_segments` yields for the URL that `Url::parse` reads from
/// `url`: the segments of its path, in order. Nothing where `url` is no
/// absolute URL, or is one that cannot be a base.
pub uninterp spec fn url_path_segments(url: Seq<char>) -> Option<Seq<Seq<char>>>;

/// Calls `Url::parse` and, on the URL it returns, `Url::path_segments`, and
/// copies the segments out. Where there are segments there is at least one,
/// which may be empty: so the documentation of `path_segments` says.
#[verifier::external_body]
fn path_segments(url: &str) -> (r: Option<Vec<String>>)
    ensures
        r.deep_view() == url_path_segments(url@),
        r matches Some(segments) ==> segments@.len() >= 1,
{
    match Url::parse(url) {
        Ok(parsed) => parsed.path_segments().map(|s| s.map(|p| p.to_string()).collect()),
        Err(_) => None,
    }
}

/// The result identifier that a `Location` header names: the last segment of
/// the path of its URL.
pub open spec fn result_id_of(location: Option<Seq<char>>) -> Result<Seq<char>, Error> {
    match location {
        None => Err(Error::MissingRedirect),
        Some(url) => match url_path_segments(url) {
            None => Err(Error::MissingRedirect),
            Some(segments) => Ok(segments.last()),
        },
    }
}

/// Reads the result identifier off the `Location` header of the answer to a
/// submission. An answer without the header names no result, and neither
/// does a header that holds no URL with a path.
pub fn result_id(location: Option<&str>) -> (r: Result<String, Error>)
    ensures
        text_result_view(r) == result_id_of(slice_view(location)),
{
    match location {
        None => Err(Error::MissingRedirect),
        Some(url) => match path_segments(url) {
            None => Err(Error::MissingRedirect),
            Some(segments) => Ok(segments[segments.len() - 1].clone()),
        },
    }
}

} // verus!
