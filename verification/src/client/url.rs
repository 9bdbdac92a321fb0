//! Endpoint URLs: the configured base URL with the endpoint's path segments
//! appended, each percent-encoded.

use vstd::prelude::*;
use crate::client::error::{ClientError, ClientResult};

verus! {

/// Production base URL (the API's `production` server).
pub const DEFAULT_API_BASE_URL: &'static str = "https://api.getsequence.io/platform/v1/";

/// Why the `url` crate could not produce an endpoint URL.
#[derive(Debug)]
pub enum UrlJoinError {
    /// The base URL does not parse.
    Parse(url::ParseError),
    /// The base URL parses but cannot be a base (it has no hierarchical path).
    NotABase,
}

/// What the `url` crate makes of a base URL and path segments: `None` when
/// the base does not parse, `Some(None)` when it cannot be a base, and
/// `Some(Some(u))` with the serialized URL `u` otherwise.
pub uninterp spec fn endpoint_url(base: Seq<char>, segments: Seq<Seq<char>>) -> Option<Option<Seq<char>>>;

pub open spec fn segment_texts(segments: Seq<&str>) -> Seq<Seq<char>> {
    segments.map_values(|s: &str| s@)
}

/// Parses `base` (`url::Url::parse`), drops a trailing empty path segment
/// (`PathSegmentsMut::pop_if_empty`), appends `segments` percent-encoded
/// (`PathSegmentsMut::extend`) and serializes the result. The serialized URL
/// is a function of the two inputs, named `endpoint_url`.
#[verifier::external_body]
fn join_url(base: &str, segments: &[&str]) -> (r: Result<String, UrlJoinError>)
    ensures
        match endpoint_url(base@, segment_texts(segments@)) {
            None => r matches Err(UrlJoinError::Parse(_)),
            Some(None) => r matches Err(UrlJoinError::NotABase),
            Some(Some(u)) => r matches Ok(s) && s@ == u,
        },
{
    let mut url = url::Url::parse(base).map_err(UrlJoinError::Parse)?;
    url.path_segments_mut().map_err(|_| UrlJoinError::NotABase)?.pop_if_empty().extend(segments);
    Ok(url.into())
}

/// The absolute URL of an endpoint: `segments` appended to `base`, each
/// percent-encoded. An unparsable base is a `ParseUrl` error; `None` when the
/// base parses but cannot be a base URL (not http/https-like), which the
/// caller treats as a configuration bug.
pub fn api_url(base: &str, segments: &[&str]) -> (r: Option<ClientResult<String>>)
    ensures
        match endpoint_url(base@, segment_texts(segments@)) {
            None => r matches Some(Err(ClientError::ParseUrl(_))),
            Some(None) => r is None,
            Some(Some(u)) => r matches Some(Ok(s)) && s@ == u,
        },
{
    match join_url(base, segments) {
        Ok(u) => Some(Ok(u)),
        Err(UrlJoinError::Parse(e)) => Some(Err(ClientError::ParseUrl(e))),
        Err(UrlJoinError::NotABase) => None,
    }
}

} // verus!
