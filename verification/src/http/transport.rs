//! Construction of the underlying `reqwest` HTTP client.

use vstd::prelude::*;

verus! {

#[verifier::external_type_specification]
#[verifier::external_body]
pub struct ExReqwestClient(reqwest::Client);

#[verifier::external_type_specification]
#[verifier::external_body]
pub struct ExReqwestClientBuilder(reqwest::ClientBuilder);

#[verifier::external_type_specification]
#[verifier::external_body]
pub struct ExReqwestError(reqwest::Error);

/// Per-request timeout of the underlying client, in seconds.
pub const REQUEST_TIMEOUT_SECS: u64 = 30;

/// The `User-Agent` the client sends.
pub const USER_AGENT: &'static str = "sequence-rs/0.1.0";

/// The total per-request timeout a builder is configured with, in whole
/// seconds (`None`: no timeout).
pub uninterp spec fn builder_timeout(b: reqwest::ClientBuilder) -> Option<u64>;

/// The `User-Agent` header a builder is configured with.
pub uninterp spec fn builder_user_agent(b: reqwest::ClientBuilder) -> Option<Seq<char>>;

/// The total per-request timeout of a client, in whole seconds.
pub uninterp spec fn client_timeout(c: reqwest::Client) -> Option<u64>;

/// The `User-Agent` header a client sends.
pub uninterp spec fn client_user_agent(c: reqwest::Client) -> Option<Seq<char>>;

/// Text that `http::HeaderValue` accepts from a `&str`: no control character
/// other than a tab, and no DEL.
pub open spec fn header_value_allowed(s: Seq<char>) -> bool {
    forall|i: int|
        0 <= i < s.len() ==> ((#[trigger] s[i] as u32) >= 32 && (s[i] as u32) != 127) || s[i]
            == '\t'
}

/// `reqwest::ClientBuilder::new`.
#[verifier::external_body]
fn client_builder() -> reqwest::ClientBuilder {
    reqwest::ClientBuilder::new()
}

/// `reqwest::ClientBuilder::timeout`, with the timeout in whole seconds: it
/// sets the timeout and leaves the rest of the configuration as it was.
#[verifier::external_body]
fn with_timeout(builder: reqwest::ClientBuilder, secs: u64) -> (r: reqwest::ClientBuilder)
    ensures
        builder_timeout(r) == Some(secs),
        builder_user_agent(r) == builder_user_agent(builder),
{
    builder.timeout(std::time::Duration::from_secs(secs))
}

/// `reqwest::ClientBuilder::user_agent`: a value `http::HeaderValue` accepts
/// becomes the `User-Agent` header (another records an error that `build`
/// reports); the timeout is left as it was.
#[verifier::external_body]
fn with_user_agent(builder: reqwest::ClientBuilder, agent: &'static str) -> (r:
    reqwest::ClientBuilder)
    ensures
        builder_timeout(r) == builder_timeout(builder),
        header_value_allowed(agent@) ==> builder_user_agent(r) == Some(agent@),
{
    builder.user_agent(agent)
}

/// `reqwest::ClientBuilder::build`, which fails when the TLS backend cannot
/// be initialized, the resolver cannot load the system configuration, or the
/// builder recorded an error; a client it builds keeps the builder's timeout
/// and default headers.
#[verifier::external_body]
fn build(builder: reqwest::ClientBuilder) -> (r: Result<reqwest::Client, reqwest::Error>)
    ensures
        r matches Ok(c) ==> client_timeout(c) == builder_timeout(builder)
            && client_user_agent(c) == builder_user_agent(builder),
{
    builder.build()
}

/// The HTTP client every request goes through: a 30 s per-request timeout and
/// the library's `User-Agent`. Building can fail for reasons of the machine
/// (TLS backend, resolver configuration).
pub fn build_client() -> (r: Result<reqwest::Client, reqwest::Error>)
    ensures
        r matches Ok(c) ==> client_timeout(c) == Some(REQUEST_TIMEOUT_SECS)
            && client_user_agent(c) == Some(USER_AGENT@),
{
    let builder = client_builder();
    let builder = with_timeout(builder, REQUEST_TIMEOUT_SECS);
    proof {
        reveal_strlit("sequence-rs/0.1.0");
        assert(header_value_allowed(USER_AGENT@));
    }
    let builder = with_user_agent(builder, USER_AGENT);
    build(builder)
}

} // verus!
