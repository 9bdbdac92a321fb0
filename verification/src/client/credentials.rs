//! The API key and the headers that every request carries.

use vstd::prelude::*;
use secrecy::{ExposeSecret, Secret};
use crate::client::params::string_text;
use crate::http::headers::Headers;

verus! {

/// An API key held in a `secrecy::Secret<String>`, which keeps it out of debug
/// output and wipes it from memory on drop.
#[verifier::external_body]
#[derive(Debug)]
pub struct SecretText {
    secret: Secret<String>,
}

/// The text a `SecretText` holds.
pub uninterp spec fn secret_text(s: SecretText) -> Seq<char>;

/// Wraps `value` in a `Secret` (`Secret::new`), which holds it unchanged.
#[verifier::external_body]
fn new_secret(value: String) -> (s: SecretText)
    ensures
        secret_text(s) == value@,
{
    SecretText { secret: Secret::new(value) }
}

impl Clone for SecretText {
    /// `Secret::clone`, which copies the held text.
    #[verifier::external_body]
    fn clone(&self) -> (r: Self)
        ensures
            secret_text(r) == secret_text(*self),
    {
        SecretText { secret: self.secret.clone() }
    }
}

impl SecretText {
    /// The held text (`ExposeSecret::expose_secret`).
    #[verifier::external_body]
    pub fn expose_secret(&self) -> (r: &String)
        ensures
            r@ == secret_text(*self),
    {
        self.secret.expose_secret()
    }
}

/// The API key, kept in a `Secret` so it stays out of debug output and is
/// wiped on drop.
#[derive(Debug, Clone)]
pub struct Credentials {
    pub api_key: SecretText,
}

/// Builds `Credentials`: `Credentials::builder().api_key(key).build()`.
pub struct CredentialsBuilder {}

/// A builder that has its API key.
pub struct CredentialsBuilderWithKey {
    api_key: String,
}

impl CredentialsBuilderWithKey {
    /// The API key given to the builder.
    pub closed spec fn key(&self) -> Seq<char> {
        self.api_key@
    }

    /// The credentials, with the key held in a `Secret`.
    pub fn build(self) -> (c: Credentials)
        ensures
            secret_text(c.api_key) == self.key(),
    {
        Credentials { api_key: new_secret(self.api_key) }
    }
}

impl CredentialsBuilder {
    /// Sets the API key.
    pub fn api_key(self, api_key: String) -> (b: CredentialsBuilderWithKey)
        ensures
            b.key() == api_key@,
    {
        CredentialsBuilderWithKey { api_key }
    }
}

/// Header names the client sends.
pub open spec fn authorization_name() -> Seq<char> {
    "Authorization"@
}

pub open spec fn idempotency_key_name() -> Seq<char> {
    "idempotency-key"@
}

pub open spec fn called_reason_name() -> Seq<char> {
    "x-called-reason"@
}

/// The `Authorization` value for an API key: `Bearer <key>`.
pub open spec fn bearer(key: Seq<char>) -> Seq<char> {
    "Bearer "@ + key
}

/// The headers of a request: the bearer token, the caller's idempotency key
/// when one is given, and `x-called-reason` when one is configured.
pub open spec fn request_headers(
    key: Seq<char>,
    idempotency_key: Option<Seq<char>>,
    called_reason: Option<Seq<char>>,
) -> Map<Seq<char>, Seq<char>> {
    let auth = Map::<Seq<char>, Seq<char>>::empty().insert(authorization_name(), bearer(key));
    let with_key = match idempotency_key {
        Some(k) => auth.insert(idempotency_key_name(), k),
        None => auth,
    };
    match called_reason {
        Some(r) => with_key.insert(called_reason_name(), r),
        None => with_key,
    }
}

/// The text of an optional string slice.
pub open spec fn opt_text(s: Option<&str>) -> Option<Seq<char>> {
    match s {
        Some(t) => Some(t@),
        None => None,
    }
}

impl Default for Credentials {
    fn default() -> (c: Self)
        ensures
            secret_text(c.api_key) == Seq::<char>::empty(),
    {
        Credentials { api_key: new_secret(String::new()) }
    }
}

impl Credentials {
    /// The API key's text.
    pub open spec fn key(&self) -> Seq<char> {
        secret_text(self.api_key)
    }

    /// A builder for `Credentials`.
    pub fn builder() -> CredentialsBuilder {
        CredentialsBuilder {  }
    }

    /// The `Authorization: Bearer <key>` header.
    pub fn auth_headers(&self) -> (h: Headers)
        ensures
            h@ == Map::<Seq<char>, Seq<char>>::empty().insert(
                authorization_name(),
                bearer(self.key()),
            ),
    {
        let mut headers = Headers::new();
        let mut value = String::from_str("Bearer ");
        value.append(self.api_key.expose_secret().as_str());
        headers.insert(String::from_str("Authorization"), value);
        headers
    }
}

/// The headers of a request: the auth header, plus the idempotency key when
/// given (re-sent unchanged on every retry) and `x-called-reason` when
/// configured.
pub fn build_headers(
    creds: &Credentials,
    idempotency_key: Option<&str>,
    called_reason: &Option<String>,
) -> (h: Headers)
    ensures
        h@ == request_headers(creds.key(), opt_text(idempotency_key), string_text(*called_reason)),
{
    let mut headers = creds.auth_headers();
    if let Some(key) = idempotency_key {
        headers.insert(String::from_str("idempotency-key"), String::from_str(key));
    }
    if let Some(reason) = called_reason {
        headers.insert(String::from_str("x-called-reason"), reason.clone());
    }
    headers
}

/// The idempotency key rides a request exactly when the caller supplies one,
/// and then unchanged: the client never fabricates one. The bearer token is
/// always present.
pub proof fn lemma_idempotency_key_only_when_given(
    key: Seq<char>,
    idempotency_key: Option<Seq<char>>,
    called_reason: Option<Seq<char>>,
)
    ensures
        request_headers(key, idempotency_key, called_reason).contains_key(idempotency_key_name())
            == idempotency_key is Some,
        idempotency_key matches Some(k) ==> request_headers(key, idempotency_key, called_reason)[
            idempotency_key_name()] == k,
        request_headers(key, idempotency_key, called_reason)[authorization_name()] == bearer(key),
        request_headers(key, idempotency_key, called_reason).contains_key(called_reason_name())
            == called_reason is Some,
{
    reveal_strlit("Authorization");
    reveal_strlit("idempotency-key");
    reveal_strlit("x-called-reason");
    assert(authorization_name() != idempotency_key_name()) by {
        assert(authorization_name()[0] != idempotency_key_name()[0]);
    }
    assert(authorization_name() != called_reason_name()) by {
        assert(authorization_name()[0] != called_reason_name()[0]);
    }
    assert(idempotency_key_name() != called_reason_name()) by {
        assert(idempotency_key_name()[0] != called_reason_name()[0]);
    }
}

} // verus!
