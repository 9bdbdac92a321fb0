//! The error every client call returns.

use vstd::prelude::*;
use crate::http::error::HttpError;
use crate::model::error::{ApiError, ApiErrorEnvelope, ModelError};

verus! {

#[verifier::external_type_specification]
#[verifier::external_body]
pub struct ExUrlParseError(url::ParseError);

#[derive(Debug)]
pub enum ClientError {
    ParseJson(serde_json::Error),
    ParseUrl(url::ParseError),
    /// A transport failure, or an error response whose body is not the API's
    /// error envelope.
    Http(Box<HttpError>),
    Io(std::io::Error),
    Model(ModelError),
    /// The API's own error, lifted from the `{ error: { code, message } }`
    /// envelope of an error response.
    Api(ApiError),
    /// The retry budget elapsed.
    Timeout(std::time::Duration),
    MissingCredentials(&'static str),
}

pub type ClientResult<T> = Result<T, ClientError>;

/// The client error for a failed exchange, given what the body of an error
/// response decoded to as the API's error envelope (`None` when it is not
/// one; ignored for other failures).
pub open spec fn client_error_for(err: HttpError, envelope: Option<ApiErrorEnvelope>) -> ClientError {
    match err {
        HttpError::Status { .. } => match envelope {
            Some(env) => ClientError::Api(env.error),
            None => ClientError::Http(Box::new(err)),
        },
        HttpError::Timeout { after } => ClientError::Timeout(after),
        HttpError::Client(_) => ClientError::Http(Box::new(err)),
    }
}

impl ClientError {
    /// Lifts a failed exchange into a client error: an error response whose
    /// body is the API's envelope becomes `Api` with the envelope's error, the
    /// retry budget's expiry becomes `Timeout`, and everything else is kept as
    /// the raw `Http` error. `envelope` is the body decoded as an
    /// `ApiErrorEnvelope`.
    pub fn from_http(err: HttpError, envelope: Option<ApiErrorEnvelope>) -> (r: ClientError)
        ensures
            r == client_error_for(err, envelope),
    {
        match err {
            HttpError::Status { .. } => match envelope {
                Some(env) => ClientError::Api(env.error),
                None => ClientError::Http(Box::new(err)),
            },
            HttpError::Timeout { after } => ClientError::Timeout(after),
            HttpError::Client(_) => ClientError::Http(Box::new(err)),
        }
    }
}

impl From<ModelError> for ClientError {
    fn from(err: ModelError) -> (r: ClientError) {
        ClientError::Model(err)
    }
}

impl vstd::std_specs::convert::FromSpecImpl<ModelError> for ClientError {
    open spec fn obeys_from_spec() -> bool {
        true
    }

    open spec fn from_spec(v: ModelError) -> ClientError {
        ClientError::Model(v)
    }
}

impl From<ApiError> for ClientError {
    fn from(err: ApiError) -> (r: ClientError) {
        ClientError::Api(err)
    }
}

impl vstd::std_specs::convert::FromSpecImpl<ApiError> for ClientError {
    open spec fn obeys_from_spec() -> bool {
        true
    }

    open spec fn from_spec(v: ApiError) -> ClientError {
        ClientError::Api(v)
    }
}

} // verus!
