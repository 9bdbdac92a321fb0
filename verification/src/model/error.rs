use vstd::prelude::*;

verus! {

#[verifier::external_type_specification]
#[verifier::external_body]
pub struct ExJsonError(serde_json::Error);

#[verifier::external_type_specification]
#[verifier::external_body]
pub struct ExIoError(std::io::Error);

/// Outer error envelope: `{ "error": { "code": "...", "message": "..." } }`.
#[derive(Debug, Clone)]
pub struct ApiErrorEnvelope {
    pub error: ApiError,
}

/// Body returned by the API on a non-2xx response.
#[derive(Debug, Clone)]
pub struct ApiError {
    pub code: String,
    pub message: String,
}

impl ApiError {
    /// The error as text: `"{code}: {message}"`.
    pub fn display_text(&self) -> (s: String)
        ensures
            s@ == self.code@ + ": "@ + self.message@,
    {
        let mut s = self.code.clone();
        s.append(": ");
        s.append(self.message.as_str());
        s
    }
}

#[derive(Debug)]
pub enum ModelError {
    ParseJson(serde_json::Error),
    Io(std::io::Error),
    /// A request failed client-side validation before being sent.
    Validation(String),
}

pub type ModelResult<T> = Result<T, ModelError>;

} // verus!
