//! What can go wrong on the caller's side.

use vstd::prelude::*;
use vstd::string::*;
use crate::text::join;

verus! {

/// `reqwest::Error`, carried through without looking inside.
#[verifier::external_type_specification]
#[verifier::external_body]
pub struct ExRequestError(reqwest::Error);

/// Errors of the client.
#[derive(Debug)]
pub enum GlpkError {
    /// The request could not be sent or the response not be read.
    Request(reqwest::Error),
    /// The address of the service is no URL.
    InvalidUrl(String),
    /// The service answered with an error.
    ApiError(String),
    /// The response could not be understood.
    ParseError(String),
    /// The request is incomplete or inconsistent.
    InvalidRequest(String),
    /// The service refused the caller's key.
    AuthenticationFailed,
}

/// Calls `to_string` on a `reqwest::Error`, which writes out its `Display`
/// form. Nothing is claimed of the text.
#[verifier::external_body]
fn request_error_text(error: &reqwest::Error) -> (text: String) {
    error.to_string()
}

impl GlpkError {
    /// How the message of an error begins; for every variant but `Request`
    /// and `AuthenticationFailed` the variant's own text follows.
    pub open spec fn prefix(&self) -> Seq<char> {
        match self {
            GlpkError::Request(_) => "HTTP request failed: "@,
            GlpkError::InvalidUrl(_) => "Invalid URL: "@,
            GlpkError::ApiError(_) => "API error: "@,
            GlpkError::ParseError(_) => "Failed to parse response: "@,
            GlpkError::InvalidRequest(_) => "Invalid request: "@,
            GlpkError::AuthenticationFailed => "Authentication failed"@,
        }
    }

    /// The text that an error carries, where it carries one of its own.
    pub open spec fn detail(&self) -> Option<Seq<char>> {
        match self {
            GlpkError::Request(_) => None,
            GlpkError::InvalidUrl(text) => Some(text@),
            GlpkError::ApiError(text) => Some(text@),
            GlpkError::ParseError(text) => Some(text@),
            GlpkError::InvalidRequest(text) => Some(text@),
            GlpkError::AuthenticationFailed => Some(Seq::empty()),
        }
    }

    /// The message of the error.
    pub fn to_string(&self) -> (message: String)
        ensures
            self.detail() matches Some(text) ==> message@ == self.prefix() + text,
            self is Request ==> self.prefix().is_prefix_of(message@),
    {
        match self {
            GlpkError::Request(error) => {
                let text = request_error_text(error);
                join("HTTP request failed: ", text.as_str())
            },
            GlpkError::InvalidUrl(text) => join("Invalid URL: ", text.as_str()),
            GlpkError::ApiError(text) => join("API error: ", text.as_str()),
            GlpkError::ParseError(text) => join("Failed to parse response: ", text.as_str()),
            GlpkError::InvalidRequest(text) => join("Invalid request: ", text.as_str()),
            GlpkError::AuthenticationFailed => {
                let message = String::from_str("Authentication failed");
                assert(message@ =~= "Authentication failed"@ + Seq::<char>::empty());
                message
            },
        }
    }
}

} // verus!
