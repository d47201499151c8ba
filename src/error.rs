//! The ways a request can fail.
use vstd::prelude::*;
use vstd::string::StringExecFns;

verus! {

/// `url::ParseError`, carried by a failed parse of the base address.
#[verifier::external_type_specification]
#[verifier::external_body]
pub struct ExUrlParseError(url::ParseError);

/// `serde_json::Error`, carried by a body that does not decode.
#[verifier::external_type_specification]
#[verifier::external_body]
pub struct ExJsonError(serde_json::Error);

/// `ureq::Error`, carried by a failed blocking request.
#[verifier::external_type_specification]
#[verifier::external_body]
pub struct ExUreqError(ureq::Error);

/// `reqwest::Error`, carried by a failed non-blocking request.
#[verifier::external_type_specification]
#[verifier::external_body]
pub struct ExReqwestError(reqwest::Error);

/// `std::io::Error`, carried by a body that could not be read.
#[verifier::external_type_specification]
#[verifier::external_body]
pub struct ExIoError(std::io::Error);

/// Why a request gave no articles.
#[derive(Debug)]
pub enum NewsApiError {
    /// The blocking transport failed.
    RequestFailed(ureq::Error),
    /// The body is not the expected JSON.
    ParseFailed(serde_json::Error),
    /// The body could not be read.
    ResponseToStringFailed(std::io::Error),
    /// The base address does not parse.
    UrlParseFailed(url::ParseError),
    /// The base address takes no path segments.
    UrlPreparingFailed,
    /// The server refused the request; the message says why.
    BadRequest(String),
    /// The non-blocking transport failed.
    AsyncRequestFailed(reqwest::Error),
}

/// The sentence that describes an error.
pub open spec fn error_text(e: NewsApiError) -> Seq<char> {
    match e {
        NewsApiError::RequestFailed(_) => "Failed to fetch data from API"@,
        NewsApiError::ParseFailed(_) => "Failed to parse data"@,
        NewsApiError::ResponseToStringFailed(_) => "Failed to convert response to string"@,
        NewsApiError::UrlParseFailed(_) => "Failed to parse URL"@,
        NewsApiError::UrlPreparingFailed => "Failed to prepare URL"@,
        NewsApiError::BadRequest(m) => "Bad request: "@ + m@,
        NewsApiError::AsyncRequestFailed(_) => "Failed to make async request"@,
    }
}

impl NewsApiError {
    /// A sentence that describes the error.
    pub fn message(&self) -> (r: String)
        ensures
            r@ == error_text(*self),
    {
        let r = match self {
            NewsApiError::RequestFailed(_) => String::from_str("Failed to fetch data from API"),
            NewsApiError::ParseFailed(_) => String::from_str("Failed to parse data"),
            NewsApiError::ResponseToStringFailed(_) => String::from_str(
                "Failed to convert response to string",
            ),
            NewsApiError::UrlParseFailed(_) => String::from_str("Failed to parse URL"),
            NewsApiError::UrlPreparingFailed => String::from_str("Failed to prepare URL"),
            NewsApiError::BadRequest(m) => String::from_str("Bad request: ").concat(m.as_str()),
            NewsApiError::AsyncRequestFailed(_) => String::from_str(
                "Failed to make async request",
            ),
        };
        r
    }
}

} // verus!
