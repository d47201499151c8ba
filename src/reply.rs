//! The rules that turn a decoded reply into articles or a typed error.
use vstd::prelude::*;
use vstd::string::StringExecFns;

use crate::article::NewsApiResponse;
use crate::config::NewsApi;
use crate::error::NewsApiError;

verus! {

/// The error code of a reply, as text.
pub open spec fn code_view(code: Option<String>) -> Option<Seq<char>> {
    match code {
        Some(c) => Some(c@),
        None => None,
    }
}

/// The message that stands for an error code of the server; a code that is
/// absent or not known reads "Unknown error".
pub open spec fn message_for(code: Option<Seq<char>>) -> Seq<char> {
    match code {
        Some(c) => if c == "apiKeyDisabled"@ {
            "API key is disabled"@
        } else if c == "apiKeyExhausted"@ {
            "API key has no more requests available"@
        } else if c == "apiKeyInvalid"@ {
            "API key is invalid"@
        } else if c == "apiKeyMissing"@ {
            "API key is missing"@
        } else if c == "parameterInvalid"@ {
            "Parameters are invalid"@
        } else if c == "parametersMissing"@ {
            "Parameters are missing"@
        } else if c == "rateLimited"@ {
            "Request is rate limited"@
        } else {
            "Unknown error"@
        },
        None => "Unknown error"@,
    }
}

/// The outcome of a decoded reply: the reply itself when its status is `ok`,
/// else the server's refusal with the message of its code.
pub open spec fn outcome_ok(response: NewsApiResponse) -> bool {
    response.status@ == "ok"@
}

/// Whether `s` reads as `lit`.
fn reads_as(s: &String, lit: &str) -> (r: bool)
    ensures
        r == (s@ == lit@),
{
    let t = String::from_str(lit);
    *s == t
}

impl NewsApi {
    /// The refusal that stands for an error code of the server.
    pub fn map_response_err(&self, code: Option<String>) -> (r: NewsApiError)
        ensures
            r matches NewsApiError::BadRequest(m) && m@ == message_for(code_view(code)),
    {
        if let Some(code) = code {
            if reads_as(&code, "apiKeyDisabled") {
                return NewsApiError::BadRequest(String::from_str("API key is disabled"));
            }
            if reads_as(&code, "apiKeyExhausted") {
                return NewsApiError::BadRequest(
                    String::from_str("API key has no more requests available"),
                );
            }
            if reads_as(&code, "apiKeyInvalid") {
                return NewsApiError::BadRequest(String::from_str("API key is invalid"));
            }
            if reads_as(&code, "apiKeyMissing") {
                return NewsApiError::BadRequest(String::from_str("API key is missing"));
            }
            if reads_as(&code, "parameterInvalid") {
                return NewsApiError::BadRequest(String::from_str("Parameters are invalid"));
            }
            if reads_as(&code, "parametersMissing") {
                return NewsApiError::BadRequest(String::from_str("Parameters are missing"));
            }
            if reads_as(&code, "rateLimited") {
                return NewsApiError::BadRequest(String::from_str("Request is rate limited"));
            }
            NewsApiError::BadRequest(String::from_str("Unknown error"))
        } else {
            NewsApiError::BadRequest(String::from_str("Unknown error"))
        }
    }

    /// Accepts a reply whose status is `ok`, unchanged; any other status is
    /// the server's refusal, with the message of its code.
    pub fn parse_resp(&self, response: NewsApiResponse) -> (r: Result<
        NewsApiResponse,
        NewsApiError,
    >)
        ensures
            outcome_ok(response) ==> r == Ok::<NewsApiResponse, NewsApiError>(response),
            !outcome_ok(response) ==> (r matches Err(NewsApiError::BadRequest(m)) && m@
                == message_for(code_view(response.code))),
    {
        if reads_as(&response.status, "ok") {
            Ok(response)
        } else {
            Err(self.map_response_err(response.code))
        }
    }

    /// Finishes a request from what decoding its body gave: a body that did
    /// not decode is a `ParseFailed` error carrying the decoder's error, and
    /// a decoded reply goes through `parse_resp`.
    pub fn accept_decoded(&self, decoded: Result<NewsApiResponse, serde_json::Error>) -> (r:
        Result<NewsApiResponse, NewsApiError>)
        ensures
            decoded matches Err(e) ==> r matches Err(NewsApiError::ParseFailed(f)) && f == e,
            decoded matches Ok(resp) ==> (outcome_ok(resp) ==> r == Ok::<
                NewsApiResponse,
                NewsApiError,
            >(resp)),
            decoded matches Ok(resp) ==> (!outcome_ok(resp) ==> (r matches Err(
                NewsApiError::BadRequest(m),
            ) && m@ == message_for(code_view(resp.code)))),
    {
        match decoded {
            Ok(resp) => self.parse_resp(resp),
            Err(e) => Err(NewsApiError::ParseFailed(e)),
        }
    }
}

} // verus!
