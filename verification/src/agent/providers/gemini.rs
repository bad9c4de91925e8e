// The Gemini API: request URLs and error replies.
use vstd::prelude::*;

use crate::error::AppError;

verus! {

/// The base of Gemini model URLs.
pub open spec fn api_base() -> Seq<char> {
    "https://generativelanguage.googleapis.com/v1beta/models"@
}

/// The `generateContent` URL for a model, authenticated by an API key.
pub fn generate_url(model: &str, api_key: &str) -> (r: String)
    ensures
        r@ == api_base() + "/"@ + model@ + ":generateContent?key="@ + api_key@,
{
    let mut s = String::new();
    s.append("https://generativelanguage.googleapis.com/v1beta/models");
    s.append("/");
    s.append(model);
    s.append(":generateContent?key=");
    s.append(api_key);
    s
}

/// The error for a non-success HTTP status: authentication and rate limiting by
/// code, anything else with the status text and response body.
pub open spec fn status_error(e: AppError, code: u16, status_text: Seq<char>, body: Seq<char>) -> bool {
    if code == 401 {
        e.is("GEMINI_AUTH_FAILED"@, "Invalid API key"@, None)
    } else if code == 429 {
        e.is("GEMINI_RATE_LIMITED"@, "Rate limit exceeded, try again later"@, None)
    } else {
        e.is("GEMINI_API_ERROR"@, "API error "@ + status_text + ": "@ + body, None)
    }
}

/// The error reported for an HTTP status that is not a success.
pub fn error_for_status(code: u16, status_text: &str, body: &str) -> (r: AppError)
    ensures
        status_error(r, code, status_text@, body@),
{
    if code == 401 {
        AppError::new("GEMINI_AUTH_FAILED", "Invalid API key")
    } else if code == 429 {
        AppError::new("GEMINI_RATE_LIMITED", "Rate limit exceeded, try again later")
    } else {
        let mut m = String::new();
        m.append("API error ");
        m.append(status_text);
        m.append(": ");
        m.append(body);
        AppError::new("GEMINI_API_ERROR", m.as_str())
    }
}

/// The error when the request could not be sent.
pub fn request_error(detail: &str) -> (r: AppError)
    ensures
        r.is("GEMINI_REQUEST_FAILED"@, "HTTP request failed: "@ + detail@, None),
{
    crate::command_utils::error_with("GEMINI_REQUEST_FAILED", "HTTP request failed: ", detail)
}

/// The error when the response is not the expected JSON.
pub fn parse_error(detail: &str) -> (r: AppError)
    ensures
        r.is("GEMINI_PARSE_FAILED"@, "Failed to parse response: "@ + detail@, None),
{
    crate::command_utils::error_with("GEMINI_PARSE_FAILED", "Failed to parse response: ", detail)
}

/// The reply text: the first part of the first candidate, given the texts of
/// each candidate's parts, or an error when there is none.
pub fn first_reply(candidates: Vec<Vec<String>>) -> (r: Result<String, AppError>)
    ensures
        candidates.len() > 0 && candidates[0].len() > 0 ==> (r matches Ok(t) && t@ == candidates[0][0]@),
        !(candidates.len() > 0 && candidates[0].len() > 0) ==> (r matches Err(e) && e.is(
            "GEMINI_EMPTY_RESPONSE"@,
            "No response from Gemini"@,
            None,
        )),
{
    let mut candidates = candidates;
    if candidates.len() > 0 {
        let mut parts = candidates.swap_remove(0);
        if parts.len() > 0 {
            return Ok(parts.swap_remove(0));
        }
    }
    Err(AppError::new("GEMINI_EMPTY_RESPONSE", "No response from Gemini"))
}

} // verus!
