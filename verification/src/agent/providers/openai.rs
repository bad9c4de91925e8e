// OpenAI-compatible endpoints: URLs, error replies and fenced JSON.
use vstd::prelude::*;

use crate::error::AppError;
use crate::text::{chars_of, rfind, rfind_chars, strip_prefix, strip_prefix_str, string_of, trim, trimmed_chars};

verus! {

/// `s` without any trailing `'/'` (`str::trim_end_matches('/')`).
pub open spec fn trim_slashes(s: Seq<char>) -> Seq<char>
    decreases s.len(),
{
    if s.len() > 0 && s.last() == '/' {
        trim_slashes(s.drop_last())
    } else {
        s
    }
}

/// The chat completions URL under a base URL.
pub fn chat_url(base_url: &str) -> (r: String)
    ensures
        r@ == trim_slashes(base_url@) + "/chat/completions"@,
{
    let v = chars_of(base_url);
    let mut n = v.len();
    proof {
        assert(v@.take(v.len() as int) =~= v@);
    }
    while n > 0 && v[n - 1] == '/'
        invariant
            n <= v.len(),
            trim_slashes(v@) == trim_slashes(v@.take(n as int)),
        decreases n,
    {
        proof {
            assert(v@.take(n as int).drop_last() =~= v@.take(n - 1));
        }
        n = n - 1;
    }
    proof {
        assert(v@.take(v.len() as int) =~= v@);
    }
    let mut s = crate::text::string_of_range(&v, 0, n);
    assert(v@.subrange(0, n as int) =~= v@.take(n as int));
    s.append("/chat/completions");
    s
}

/// The error for a non-success HTTP status: authentication and rate limiting by
/// code, anything else with the status text and response body.
pub open spec fn status_error(e: AppError, code: u16, status_text: Seq<char>, body: Seq<char>) -> bool {
    if code == 401 {
        e.is("OPENAI_AUTH_FAILED"@, "Invalid API key"@, None)
    } else if code == 429 {
        e.is("OPENAI_RATE_LIMITED"@, "Rate limit exceeded, try again later"@, None)
    } else {
        e.is("OPENAI_API_ERROR"@, "API error "@ + status_text + ": "@ + body, None)
    }
}

/// The error reported for an HTTP status that is not a success.
pub fn error_for_status(code: u16, status_text: &str, body: &str) -> (r: AppError)
    ensures
        status_error(r, code, status_text@, body@),
{
    if code == 401 {
        AppError::new("OPENAI_AUTH_FAILED", "Invalid API key")
    } else if code == 429 {
        AppError::new("OPENAI_RATE_LIMITED", "Rate limit exceeded, try again later")
    } else {
        let mut m = String::new();
        m.append("API error ");
        m.append(status_text);
        m.append(": ");
        m.append(body);
        AppError::new("OPENAI_API_ERROR", m.as_str())
    }
}

/// The JSON inside a ```` ```json ```` or ```` ``` ```` fence, else the trimmed text.
pub open spec fn unfenced(content: Seq<char>) -> Seq<char> {
    let t = trim(content);
    let inner = match strip_prefix(t, "```json"@) {
        Some(x) => Some(x),
        None => strip_prefix(t, "```"@),
    };
    match inner {
        Some(x) => match rfind(x, "```"@) {
            Some(end) => trim(x.take(end)),
            None => t,
        },
        None => t,
    }
}

/// Strips the markdown code fence a model may wrap its JSON in.
pub fn extract_json(content: &str) -> (r: String)
    ensures
        r@ == unfenced(content@),
{
    let c = chars_of(content);
    let t = trimmed_chars(&c);
    let inner = match strip_prefix_str(&t, "```json") {
        Some(x) => Some(x),
        None => strip_prefix_str(&t, "```"),
    };
    if let Some(x) = inner {
        let fence = chars_of("```");
        if let Some(end) = rfind_chars(&x, &fence) {
            let head = crate::text::slice_chars(&x, 0, end);
            assert(x@.subrange(0, end as int) =~= x@.take(end as int));
            let inside = trimmed_chars(&head);
            return string_of(inside.as_slice());
        }
    }
    string_of(t.as_slice())
}


/// The `Authorization` header value for an API key.
pub fn bearer(api_key: &str) -> (r: String)
    ensures
        r@ == "Bearer "@ + api_key@,
{
    let mut s = String::new();
    s.append("Bearer ");
    s.append(api_key);
    s
}

/// The data URL that carries a base64 PNG screenshot in a chat message.
pub fn image_data_url(image_base64: &str) -> (r: String)
    ensures
        r@ == "data:image/png;base64,"@ + image_base64@,
{
    let mut s = String::new();
    s.append("data:image/png;base64,");
    s.append(image_base64);
    s
}

/// The error when the request could not be sent.
pub fn request_error(detail: &str) -> (r: AppError)
    ensures
        r.is("OPENAI_REQUEST_FAILED"@, "HTTP request failed: "@ + detail@, None),
{
    crate::command_utils::error_with("OPENAI_REQUEST_FAILED", "HTTP request failed: ", detail)
}

/// The error when the response body could not be read.
pub fn read_error(detail: &str) -> (r: AppError)
    ensures
        r.is("OPENAI_READ_FAILED"@, "Failed to read response body: "@ + detail@, None),
{
    crate::command_utils::error_with("OPENAI_READ_FAILED", "Failed to read response body: ", detail)
}

/// How many bytes UTF-8 takes for a character.
pub open spec fn utf8_len(c: char) -> nat {
    if (c as u32) < 0x80 {
        1
    } else if (c as u32) < 0x800 {
        2
    } else if (c as u32) < 0x10000 {
        3
    } else {
        4
    }
}

/// How many bytes UTF-8 takes for a text.
pub open spec fn utf8_total(s: Seq<char>) -> nat
    decreases s.len(),
{
    if s.len() == 0 {
        0
    } else {
        utf8_total(s.drop_last()) + utf8_len(s.last())
    }
}

/// The quoted part of a body that did not parse: the longest run of its first
/// characters that fits in 500 bytes of UTF-8.
pub open spec fn is_excerpt(e: Seq<char>, body: Seq<char>) -> bool {
    exists|k: int|
        0 <= k <= body.len() && e == #[trigger] body.take(k) && utf8_total(body.take(k)) <= 500
            && (k == body.len() || utf8_total(body.take(k + 1)) > 500)
}

fn char_utf8_len(c: char) -> (r: usize)
    ensures
        r == utf8_len(c),
{
    let n = c as u32;
    if n < 0x80 {
        1
    } else if n < 0x800 {
        2
    } else if n < 0x10000 {
        3
    } else {
        4
    }
}

/// The error when the body is not the expected JSON, quoting its start.
pub fn parse_error(detail: &str, body: &str) -> (r: AppError)
    ensures
        r.code@ == "OPENAI_PARSE_FAILED"@,
        r.details is None,
        exists|e: Seq<char>|
            is_excerpt(e, body@) && r.message@ == "Failed to parse response: "@ + detail@ + ". Body: "@ + e,
{
    let v = chars_of(body);
    let mut k: usize = 0;
    let mut used: usize = 0;
    while k < v.len() && used + char_utf8_len(v[k]) <= 500
        invariant
            k <= v.len(),
            v@ == body@,
            used == utf8_total(v@.take(k as int)),
            used <= 500,
        decreases v.len() - k,
    {
        assert(v@.take(k + 1).drop_last() =~= v@.take(k as int));
        used = used + char_utf8_len(v[k]);
        k = k + 1;
    }
    if k < v.len() {
        assert(v@.take(k + 1).drop_last() =~= v@.take(k as int));
    }
    let e = crate::text::string_of_range(&v, 0, k);
    assert(v@.subrange(0, k as int) =~= v@.take(k as int));
    assert(k == v.len() || utf8_total(body@.take(k + 1)) > 500);
    assert(e@ == body@.take(k as int));
    assert(utf8_total(body@.take(k as int)) <= 500);
    assert(is_excerpt(e@, body@));
    let mut m = String::new();
    m.append("Failed to parse response: ");
    m.append(detail);
    m.append(". Body: ");
    m.append(e.as_str());
    AppError::new("OPENAI_PARSE_FAILED", m.as_str())
}

/// The reply text: the first choice's message, or an error when there is none.
pub fn first_reply(choices: Vec<String>) -> (r: Result<String, AppError>)
    ensures
        choices.len() > 0 ==> (r matches Ok(t) && t@ == choices[0]@),
        choices.len() == 0 ==> (r matches Err(e) && e.is("OPENAI_EMPTY_RESPONSE"@, "No response from API"@, None)),
{
    let mut choices = choices;
    if choices.len() > 0 {
        Ok(choices.swap_remove(0))
    } else {
        Err(AppError::new("OPENAI_EMPTY_RESPONSE", "No response from API"))
    }
}

} // verus!
