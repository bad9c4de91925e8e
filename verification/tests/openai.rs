use gamesense::agent::providers::gemini;
use gamesense::agent::providers::openai::{self, extract_json};

#[test]
fn extract_json_strips_markdown_fence() {
    let with_fence = "```json\n{\"key\": \"value\"}\n```";
    assert_eq!(extract_json(with_fence), "{\"key\": \"value\"}");
}

#[test]
fn extract_json_strips_bare_fence() {
    let bare = "```\n{\"key\": 1}\n```";
    assert_eq!(extract_json(bare), "{\"key\": 1}");
}

#[test]
fn extract_json_passthrough_plain_json() {
    let plain = "{\"key\": \"value\"}";
    assert_eq!(extract_json(plain), plain);
}

#[test]
fn parse_error_quotes_the_first_500_bytes() {
    let e = openai::parse_error("expected value", "oops");
    assert_eq!(e.code, "OPENAI_PARSE_FAILED");
    assert_eq!(e.message, "Failed to parse response: expected value. Body: oops");
    let long = "x".repeat(600);
    let e = openai::parse_error("d", &long);
    assert_eq!(e.message, format!("Failed to parse response: d. Body: {}", "x".repeat(500)));
    // 499 ASCII bytes and a two-byte character: the character does not fit.
    let body = format!("{}é tail", "a".repeat(499));
    let e = openai::parse_error("d", &body);
    assert_eq!(e.message, format!("Failed to parse response: d. Body: {}", "a".repeat(499)));
}

#[test]
fn replies_take_the_first_choice() {
    assert_eq!(openai::first_reply(vec!["a".to_string(), "b".to_string()]).unwrap(), "a");
    let e = openai::first_reply(vec![]).unwrap_err();
    assert_eq!((e.code.as_str(), e.message.as_str()), ("OPENAI_EMPTY_RESPONSE", "No response from API"));
    assert_eq!(gemini::first_reply(vec![vec!["p".to_string(), "q".to_string()], vec![]]).unwrap(), "p");
    let e = gemini::first_reply(vec![vec![], vec!["q".to_string()]]).unwrap_err();
    assert_eq!((e.code.as_str(), e.message.as_str()), ("GEMINI_EMPTY_RESPONSE", "No response from Gemini"));
    assert!(gemini::first_reply(vec![]).is_err());
}

#[test]
fn transport_errors_carry_the_cause() {
    let e = openai::request_error("timeout");
    assert_eq!((e.code.as_str(), e.message.as_str()), ("OPENAI_REQUEST_FAILED", "HTTP request failed: timeout"));
    let e = openai::read_error("eof");
    assert_eq!((e.code.as_str(), e.message.as_str()), ("OPENAI_READ_FAILED", "Failed to read response body: eof"));
    let e = gemini::request_error("dns");
    assert_eq!((e.code.as_str(), e.message.as_str()), ("GEMINI_REQUEST_FAILED", "HTTP request failed: dns"));
    let e = gemini::parse_error("bad");
    assert_eq!((e.code.as_str(), e.message.as_str()), ("GEMINI_PARSE_FAILED", "Failed to parse response: bad"));
}
