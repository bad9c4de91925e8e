// Vision and text model providers: choosing the endpoint and reading replies.
use vstd::prelude::*;

use crate::error::AppError;

use crate::text::{chars_of, trim, trim_bounds};

pub mod gemini;
pub mod openai;

verus! {

/// The scan of `extract_json` from index `i`: `start` is where the current
/// top-level object began and `depth` how deep its braces are nested. A `}` at
/// depth 0 closes nothing and is passed over; the depth never goes below 0.
pub open spec fn json_scan(s: Seq<char>, i: int, start: Option<int>, depth: nat) -> Option<(int, int)>
    decreases s.len() - i,
{
    if i < 0 || i >= s.len() {
        None
    } else if s[i] == '{' {
        json_scan(s, i + 1, if depth == 0 { Some(i) } else { start }, depth + 1)
    } else if s[i] == '}' {
        if depth == 0 {
            json_scan(s, i + 1, start, 0)
        } else if depth == 1 && start is Some {
            Some((start->0, i))
        } else {
            json_scan(s, i + 1, start, (depth - 1) as nat)
        }
    } else {
        json_scan(s, i + 1, start, depth)
    }
}

/// The first complete `{...}` object of `s`, the one whose braces first balance
/// after a `{` opened at depth 0; else `s` trimmed.
pub open spec fn extracted_json(s: Seq<char>) -> Seq<char> {
    match json_scan(s, 0, None, 0) {
        Some((a, b)) => s.subrange(a, b + 1),
        None => trim(s),
    }
}

/// Scanning `s` behind a prefix `p` is scanning `s` alone, with every index
/// moved by the prefix's length.
pub proof fn lemma_scan_shift(p: Seq<char>, s: Seq<char>, i: int, start: Option<int>, depth: nat)
    requires
        0 <= i,
    ensures
        json_scan(p + s, p.len() + i, match start {
            Some(a) => Some(a + p.len()),
            None => None,
        }, depth) == match json_scan(s, i, start, depth) {
            Some((a, b)) => Some((a + p.len(), b + p.len())),
            None => None,
        },
    decreases s.len() - i,
{
    if i < s.len() {
        assert((p + s)[p.len() + i] == s[i]);
        let c = s[i];
        if c == '{' {
            lemma_scan_shift(p, s, i + 1, if depth == 0 { Some(i) } else { start }, depth + 1);
        } else if c == '}' {
            if depth == 0 {
                lemma_scan_shift(p, s, i + 1, start, 0);
            } else if !(depth == 1 && start is Some) {
                lemma_scan_shift(p, s, i + 1, start, (depth - 1) as nat);
            }
        } else {
            lemma_scan_shift(p, s, i + 1, start, depth);
        }
    }
}

/// A found object lies inside the text.
pub proof fn lemma_scan_bounds(s: Seq<char>, i: int, start: Option<int>, depth: nat)
    requires
        0 <= i,
        start matches Some(st) ==> 0 <= st < i,
    ensures
        json_scan(s, i, start, depth) matches Some((a, b)) ==> 0 <= a <= b < s.len(),
    decreases s.len() - i,
{
    if i < s.len() {
        let c = s[i];
        if c == '{' {
            lemma_scan_bounds(s, i + 1, if depth == 0 { Some(i) } else { start }, depth + 1);
        } else if c == '}' {
            if depth == 0 {
                lemma_scan_bounds(s, i + 1, start, 0);
            } else if !(depth == 1 && start is Some) {
                lemma_scan_bounds(s, i + 1, start, (depth - 1) as nat);
            }
        } else {
            lemma_scan_bounds(s, i + 1, start, depth);
        }
    }
}

/// Text without an opening brace passes the scan over, whatever it holds.
pub proof fn lemma_scan_skips_braceless(p: Seq<char>, s: Seq<char>, i: int)
    requires
        0 <= i <= p.len(),
        forall|k: int| 0 <= k < p.len() ==> p[k] != '{',
    ensures
        json_scan(p + s, i, None, 0) == json_scan(p + s, p.len() as int, None, 0),
    decreases p.len() - i,
{
    if i < p.len() {
        assert((p + s)[i] == p[i]);
        lemma_scan_skips_braceless(p, s, i + 1);
    }
}

/// Prose before the object does not change which object is found: text
/// without a `{` (stray `}` included) in front of a text that holds a complete
/// object leaves that object the one extracted.
pub proof fn law_leading_prose_is_skipped(p: Seq<char>, s: Seq<char>)
    requires
        forall|k: int| 0 <= k < p.len() ==> p[k] != '{',
        json_scan(s, 0, None, 0) is Some,
    ensures
        extracted_json(p + s) == extracted_json(s),
{
    lemma_scan_skips_braceless(p, s, 0);
    lemma_scan_shift(p, s, 0, None, 0);
    lemma_scan_bounds(s, 0, None, 0);
    let (a, b) = json_scan(s, 0, None, 0)->0;
    assert((p + s).subrange(a + p.len(), b + 1 + p.len()) =~= s.subrange(a, b + 1));
}

/// Extracts the first complete JSON object from model output that may hold code
/// fences, prose or further objects, by counting brace depth.
pub fn extract_json(text: &str) -> (r: &str)
    ensures
        r@ == extracted_json(text@),
{
    let chars = chars_of(text);
    let mut start: Option<usize> = None;
    let mut depth: usize = 0;
    let mut i: usize = 0;
    while i < chars.len()
        invariant
            i <= chars.len(),
            chars@ == text@,
            depth <= i,
            start matches Some(st) ==> st < i,
            json_scan(text@, 0, None, 0) == json_scan(
                text@,
                i as int,
                match start {
                    Some(st) => Some(st as int),
                    None => None,
                },
                depth as nat,
            ),
        decreases chars.len() - i,
    {
        let c = chars[i];
        if c == '{' {
            if depth == 0 {
                start = Some(i);
            }
            depth = depth + 1;
        } else if c == '}' && depth > 0 {
            depth = depth - 1;
            if depth == 0 {
                if let Some(s) = start {
                    return text.substring_char(s, i + 1);
                }
            }
        }
        i = i + 1;
    }
    let (a, b) = trim_bounds(&chars);
    text.substring_char(a, b)
}

/// Which provider answers a request.
pub enum Provider {
    /// The Gemini API.
    Gemini,
    /// An OpenAI-compatible endpoint at this base URL.
    OpenAi(String),
}

/// The provider for an optional base URL: an OpenAI-compatible endpoint when a
/// non-empty URL is given, else Gemini.
pub fn select_provider(base_url: Option<&str>) -> (r: Provider)
    ensures
        match base_url {
            Some(u) if u@.len() > 0 => r matches Provider::OpenAi(url) && url@ == u@,
            _ => r is Gemini,
        },
{
    match base_url {
        Some(url) => {
            if url.is_empty() {
                Provider::Gemini
            } else {
                Provider::OpenAi(url.to_string())
            }
        },
        None => Provider::Gemini,
    }
}


/// The model's structured reading of the screen.
pub struct ScreenAnalysis {
    pub tutorial_indicator: Option<String>,
    pub interactive_elements: Vec<String>,
    /// `tutorial`, `playing`, `menu`, `game_over` or `won`.
    pub game_state: String,
}

/// The error for a reply that is not the expected JSON, quoting the parser's
/// complaint and the raw reply.
pub fn invalid_json_error(detail: &str, raw: &str) -> (r: AppError)
    ensures
        r.is("API_JSON_PARSE_FAILED"@, "Invalid JSON from API: "@ + detail@ + ". Raw: "@ + raw@, None),
{
    let mut m = String::new();
    m.append("Invalid JSON from API: ");
    m.append(detail);
    m.append(". Raw: ");
    m.append(raw);
    AppError::new("API_JSON_PARSE_FAILED", m.as_str())
}

} // verus!
