// Character-level text primitives shared by the parsers and builders.
//
// Every operation works on the Unicode scalar values of a string (`Seq<char>`),
// which is how the standard library's `str` methods behave for the patterns the
// library uses (whitespace, single characters, whole substrings).
use vstd::prelude::*;

verus! {

// ---------------------------------------------------------------------------
// Whitespace and trimming
// ---------------------------------------------------------------------------

/// The Unicode `White_Space` property, which is what `char::is_whitespace` tests.
pub open spec fn is_ws(c: char) -> bool {
    ||| ('\u{9}' <= c && c <= '\u{d}')
    ||| c == ' '
    ||| c == '\u{85}'
    ||| c == '\u{a0}'
    ||| c == '\u{1680}'
    ||| ('\u{2000}' <= c && c <= '\u{200a}')
    ||| c == '\u{2028}'
    ||| c == '\u{2029}'
    ||| c == '\u{202f}'
    ||| c == '\u{205f}'
    ||| c == '\u{3000}'
}

pub fn is_whitespace(c: char) -> (r: bool)
    ensures
        r == is_ws(c),
{
    ('\u{9}' <= c && c <= '\u{d}') || c == ' ' || c == '\u{85}' || c == '\u{a0}' || c
        == '\u{1680}' || ('\u{2000}' <= c && c <= '\u{200a}') || c == '\u{2028}' || c
        == '\u{2029}' || c == '\u{202f}' || c == '\u{205f}' || c == '\u{3000}'
}

/// `s` with its leading whitespace removed (`str::trim_start`).
pub open spec fn trim_start(s: Seq<char>) -> Seq<char>
    decreases s.len(),
{
    if s.len() > 0 && is_ws(s[0]) {
        trim_start(s.drop_first())
    } else {
        s
    }
}

/// `s` with its trailing whitespace removed (`str::trim_end`).
pub open spec fn trim_end(s: Seq<char>) -> Seq<char>
    decreases s.len(),
{
    if s.len() > 0 && is_ws(s.last()) {
        trim_end(s.drop_last())
    } else {
        s
    }
}

/// `str::trim`: leading and trailing whitespace removed.
pub open spec fn trim(s: Seq<char>) -> Seq<char> {
    trim_end(trim_start(s))
}

pub proof fn lemma_trim_start_skip(s: Seq<char>, i: int)
    requires
        0 <= i <= s.len(),
        forall|k: int| 0 <= k < i ==> is_ws(#[trigger] s[k]),
    ensures
        trim_start(s) == trim_start(s.skip(i)),
    decreases i,
{
    if i > 0 {
        assert(s.skip(1) =~= s.drop_first());
        lemma_trim_start_skip(s.drop_first(), i - 1);
        assert(s.drop_first().skip(i - 1) =~= s.skip(i));
    } else {
        assert(s.skip(0) =~= s);
    }
}

pub proof fn lemma_trim_end_take(s: Seq<char>, j: int)
    requires
        0 <= j <= s.len(),
        forall|k: int| j <= k < s.len() ==> is_ws(#[trigger] s[k]),
    ensures
        trim_end(s) == trim_end(s.take(j)),
    decreases s.len() - j,
{
    if j < s.len() {
        assert(s.take(s.len() - 1) =~= s.drop_last());
        lemma_trim_end_take(s.drop_last(), j);
        assert(s.drop_last().take(j) =~= s.take(j));
    } else {
        assert(s.take(j) =~= s);
    }
}

pub proof fn lemma_trim_start_len(s: Seq<char>)
    ensures
        trim_start(s).len() <= s.len(),
        trim_start(s).len() == 0 || !is_ws(trim_start(s)[0]),
        trim_start(s) == s.skip(s.len() - trim_start(s).len()),
    decreases s.len(),
{
    if s.len() > 0 && is_ws(s[0]) {
        lemma_trim_start_len(s.drop_first());
        assert(s.drop_first().skip(s.drop_first().len() - trim_start(s).len()) =~= s.skip(
            s.len() - trim_start(s).len(),
        ));
    } else {
        assert(s.skip(0) =~= s);
    }
}

pub proof fn lemma_trim_end_len(s: Seq<char>)
    ensures
        trim_end(s).len() <= s.len(),
        trim_end(s).len() == 0 || !is_ws(trim_end(s).last()),
        trim_end(s) == s.take(trim_end(s).len() as int),
    decreases s.len(),
{
    if s.len() > 0 && is_ws(s.last()) {
        lemma_trim_end_len(s.drop_last());
        assert(s.drop_last().take(trim_end(s).len() as int) =~= s.take(
            trim_end(s).len() as int,
        ));
    } else {
        assert(s.take(s.len() as int) =~= s);
    }
}

/// Trimming twice is trimming once.
pub proof fn lemma_trim_idempotent(s: Seq<char>)
    ensures
        trim(trim(s)) == trim(s),
{
    let u = trim_start(s);
    let t = trim_end(u);
    lemma_trim_start_len(s);
    lemma_trim_end_len(u);
    if t.len() > 0 {
        assert(t[0] == u[0]);
    }
    assert(trim_start(t) == t);
    lemma_trim_end_len(t);
    assert(trim_end(t) == t);
}

/// The subrange `[start, end)` of `s` that `trim` keeps.
pub fn trim_bounds(s: &Vec<char>) -> (r: (usize, usize))
    ensures
        r.0 <= r.1 <= s.len(),
        trim(s@) == s@.subrange(r.0 as int, r.1 as int),
{
    let mut i: usize = 0;
    while i < s.len() && is_whitespace(s[i])
        invariant
            i <= s.len(),
            forall|k: int| 0 <= k < i ==> is_ws(#[trigger] s@[k]),
        decreases s.len() - i,
    {
        i = i + 1;
    }
    proof {
        lemma_trim_start_skip(s@, i as int);
        let t = s@.skip(i as int);
        assert(t.len() == 0 || !is_ws(t[0]));
        assert(trim_start(t) == t);
    }
    let mut j: usize = s.len();
    while j > i && is_whitespace(s[j - 1])
        invariant
            i <= j <= s.len(),
            forall|k: int| j <= k < s.len() ==> is_ws(#[trigger] s@[k]),
        decreases j,
    {
        j = j - 1;
    }
    proof {
        let t = s@.skip(i as int);
        let jj = j - i;
        assert forall|k: int| jj <= k < t.len() implies is_ws(#[trigger] t[k]) by {
            assert(t[k] == s@[k + i]);
        }
        lemma_trim_end_take(t, jj);
        let u = t.take(jj);
        assert(u =~= s@.subrange(i as int, j as int));
        if u.len() > 0 {
            assert(u.last() == s@[j - 1]);
        }
        assert(trim_end(u) == u);
    }
    (i, j)
}

// ---------------------------------------------------------------------------
// Conversions between strings and character vectors
// ---------------------------------------------------------------------------

/// Appends one character to a string (`String::push`).
#[verifier::external_body]
pub(crate) fn push_char(s: &mut String, c: char)
    ensures
        final(s)@ == old(s)@.push(c),
{
    s.push(c);
}

pub fn chars_of(s: &str) -> (r: Vec<char>)
    ensures
        r@ == s@,
{
    let mut v: Vec<char> = Vec::new();
    for c in it: s.chars()
        invariant
            v@ == it.seq().take(it.index()),
            it.seq() == s@,
    {
        v.push(c);
    }
    v
}

pub fn string_of(v: &[char]) -> (r: String)
    ensures
        r@ == v@,
{
    let mut s = String::new();
    let mut i: usize = 0;
    while i < v.len()
        invariant
            i <= v.len(),
            s@ == v@.take(i as int),
        decreases v.len() - i,
    {
        push_char(&mut s, v[i]);
        i = i + 1;
        assert(s@ =~= v@.take(i as int));
    }
    assert(v@.take(v.len() as int) =~= v@);
    s
}

pub fn string_of_range(v: &Vec<char>, start: usize, end: usize) -> (r: String)
    requires
        start <= end <= v.len(),
    ensures
        r@ == v@.subrange(start as int, end as int),
{
    let mut s = String::new();
    let mut i: usize = start;
    while i < end
        invariant
            start <= i <= end <= v.len(),
            s@ == v@.subrange(start as int, i as int),
        decreases end - i,
    {
        push_char(&mut s, v[i]);
        i = i + 1;
        assert(s@ =~= v@.subrange(start as int, i as int));
    }
    s
}

/// `str::trim` as a new string.
pub fn trimmed(s: &str) -> (r: String)
    ensures
        r@ == trim(s@),
{
    let v = chars_of(s);
    let (a, b) = trim_bounds(&v);
    string_of_range(&v, a, b)
}

/// `str::trim` on a character vector.
pub fn trimmed_chars(v: &Vec<char>) -> (r: Vec<char>)
    ensures
        r@ == trim(v@),
{
    let (a, b) = trim_bounds(v);
    slice_chars(v, a, b)
}

pub fn slice_chars(v: &Vec<char>, start: usize, end: usize) -> (r: Vec<char>)
    requires
        start <= end <= v.len(),
    ensures
        r@ == v@.subrange(start as int, end as int),
{
    let mut out: Vec<char> = Vec::new();
    let mut i: usize = start;
    while i < end
        invariant
            start <= i <= end <= v.len(),
            out@ == v@.subrange(start as int, i as int),
        decreases end - i,
    {
        out.push(v[i]);
        i = i + 1;
        assert(out@ =~= v@.subrange(start as int, i as int));
    }
    out
}

pub fn append_chars(s: &mut String, v: &Vec<char>)
    ensures
        final(s)@ == old(s)@ + v@,
{
    let mut i: usize = 0;
    while i < v.len()
        invariant
            i <= v.len(),
            s@ == old(s)@ + v@.take(i as int),
        decreases v.len() - i,
    {
        push_char(s, v[i]);
        i = i + 1;
        assert(s@ =~= old(s)@ + v@.take(i as int));
    }
    assert(v@.take(v.len() as int) =~= v@);
}

/// Two character vectors hold the same characters.
pub fn chars_eq(a: &Vec<char>, b: &Vec<char>) -> (r: bool)
    ensures
        r == (a@ == b@),
{
    if a.len() != b.len() {
        return false;
    }
    let mut i: usize = 0;
    while i < a.len()
        invariant
            a.len() == b.len(),
            i <= a.len(),
            forall|k: int| 0 <= k < i ==> a@[k] == b@[k],
        decreases a.len() - i,
    {
        if a[i] != b[i] {
            return false;
        }
        i = i + 1;
    }
    assert(a@ =~= b@);
    true
}

/// A character vector holds exactly the characters of `lit`.
pub fn chars_eq_str(a: &Vec<char>, lit: &str) -> (r: bool)
    ensures
        r == (a@ == lit@),
{
    let b = chars_of(lit);
    chars_eq(a, &b)
}

// ---------------------------------------------------------------------------
// Splitting
// ---------------------------------------------------------------------------

/// The pieces of `s` between the characters that satisfy `p` (`str::split` with a
/// character predicate). There is always one more piece than separators.
pub open spec fn split_by(s: Seq<char>, p: spec_fn(char) -> bool) -> Seq<Seq<char>>
    decreases s.len(),
{
    if s.len() == 0 {
        seq![Seq::<char>::empty()]
    } else {
        let rest = split_by(s.drop_first(), p);
        if p(s[0]) {
            seq![Seq::<char>::empty()] + rest
        } else {
            rest.update(0, seq![s[0]] + rest[0])
        }
    }
}

pub proof fn lemma_split_by_nonempty(s: Seq<char>, p: spec_fn(char) -> bool)
    ensures
        split_by(s, p).len() >= 1,
    decreases s.len(),
{
    if s.len() > 0 {
        lemma_split_by_nonempty(s.drop_first(), p);
    }
}

/// Prepends `c` to the first piece of `r`.
pub open spec fn prefix_first(c: Seq<char>, r: Seq<Seq<char>>) -> Seq<Seq<char>> {
    r.update(0, c + r[0])
}

/// A class of separator characters.
pub enum CharClass {
    /// Exactly this character.
    Exactly(char),
    /// Unicode whitespace.
    Whitespace,
    /// Anything but an ASCII digit or `-`.
    NotSignedDigit,
}

pub open spec fn in_class(k: CharClass, c: char) -> bool {
    match k {
        CharClass::Exactly(x) => c == x,
        CharClass::Whitespace => is_ws(c),
        CharClass::NotSignedDigit => !(('0' <= c && c <= '9') || c == '-'),
    }
}

pub open spec fn class_pred(k: CharClass) -> spec_fn(char) -> bool {
    |c: char| in_class(k, c)
}

fn char_in_class(k: &CharClass, c: char) -> (r: bool)
    ensures
        r == in_class(*k, c),
{
    match k {
        CharClass::Exactly(x) => c == *x,
        CharClass::Whitespace => is_whitespace(c),
        CharClass::NotSignedDigit => !(('0' <= c && c <= '9') || c == '-'),
    }
}

/// Splits `s` at every character of class `k`.
pub fn split_class(s: &Vec<char>, k: CharClass) -> (r: Vec<Vec<char>>)
    ensures
        dv(r@) == split_by(s@, class_pred(k)),
{
    let ghost p = class_pred(k);
    let mut pieces: Vec<Vec<char>> = Vec::new();
    let mut cur: Vec<char> = Vec::new();
    let mut i: usize = 0;
    proof {
        assert(s@.skip(0) =~= s@);
        lemma_split_by_nonempty(s@, p);
        assert(prefix_first(cur@, split_by(s@, p)) =~= split_by(s@, p));
        assert(dv(pieces@) + split_by(s@, p) =~= split_by(s@, p));
    }
    while i < s.len()
        invariant
            i <= s.len(),
            p == class_pred(k),
            split_by(s@, p) == dv(pieces@) + prefix_first(cur@, split_by(s@.skip(i as int), p)),
        decreases s.len() - i,
    {
        let c = s[i];
        let ghost rest = s@.skip(i as int + 1);
        proof {
            assert(s@.skip(i as int).drop_first() =~= rest);
            assert(s@.skip(i as int)[0] == c);
            lemma_split_by_nonempty(rest, p);
        }
        if char_in_class(&k, c) {
            let ghost before = dv(pieces@);
            let done = cur;
            pieces.push(done);
            cur = Vec::new();
            proof {
                assert(dv(pieces@) =~= before.push(done@));
                let r2 = split_by(rest, p);
                assert(split_by(s@.skip(i as int), p) == seq![Seq::<char>::empty()] + r2);
                assert(prefix_first(done@, seq![Seq::<char>::empty()] + r2) =~= seq![done@] + r2);
                assert(prefix_first(cur@, r2) =~= r2);
                assert(before.push(done@) + r2 =~= before + (seq![done@] + r2));
            }
        } else {
            let ghost old_cur = cur@;
            cur.push(c);
            proof {
                let r2 = split_by(rest, p);
                assert(split_by(s@.skip(i as int), p) == r2.update(0, seq![c] + r2[0]));
                assert(old_cur + (seq![c] + r2[0]) =~= cur@ + r2[0]);
                assert(prefix_first(old_cur, r2.update(0, seq![c] + r2[0])) =~= prefix_first(cur@, r2));
            }
        }
        i = i + 1;
    }
    proof {
        assert(s@.skip(i as int) =~= Seq::<char>::empty());
    }
    let ghost before = dv(pieces@);
    let last = cur;
    pieces.push(last);
    proof {
        assert(dv(pieces@) =~= before.push(last@));
        assert(prefix_first(last@, seq![Seq::<char>::empty()]) =~= seq![last@]);
    }
    pieces
}

pub open spec fn non_empty(pieces: Seq<Seq<char>>) -> Seq<Seq<char>> {
    pieces.filter(|w: Seq<char>| w.len() > 0)
}

pub fn drop_empty(pieces: &Vec<Vec<char>>) -> (r: Vec<Vec<char>>)
    ensures
        dv(r@) == non_empty(dv(pieces@)),
{
    let ghost f = |w: Seq<char>| w.len() > 0;
    let ghost src = dv(pieces@);
    let mut out: Vec<Vec<char>> = Vec::new();
    proof {
        assert(src.take(0).filter(f) =~= Seq::<Seq<char>>::empty()) by {
            reveal(Seq::filter);
        }
    }
    let mut i: usize = 0;
    while i < pieces.len()
        invariant
            i <= pieces.len(),
            src == dv(pieces@),
            dv(out@) == src.take(i as int).filter(f),
            f == (|w: Seq<char>| w.len() > 0),
        decreases pieces.len() - i,
    {
        let w = &pieces[i];
        proof {
            assert(w@ == src[i as int]);
            assert(src.take(i as int + 1) =~= src.take(i as int).push(w@));
            src.take(i as int).lemma_filter_push(w@, f);
        }
        if w.len() > 0 {
            let ghost before = dv(out@);
            let copy = slice_chars(w, 0, w.len());
            assert(copy@ =~= w@);
            out.push(copy);
            proof {
                assert(dv(out@) =~= before.push(w@));
            }
        }
        i = i + 1;
    }
    proof {
        assert(src.take(pieces.len() as int) =~= src);
    }
    out
}

/// `str::split_whitespace`.
pub open spec fn words(s: Seq<char>) -> Seq<Seq<char>> {
    non_empty(split_by(s, class_pred(CharClass::Whitespace)))
}

pub fn split_whitespace(s: &Vec<char>) -> (r: Vec<Vec<char>>)
    ensures
        dv(r@) == words(s@),
{
    let pieces = split_class(s, CharClass::Whitespace);
    drop_empty(&pieces)
}

/// The character sequences held by a vector of character vectors.
pub open spec fn dv(v: Seq<Vec<char>>) -> Seq<Seq<char>> {
    Seq::new(v.len(), |i: int| v[i]@)
}

/// `s` without a final `'\r'`.
pub open spec fn strip_cr(s: Seq<char>) -> Seq<char> {
    if s.len() > 0 && s.last() == '\r' {
        s.drop_last()
    } else {
        s
    }
}

/// `str::lines`: the pieces between `'\n'`, a `'\r'` before each `'\n'` dropped,
/// and no final empty line after a closing `'\n'`.
pub open spec fn lines(s: Seq<char>) -> Seq<Seq<char>> {
    let p = split_by(s, class_pred(CharClass::Exactly('\n')));
    let n: int = if p.last().len() == 0 { p.len() - 1 } else { p.len() as int };
    Seq::new(n as nat, |i: int| if i < p.len() - 1 { strip_cr(p[i]) } else { p[i] })
}

pub fn lines_of(s: &Vec<char>) -> (r: Vec<Vec<char>>)
    ensures
        dv(r@) == lines(s@),
{
    let p = split_class(s, CharClass::Exactly('\n'));
    let ghost pv = dv(p@);
    proof {
        lemma_split_by_nonempty(s@, class_pred(CharClass::Exactly('\n')));
    }
    let total = p.len();
    let n = if p[total - 1].len() == 0 { total - 1 } else { total };
    let mut out: Vec<Vec<char>> = Vec::new();
    let mut i: usize = 0;
    while i < n
        invariant
            n <= total == p.len(),
            total >= 1,
            pv == dv(p@),
            i <= n,
            dv(out@) == Seq::new(i as nat, |k: int| if k < pv.len() - 1 { strip_cr(pv[k]) } else { pv[k] }),
        decreases n - i,
    {
        let piece = &p[i];
        let mut line = slice_chars(piece, 0, piece.len());
        assert(line@ =~= piece@);
        assert(pv[i as int] == piece@);
        let ghost expected = if (i as int) < pv.len() - 1 { strip_cr(pv[i as int]) } else { pv[i as int] };
        if i + 1 < total && line.len() > 0 && line[line.len() - 1] == '\r' {
            line.pop();
            assert(line@ =~= strip_cr(pv[i as int]));
        }
        assert(line@ == expected);
        let ghost before = dv(out@);
        out.push(line);
        i = i + 1;
        proof {
            assert(dv(out@) =~= before.push(expected));
            assert(dv(out@) =~= Seq::new(i as nat, |k: int| if k < pv.len() - 1 { strip_cr(pv[k]) } else { pv[k] }));
        }
    }
    out
}

// ---------------------------------------------------------------------------
// Substrings
// ---------------------------------------------------------------------------

/// `pat` occurs in `s` starting at index `i`.
pub open spec fn occurs_at(s: Seq<char>, pat: Seq<char>, i: int) -> bool {
    0 <= i && i + pat.len() <= s.len() && s.subrange(i, i + pat.len()) == pat
}

/// The first index at or after `i` where `pat` occurs in `s`.
pub open spec fn find_from(s: Seq<char>, pat: Seq<char>, i: int) -> Option<int>
    decreases s.len() + 1 - i,
{
    if i < 0 || i + pat.len() > s.len() {
        None
    } else if occurs_at(s, pat, i) {
        Some(i)
    } else {
        find_from(s, pat, i + 1)
    }
}

/// `str::find` with a string pattern, as a character index.
pub open spec fn find(s: Seq<char>, pat: Seq<char>) -> Option<int> {
    find_from(s, pat, 0)
}

/// `str::contains` with a string pattern.
pub open spec fn contains(s: Seq<char>, pat: Seq<char>) -> bool {
    find(s, pat) is Some
}

/// The last index at or before `i` where `pat` occurs in `s`.
pub open spec fn rfind_before(s: Seq<char>, pat: Seq<char>, i: int) -> Option<int>
    decreases i + 1,
{
    if i < 0 {
        None
    } else if occurs_at(s, pat, i) {
        Some(i)
    } else {
        rfind_before(s, pat, i - 1)
    }
}

/// `str::rfind` with a string pattern, as a character index.
pub open spec fn rfind(s: Seq<char>, pat: Seq<char>) -> Option<int> {
    rfind_before(s, pat, s.len() - pat.len())
}

pub open spec fn starts_with(s: Seq<char>, pat: Seq<char>) -> bool {
    pat.len() <= s.len() && s.take(pat.len() as int) == pat
}

pub open spec fn ends_with(s: Seq<char>, pat: Seq<char>) -> bool {
    pat.len() <= s.len() && s.skip(s.len() - pat.len()) == pat
}

/// An occurrence at or after `j` is found from `j`.
pub proof fn lemma_occurrence_found(s: Seq<char>, pat: Seq<char>, j: int, i: int)
    requires
        0 <= j <= i,
        occurs_at(s, pat, i),
    ensures
        find_from(s, pat, j) is Some,
    decreases i - j,
{
    if j < i && !occurs_at(s, pat, j) {
        lemma_occurrence_found(s, pat, j + 1, i);
    }
}

/// A text holds every text that occurs in it, wherever it is placed between
/// two others.
pub proof fn lemma_contains_middle(a: Seq<char>, m: Seq<char>, b: Seq<char>)
    ensures
        contains(a + m + b, m),
{
    let s = a + m + b;
    assert(s.subrange(a.len() as int, (a.len() + m.len()) as int) =~= m);
    lemma_occurrence_found(s, m, 0, a.len() as int);
}

pub proof fn lemma_find_from_bounds(s: Seq<char>, pat: Seq<char>, i: int)
    requires
        0 <= i,
    ensures
        find_from(s, pat, i) matches Some(k) ==> i <= k && occurs_at(s, pat, k) && forall|j: int|
            i <= j < k ==> !occurs_at(s, pat, j),
        find_from(s, pat, i) is None ==> forall|j: int| i <= j ==> !occurs_at(s, pat, j),
    decreases s.len() + 1 - i,
{
    if i + pat.len() > s.len() {
    } else if !occurs_at(s, pat, i) {
        lemma_find_from_bounds(s, pat, i + 1);
    }
}

fn occurs_at_exec(s: &Vec<char>, pat: &Vec<char>, i: usize) -> (r: bool)
    requires
        i + pat.len() <= s.len(),
    ensures
        r == occurs_at(s@, pat@, i as int),
{
    let mut k: usize = 0;
    while k < pat.len()
        invariant
            k <= pat.len(),
            i + pat.len() <= s.len(),
            forall|m: int| 0 <= m < k ==> s@[i + m] == pat@[m],
        decreases pat.len() - k,
    {
        if s[i + k] != pat[k] {
            assert(s@.subrange(i as int, i + pat.len())[k as int] != pat@[k as int]);
            return false;
        }
        k = k + 1;
    }
    assert(s@.subrange(i as int, i + pat.len()) =~= pat@);
    true
}

/// First occurrence of `pat` in `s` at or after `from`.
pub fn find_chars_from(s: &Vec<char>, pat: &Vec<char>, from: usize) -> (r: Option<usize>)
    ensures
        r matches Some(k) ==> find_from(s@, pat@, from as int) == Some(k as int),
        r matches Some(k) ==> from <= k && k + pat.len() <= s.len() && occurs_at(s@, pat@, k as int),
        r is None ==> find_from(s@, pat@, from as int) is None,
{
    if pat.len() > s.len() {
        return None;
    }
    let last = s.len() - pat.len();
    if from > last {
        return None;
    }
    let mut i = from;
    while i < last
        invariant
            last + pat.len() == s.len(),
            from <= i <= last,
            find_from(s@, pat@, from as int) == find_from(s@, pat@, i as int),
        decreases last - i,
    {
        if occurs_at_exec(s, pat, i) {
            return Some(i);
        }
        i = i + 1;
    }
    if occurs_at_exec(s, pat, i) {
        Some(i)
    } else {
        assert(find_from(s@, pat@, i as int + 1) is None);
        None
    }
}

pub fn find_chars(s: &Vec<char>, pat: &Vec<char>) -> (r: Option<usize>)
    ensures
        r matches Some(k) ==> find(s@, pat@) == Some(k as int),
        r matches Some(k) ==> k + pat.len() <= s.len() && occurs_at(s@, pat@, k as int),
        r is None ==> find(s@, pat@) is None,
{
    find_chars_from(s, pat, 0)
}

pub fn contains_chars(s: &Vec<char>, pat: &Vec<char>) -> (r: bool)
    ensures
        r == contains(s@, pat@),
{
    find_chars(s, pat).is_some()
}

/// `s` contains the literal `lit`.
pub fn contains_str(s: &Vec<char>, lit: &str) -> (r: bool)
    ensures
        r == contains(s@, lit@),
{
    let p = chars_of(lit);
    contains_chars(s, &p)
}

pub fn rfind_chars(s: &Vec<char>, pat: &Vec<char>) -> (r: Option<usize>)
    ensures
        r matches Some(k) ==> rfind(s@, pat@) == Some(k as int),
        r matches Some(k) ==> k + pat.len() <= s.len(),
        r is None ==> rfind(s@, pat@) is None,
{
    if pat.len() > s.len() {
        return None;
    }
    let mut i: usize = s.len() - pat.len();
    loop
        invariant
            i + pat.len() <= s.len(),
            rfind(s@, pat@) == rfind_before(s@, pat@, i as int),
        decreases i,
    {
        if occurs_at_exec(s, pat, i) {
            return Some(i);
        }
        if i == 0 {
            assert(rfind_before(s@, pat@, -1) is None);
            return None;
        }
        i = i - 1;
    }
}

pub fn starts_with_chars(s: &Vec<char>, pat: &Vec<char>) -> (r: bool)
    ensures
        r == starts_with(s@, pat@),
{
    if pat.len() > s.len() {
        return false;
    }
    let r = occurs_at_exec(s, pat, 0);
    assert(s@.subrange(0, pat.len() as int) =~= s@.take(pat.len() as int));
    r
}

pub fn starts_with_str(s: &Vec<char>, lit: &str) -> (r: bool)
    ensures
        r == starts_with(s@, lit@),
{
    let p = chars_of(lit);
    starts_with_chars(s, &p)
}

pub fn ends_with_chars(s: &Vec<char>, pat: &Vec<char>) -> (r: bool)
    ensures
        r == ends_with(s@, pat@),
{
    if pat.len() > s.len() {
        return false;
    }
    let r = occurs_at_exec(s, pat, s.len() - pat.len());
    assert(s@.subrange(s.len() - pat.len(), s.len() as int) =~= s@.skip(s.len() - pat.len()));
    r
}

/// `str::strip_prefix`.
pub open spec fn strip_prefix(s: Seq<char>, pat: Seq<char>) -> Option<Seq<char>> {
    if starts_with(s, pat) {
        Some(s.skip(pat.len() as int))
    } else {
        None
    }
}

pub fn strip_prefix_str(s: &Vec<char>, lit: &str) -> (r: Option<Vec<char>>)
    ensures
        match r {
            Some(v) => strip_prefix(s@, lit@) == Some(v@),
            None => strip_prefix(s@, lit@) is None,
        },
{
    let p = chars_of(lit);
    if starts_with_chars(s, &p) {
        Some(slice_chars(s, p.len(), s.len()))
    } else {
        None
    }
}

/// The pieces of `s[start..]` between occurrences of `pat` (`str::split` with a
/// non-empty string pattern).
pub open spec fn split_str_from(s: Seq<char>, pat: Seq<char>, start: int) -> Seq<Seq<char>>
    decreases s.len() - start,
    when 0 <= start <= s.len() && pat.len() > 0
{
    match find_from(s, pat, start) {
        Some(i) => {
            proof {
                lemma_find_from_bounds(s, pat, start);
            }
            seq![s.subrange(start, i)] + split_str_from(s, pat, i + pat.len())
        },
        None => seq![s.skip(start)],
    }
}

/// `str::split` with a non-empty string pattern.
pub open spec fn split_str(s: Seq<char>, pat: Seq<char>) -> Seq<Seq<char>> {
    split_str_from(s, pat, 0)
}

pub fn split_str_chars(s: &Vec<char>, pat: &Vec<char>) -> (r: Vec<Vec<char>>)
    requires
        pat.len() > 0,
    ensures
        dv(r@) == split_str(s@, pat@),
{
    let mut out: Vec<Vec<char>> = Vec::new();
    let mut pos: usize = 0;
    loop
        invariant
            pos <= s.len(),
            pat.len() > 0,
            split_str(s@, pat@) == dv(out@) + split_str_from(s@, pat@, pos as int),
        decreases s.len() - pos,
    {
        let ghost before = dv(out@);
        match find_chars_from(s, pat, pos) {
            Some(i) => {
                proof {
                    lemma_find_from_bounds(s@, pat@, pos as int);
                }
                let piece = slice_chars(s, pos, i);
                out.push(piece);
                proof {
                    assert(dv(out@) =~= before.push(s@.subrange(pos as int, i as int)));
                    assert(split_str_from(s@, pat@, pos as int) == seq![s@.subrange(pos as int, i as int)] + split_str_from(s@, pat@, i + pat.len()));
                    assert(before + (seq![s@.subrange(pos as int, i as int)] + split_str_from(s@, pat@, i + pat.len())) =~= before.push(s@.subrange(pos as int, i as int)) + split_str_from(s@, pat@, i + pat.len()));
                }
                pos = i + pat.len();
            },
            None => {
                let piece = slice_chars(s, pos, s.len());
                out.push(piece);
                proof {
                    assert(s@.subrange(pos as int, s.len() as int) =~= s@.skip(pos as int));
                    assert(dv(out@) =~= before.push(s@.skip(pos as int)));
                    assert(split_str_from(s@, pat@, pos as int) == seq![s@.skip(pos as int)]);
                }
                return out;
            },
        }
    }
}

/// `str::replacen(pat, to, 1)`: the first occurrence of `pat` replaced by `to`.
pub open spec fn replace_first(s: Seq<char>, pat: Seq<char>, to: Seq<char>) -> Seq<char> {
    match find(s, pat) {
        Some(i) => s.take(i) + to + s.skip(i + pat.len()),
        None => s,
    }
}

pub fn replace_first_chars(s: &Vec<char>, pat: &Vec<char>, to: &Vec<char>) -> (r: Vec<char>)
    ensures
        r@ == replace_first(s@, pat@, to@),
{
    match find_chars(s, pat) {
        Some(i) => {
            proof {
                lemma_find_from_bounds(s@, pat@, 0);
                assert(find_from(s@, pat@, 0) == Some(i as int));
                assert(occurs_at(s@, pat@, i as int));
            }
            let mut out = slice_chars(s, 0, i);
            let mid = slice_chars(to, 0, to.len());
            let tail = slice_chars(s, i + pat.len(), s.len());
            let mut k: usize = 0;
            let ghost base = out@;
            while k < mid.len()
                invariant
                    k <= mid.len(),
                    out@ == base + mid@.take(k as int),
                decreases mid.len() - k,
            {
                out.push(mid[k]);
                k = k + 1;
                assert(out@ =~= base + mid@.take(k as int));
            }
            let ghost base2 = out@;
            let mut m: usize = 0;
            while m < tail.len()
                invariant
                    m <= tail.len(),
                    out@ == base2 + tail@.take(m as int),
                decreases tail.len() - m,
            {
                out.push(tail[m]);
                m = m + 1;
                assert(out@ =~= base2 + tail@.take(m as int));
            }
            assert(mid@.take(mid.len() as int) =~= to@);
            assert(tail@.take(tail.len() as int) =~= s@.skip(i + pat.len()));
            assert(out@ =~= s@.take(i as int) + to@ + s@.skip(i + pat.len()));
            out
        },
        None => slice_chars(s, 0, s.len()),
    }
}

/// `str::replace` of one character by a string, at every occurrence.
pub open spec fn replace_char(s: Seq<char>, c: char, to: Seq<char>) -> Seq<char>
    decreases s.len(),
{
    if s.len() == 0 {
        s
    } else {
        replace_char(s.drop_last(), c, to) + (if s.last() == c {
            to
        } else {
            seq![s.last()]
        })
    }
}

pub fn replace_char_chars(s: &Vec<char>, c: char, to: &Vec<char>) -> (r: Vec<char>)
    ensures
        r@ == replace_char(s@, c, to@),
{
    let mut out: Vec<char> = Vec::new();
    let mut i: usize = 0;
    while i < s.len()
        invariant
            i <= s.len(),
            out@ == replace_char(s@.take(i as int), c, to@),
        decreases s.len() - i,
    {
        let ghost before = out@;
        if s[i] == c {
            let mut k: usize = 0;
            while k < to.len()
                invariant
                    k <= to.len(),
                    out@ == before + to@.take(k as int),
                decreases to.len() - k,
            {
                out.push(to[k]);
                k = k + 1;
                assert(out@ =~= before + to@.take(k as int));
            }
            assert(to@.take(to.len() as int) =~= to@);
        } else {
            out.push(s[i]);
        }
        proof {
            let t = s@.take(i as int + 1);
            assert(t.drop_last() =~= s@.take(i as int));
            assert(t.last() == s@[i as int]);
        }
        i = i + 1;
    }
    assert(s@.take(s.len() as int) =~= s@);
    out
}

// ---------------------------------------------------------------------------
// Numbers
// ---------------------------------------------------------------------------

pub open spec fn is_digit(c: char) -> bool {
    '0' <= c && c <= '9'
}

pub open spec fn digit_value(c: char) -> nat {
    (c as int - '0' as int) as nat
}

pub open spec fn all_digits(s: Seq<char>) -> bool {
    forall|i: int| 0 <= i < s.len() ==> is_digit(#[trigger] s[i])
}

/// The number written by the decimal digits `s`.
pub open spec fn digits_value(s: Seq<char>) -> nat
    decreases s.len(),
{
    if s.len() == 0 {
        0
    } else {
        digits_value(s.drop_last()) * 10 + digit_value(s.last())
    }
}

/// `str::parse` into an unsigned type whose largest value is `max`: an optional
/// `'+'`, then at least one decimal digit, and no overflow.
pub open spec fn parse_unsigned(s: Seq<char>, max: int) -> Option<int> {
    let body = if s.len() > 0 && s[0] == '+' {
        s.drop_first()
    } else {
        s
    };
    if body.len() > 0 && all_digits(body) && digits_value(body) <= max {
        Some(digits_value(body) as int)
    } else {
        None
    }
}

/// `str::parse` into a signed type with range `[min, max]`: an optional sign,
/// then at least one decimal digit, and no overflow.
pub open spec fn parse_signed(s: Seq<char>, min: int, max: int) -> Option<int> {
    if s.len() > 0 && s[0] == '-' {
        let body = s.drop_first();
        if body.len() > 0 && all_digits(body) && -digits_value(body) >= min {
            Some(-digits_value(body))
        } else {
            None
        }
    } else {
        parse_unsigned(s, max)
    }
}

pub proof fn lemma_digits_value_take(s: Seq<char>, k: int)
    requires
        0 <= k <= s.len(),
    ensures
        digits_value(s.take(k)) <= digits_value(s),
    decreases s.len() - k,
{
    if k < s.len() {
        assert(s.take(s.len() - 1) =~= s.drop_last());
        lemma_digits_value_take(s.drop_last(), k);
        assert(s.drop_last().take(k) =~= s.take(k));
    } else {
        assert(s.take(k) =~= s);
    }
}

/// Value of the decimal digits `s[start..]`, or `None` if one is not a digit or
/// the value exceeds `max`.
fn digits_up_to(s: &Vec<char>, start: usize, max: u64) -> (r: Option<u64>)
    requires
        start <= s.len(),
    ensures
        match r {
            Some(v) => {
                let b = s@.skip(start as int);
                all_digits(b) && digits_value(b) == v && v <= max
            },
            None => {
                let b = s@.skip(start as int);
                !(all_digits(b) && digits_value(b) <= max)
            },
        },
{
    let ghost b = s@.skip(start as int);
    let mut v: u64 = 0;
    let mut i = start;
    proof {
        assert(b.take(0) =~= Seq::<char>::empty());
    }
    while i < s.len()
        invariant
            start <= i <= s.len(),
            b == s@.skip(start as int),
            all_digits(b.take(i - start)),
            digits_value(b.take(i - start)) == v,
            v <= max,
        decreases s.len() - i,
    {
        let c = s[i];
        let ghost t = b.take(i - start + 1);
        proof {
            assert(t.drop_last() =~= b.take(i - start));
            assert(t.last() == c);
        }
        if !('0' <= c && c <= '9') {
            proof {
                assert(!is_digit(b[i - start]));
            }
            return None;
        }
        let d = (c as u32 - '0' as u32) as u64;
        assert(d == digit_value(c));
        if d > max || v > (max - d) / 10 {
            proof {
                assert(v * 10 + d > max) by (nonlinear_arith)
                    requires d > max || v > (max - d) / 10, d < 10, v >= 0;
                assert(all_digits(t));
                lemma_digits_value_take(b, i - start + 1);
                if all_digits(b) {
                    assert(digits_value(t) <= digits_value(b));
                }
            }
            return None;
        }
        proof {
            assert(v * 10 + d <= max) by (nonlinear_arith)
                requires v <= (max - d) / 10, d < 10, d <= max;
        }
        v = v * 10 + d;
        i = i + 1;
        proof {
            assert(all_digits(t));
        }
    }
    assert(b.take(i - start) =~= b);
    Some(v)
}

/// `str::parse::<u64>` restricted to values up to `max` (`u8`, `u16`, `u32`, `u64`).
pub fn parse_uint(s: &Vec<char>, max: u64) -> (r: Option<u64>)
    ensures
        match r {
            Some(v) => parse_unsigned(s@, max as int) == Some(v as int),
            None => parse_unsigned(s@, max as int) is None,
        },
{
    let start: usize = if s.len() > 0 && s[0] == '+' { 1 } else { 0 };
    proof {
        if start == 1 {
            assert(s@.skip(1) =~= s@.drop_first());
        } else {
            assert(s@.skip(0) =~= s@);
        }
    }
    if start == s.len() {
        return None;
    }
    digits_up_to(s, start, max)
}

/// `str::parse::<i32>`.
pub fn parse_i32(s: &Vec<char>) -> (r: Option<i32>)
    ensures
        match r {
            Some(v) => parse_signed(s@, i32::MIN as int, i32::MAX as int) == Some(v as int),
            None => parse_signed(s@, i32::MIN as int, i32::MAX as int) is None,
        },
{
    if s.len() > 0 && s[0] == '-' {
        if s.len() == 1 {
            return None;
        }
        proof {
            assert(s@.skip(1) =~= s@.drop_first());
        }
        match digits_up_to(s, 1, 2147483648) {
            Some(v) => Some((0 - v as i64) as i32),
            None => None,
        }
    } else {
        match parse_uint(s, 2147483647) {
            Some(v) => Some(v as i32),
            None => None,
        }
    }
}

/// The decimal digits of `n` (`Display` for unsigned integers).
pub open spec fn decimal(n: nat) -> Seq<char>
    decreases n,
{
    if n < 10 {
        seq![(n + '0' as nat) as char]
    } else {
        decimal(n / 10).push(((n % 10) + '0' as nat) as char)
    }
}

/// `Display` for signed integers.
pub open spec fn signed_decimal(n: int) -> Seq<char> {
    if n < 0 {
        seq!['-'] + decimal((-n) as nat)
    } else {
        decimal(n as nat)
    }
}

pub fn push_decimal(out: &mut Vec<char>, n: u64)
    ensures
        final(out)@ == old(out)@ + decimal(n as nat),
    decreases n,
{
    if n >= 10 {
        push_decimal(out, n / 10);
    }
    let d = (n % 10) as u32;
    let c = char_from_digit(d);
    let ghost before = out@;
    out.push(c);
    proof {
        if n >= 10 {
            assert(out@ =~= old(out)@ + decimal(n as nat));
        } else {
            assert(out@ =~= old(out)@ + decimal(n as nat));
        }
    }
}

fn char_from_digit(d: u32) -> (c: char)
    requires
        d < 10,
    ensures
        c == ((d as nat + '0' as nat) as char),
{
    match d {
        0 => '0',
        1 => '1',
        2 => '2',
        3 => '3',
        4 => '4',
        5 => '5',
        6 => '6',
        7 => '7',
        8 => '8',
        _ => '9',
    }
}

pub fn push_signed_decimal(out: &mut Vec<char>, n: i64)
    ensures
        final(out)@ == old(out)@ + signed_decimal(n as int),
{
    if n < 0 {
        out.push('-');
        let m: u64 = if n == i64::MIN { 9223372036854775808u64 } else { (-n) as u64 };
        assert(m == -(n as int));
        let ghost mid = out@;
        push_decimal(out, m);
        assert(out@ =~= old(out)@ + signed_decimal(n as int));
    } else {
        push_decimal(out, n as u64);
    }
}

/// The decimal text of `n` as a string.
pub fn u64_to_string(n: u64) -> (r: String)
    ensures
        r@ == decimal(n as nat),
{
    let mut v: Vec<char> = Vec::new();
    push_decimal(&mut v, n);
    assert(v@ =~= decimal(n as nat));
    string_of(&v)
}

/// The decimal text of `n` as a string.
pub fn i64_to_string(n: i64) -> (r: String)
    ensures
        r@ == signed_decimal(n as int),
{
    let mut v: Vec<char> = Vec::new();
    push_signed_decimal(&mut v, n);
    assert(v@ =~= signed_decimal(n as int));
    string_of(&v)
}

// ---------------------------------------------------------------------------
// Case mapping (Unicode tables of the standard library)
// ---------------------------------------------------------------------------

/// What `str::to_lowercase` returns for a string.
pub uninterp spec fn lowercase(s: Seq<char>) -> Seq<char>;

/// What `char::to_uppercase` yields for a character, collected into a string.
pub uninterp spec fn uppercase_char(c: char) -> Seq<char>;

/// A text made of ASCII characters only.
pub open spec fn is_ascii_text(s: Seq<char>) -> bool {
    forall|i: int| 0 <= i < s.len() ==> (#[trigger] s[i] as u32) < 128
}

/// An ASCII letter `A`-`Z` as its lowercase `a`-`z`; any other character kept.
pub open spec fn ascii_lower_char(c: char) -> char {
    if 65 <= (c as u32) <= 90 {
        ((c as u32) + 32) as char
    } else {
        c
    }
}

/// A text with its ASCII capitals lowercased.
pub open spec fn ascii_lower(s: Seq<char>) -> Seq<char> {
    s.map_values(|c: char| ascii_lower_char(c))
}

/// Lowercasing ASCII text keeps it ASCII, and doing it twice is doing it once.
pub proof fn lemma_ascii_lower(s: Seq<char>)
    requires
        is_ascii_text(s),
    ensures
        is_ascii_text(ascii_lower(s)),
        ascii_lower(ascii_lower(s)) == ascii_lower(s),
{
    assert forall|i: int| 0 <= i < ascii_lower(s).len() implies (#[trigger] ascii_lower(s)[i] as u32)
        < 128 by {
        assert(ascii_lower(s)[i] == ascii_lower_char(s[i]));
    }
    assert(ascii_lower(ascii_lower(s)) =~= ascii_lower(s));
}

/// Trimming ASCII text leaves ASCII text.
pub proof fn lemma_trim_ascii(s: Seq<char>)
    requires
        is_ascii_text(s),
    ensures
        is_ascii_text(trim(s)),
{
    lemma_trim_start_len(s);
    let u = trim_start(s);
    lemma_trim_end_len(u);
    assert forall|i: int| 0 <= i < u.len() implies (#[trigger] u[i] as u32) < 128 by {
        assert(u[i] == s[s.len() - u.len() + i]);
    }
    assert forall|i: int| 0 <= i < trim(s).len() implies (#[trigger] trim(s)[i] as u32) < 128 by {
        assert(trim(s)[i] == u[i]);
    }
}

/// `str::to_lowercase`: the string mapped through Unicode's lowercase tables,
/// each character to one or more, so the result is empty exactly when the
/// input is. On ASCII text those tables lowercase `A`-`Z` and keep every other
/// character; which other characters change is not stated.
#[verifier::external_body]
pub(crate) fn to_lowercase(s: &str) -> (r: String)
    ensures
        r@ == lowercase(s@),
        (r@.len() == 0) == (s@.len() == 0),
        is_ascii_text(s@) ==> r@ == ascii_lower(s@),
{
    s.to_lowercase()
}

/// An ASCII letter `a`-`z` as its capital `A`-`Z`; any other character kept.
pub open spec fn ascii_upper_char(c: char) -> char {
    if 97 <= (c as u32) <= 122 {
        ((c as u32) - 32) as char
    } else {
        c
    }
}

/// `char::to_uppercase`, collected into a string: one or more characters. An
/// ASCII character gives one character: `a`-`z` their capitals, any other
/// itself. Which other characters change is not stated.
#[verifier::external_body]
pub(crate) fn char_to_uppercase(c: char) -> (r: String)
    ensures
        r@ == uppercase_char(c),
        r@.len() >= 1,
        (c as u32) < 128 ==> r@ == seq![ascii_upper_char(c)],
{
    c.to_uppercase().collect::<String>()
}

pub fn lowercase_chars(v: &Vec<char>) -> (r: Vec<char>)
    ensures
        r@ == lowercase(v@),
        (r@.len() == 0) == (v@.len() == 0),
        is_ascii_text(v@) ==> r@ == ascii_lower(v@),
{
    let s = string_of(v);
    let l = to_lowercase(s.as_str());
    chars_of(l.as_str())
}


// ---------------------------------------------------------------------------
// Searching lines
// ---------------------------------------------------------------------------

/// The index of the first line at or after `i` that satisfies `p`.
pub open spec fn first_where(ls: Seq<Seq<char>>, p: spec_fn(Seq<char>) -> bool, i: int) -> Option<int>
    decreases ls.len() - i,
{
    if i < 0 || i >= ls.len() {
        None
    } else if p(ls[i]) {
        Some(i)
    } else {
        first_where(ls, p, i + 1)
    }
}

pub proof fn lemma_first_where(ls: Seq<Seq<char>>, p: spec_fn(Seq<char>) -> bool, i: int)
    requires
        0 <= i,
    ensures
        first_where(ls, p, i) matches Some(k) ==> i <= k < ls.len() && p(ls[k]),
    decreases ls.len() - i,
{
    if i < ls.len() && !p(ls[i]) {
        lemma_first_where(ls, p, i + 1);
    }
}

/// The tests by which a line is picked out of command output.
pub enum LineTest {
    /// The line contains the text.
    Contains(Vec<char>),
    /// The line contains one of the two texts.
    ContainsEither(Vec<char>, Vec<char>),
    /// The line starts with the text.
    StartsWith(Vec<char>),
    /// The line, trimmed, starts with the text.
    TrimmedStartsWith(Vec<char>),
}

pub open spec fn contains_test(a: Seq<char>) -> spec_fn(Seq<char>) -> bool {
    |l: Seq<char>| contains(l, a)
}

pub open spec fn contains_either_test(a: Seq<char>, b: Seq<char>) -> spec_fn(Seq<char>) -> bool {
    |l: Seq<char>| contains(l, a) || contains(l, b)
}

pub open spec fn starts_with_test(a: Seq<char>) -> spec_fn(Seq<char>) -> bool {
    |l: Seq<char>| starts_with(l, a)
}

pub open spec fn trimmed_starts_with_test(a: Seq<char>) -> spec_fn(Seq<char>) -> bool {
    |l: Seq<char>| starts_with(trim(l), a)
}

pub open spec fn line_test(t: LineTest) -> spec_fn(Seq<char>) -> bool {
    match t {
        LineTest::Contains(a) => contains_test(a@),
        LineTest::ContainsEither(a, b) => contains_either_test(a@, b@),
        LineTest::StartsWith(a) => starts_with_test(a@),
        LineTest::TrimmedStartsWith(a) => trimmed_starts_with_test(a@),
    }
}

fn passes(l: &Vec<char>, t: &LineTest) -> (r: bool)
    ensures
        r == (line_test(*t))(l@),
{
    match t {
        LineTest::Contains(a) => contains_chars(l, a),
        LineTest::ContainsEither(a, b) => contains_chars(l, a) || contains_chars(l, b),
        LineTest::StartsWith(a) => starts_with_chars(l, a),
        LineTest::TrimmedStartsWith(a) => {
            let tl = trimmed_chars(l);
            starts_with_chars(&tl, a)
        },
    }
}

/// The first line that passes the test.
pub fn first_line_where(ls: &Vec<Vec<char>>, t: &LineTest) -> (r: Option<usize>)
    ensures
        match r {
            Some(i) => first_where(dv(ls@), line_test(*t), 0) == Some(i as int) && i < ls.len(),
            None => first_where(dv(ls@), line_test(*t), 0) is None,
        },
{
    let ghost d = dv(ls@);
    let mut i: usize = 0;
    while i < ls.len()
        invariant
            i <= ls.len(),
            d == dv(ls@),
            first_where(d, line_test(*t), 0) == first_where(d, line_test(*t), i as int),
        decreases ls.len() - i,
    {
        if passes(&ls[i], t) {
            return Some(i);
        }
        i = i + 1;
    }
    None
}

pub fn text_lines(s: &str) -> (r: Vec<Vec<char>>)
    ensures
        dv(r@) == lines(s@),
{
    let v = chars_of(s);
    lines_of(&v)
}

} // verus!
