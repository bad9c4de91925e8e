// File transfer: listing a device directory and the push, pull, delete and
// mkdir commands.
use vstd::prelude::*;

use crate::adb::command_builder::{push_str_copy, strs};
use crate::adb::executor::CommandOutput;
use crate::command_utils::{outcome, run_outcome};
use crate::error::{opt_view, AppError};
use crate::text::{
    chars_eq_str, chars_of, dv, lines, lowercase, lowercase_chars, parse_uint, parse_unsigned,
    split_str, split_str_chars, split_whitespace, starts_with, starts_with_str, string_of,
    text_lines, trim, trimmed_chars, words,
};

verus! {

/// One entry of a directory listing.
pub struct FileInfo {
    pub name: String,
    pub is_directory: bool,
    pub size: Option<u64>,
    pub permissions: Option<String>,
}

/// An entry as plain values: name, directory flag, size, permissions.
pub type FileView = (Seq<char>, bool, Option<u64>, Option<Seq<char>>);

pub open spec fn file_view(f: FileInfo) -> FileView {
    (f.name@, f.is_directory, f.size, opt_view(f.permissions))
}

pub open spec fn file_views(fs: Seq<FileInfo>) -> Seq<FileView> {
    Seq::new(fs.len(), |i: int| file_view(fs[i]))
}

// ---------------------------------------------------------------------------
// Parsing `ls -la`
// ---------------------------------------------------------------------------

/// The pieces joined with `sep` between them.
pub open spec fn joined(ps: Seq<Seq<char>>, sep: Seq<char>) -> Seq<char>
    decreases ps.len(),
{
    if ps.len() == 0 {
        Seq::empty()
    } else if ps.len() == 1 {
        ps[0]
    } else {
        joined(ps.drop_last(), sep) + sep + ps.last()
    }
}

pub open spec fn u64_of(o: Option<int>) -> Option<u64> {
    match o {
        Some(v) => Some(v as u64),
        None => None,
    }
}

/// The entry an `ls -la` line describes. The line is trimmed; blank lines,
/// the `total` line and lines of fewer than seven fields describe none. The
/// name is the seventh field, or all fields from the eighth on joined by
/// spaces; `.` and `..` are skipped, and a link keeps only what comes before
/// ` -> `. Directories have no size.
pub open spec fn entry_of_line(raw: Seq<char>) -> Option<FileView> {
    let line = trim(raw);
    let parts = words(line);
    if line.len() == 0 || starts_with(line, "total"@) || parts.len() < 7 {
        None
    } else {
        let full = if parts.len() > 7 {
            joined(parts.skip(7), " "@)
        } else {
            parts[6]
        };
        if full == "."@ || full == ".."@ {
            None
        } else {
            let pieces = split_str(full, " -> "@);
            let name = if pieces.len() > 0 {
                pieces[0]
            } else {
                full
            };
            let dir = starts_with(parts[0], "d"@);
            let size = if dir {
                None
            } else {
                u64_of(parse_unsigned(parts[4], u64::MAX as int))
            };
            Some((name, dir, size, Some(parts[0])))
        }
    }
}

/// The entries described by a sequence of lines, in order.
pub open spec fn entries_of(ls: Seq<Seq<char>>) -> Seq<FileView>
    decreases ls.len(),
{
    if ls.len() == 0 {
        Seq::empty()
    } else {
        entries_of(ls.drop_last()) + match entry_of_line(ls.last()) {
            Some(e) => seq![e],
            None => Seq::empty(),
        }
    }
}

fn join_from(parts: &Vec<Vec<char>>, start: usize) -> (r: Vec<char>)
    requires
        start < parts.len(),
    ensures
        r@ == joined(dv(parts@).skip(start as int), " "@),
{
    let ghost d = dv(parts@);
    let mut acc: Vec<char> = Vec::new();
    let first = &parts[start];
    let mut m: usize = 0;
    while m < first.len()
        invariant
            m <= first.len(),
            acc@ == first@.take(m as int),
        decreases first.len() - m,
    {
        acc.push(first[m]);
        m = m + 1;
        assert(acc@ =~= first@.take(m as int));
    }
    assert(first@.take(first.len() as int) =~= first@);
    assert(d.subrange(start as int, start + 1).drop_last() =~= Seq::<Seq<char>>::empty());
    assert(joined(d.subrange(start as int, start + 1), " "@) == d[start as int]);
    let mut k: usize = start + 1;
    while k < parts.len()
        invariant
            start < k <= parts.len(),
            d == dv(parts@),
            acc@ == joined(d.subrange(start as int, k as int), " "@),
        decreases parts.len() - k,
    {
        acc.push(' ');
        let p = &parts[k];
        let ghost base = acc@;
        let mut m: usize = 0;
        while m < p.len()
            invariant
                m <= p.len(),
                acc@ == base + p@.take(m as int),
            decreases p.len() - m,
        {
            acc.push(p[m]);
            m = m + 1;
            assert(acc@ =~= base + p@.take(m as int));
        }
        proof {
            reveal_strlit(" ");
            assert(p@.take(p.len() as int) =~= p@);
            let sub = d.subrange(start as int, k + 1);
            assert(sub.drop_last() =~= d.subrange(start as int, k as int));
            assert(sub.last() == p@);
            assert(acc@ =~= joined(sub.drop_last(), " "@) + " "@ + sub.last());
        }
        k = k + 1;
    }
    assert(d.subrange(start as int, parts.len() as int) =~= d.skip(start as int));
    acc
}

fn entry_of(raw: &Vec<char>) -> (r: Option<FileInfo>)
    ensures
        match r {
            Some(f) => entry_of_line(raw@) == Some(file_view(f)),
            None => entry_of_line(raw@) is None,
        },
{
    let line = trimmed_chars(raw);
    if line.len() == 0 || starts_with_str(&line, "total") {
        return None;
    }
    let parts = split_whitespace(&line);
    if parts.len() < 7 {
        return None;
    }
    let ghost d = dv(parts@);
    let full: Vec<char> = if parts.len() > 7 {
        join_from(&parts, 7)
    } else {
        let p6 = &parts[6];
        assert(d[6] == p6@);
        crate::text::slice_chars(p6, 0, p6.len())
    };
    proof {
        if parts.len() <= 7 {
            assert(full@ =~= d[6]);
        }
    }
    if chars_eq_str(&full, ".") || chars_eq_str(&full, "..") {
        return None;
    }
    let arrow = chars_of(" -> ");
    proof {
        reveal_strlit(" -> ");
    }
    let pieces = split_str_chars(&full, &arrow);
    let name: String = if pieces.len() > 0 {
        assert(dv(pieces@)[0] == pieces@[0]@);
        string_of(pieces[0].as_slice())
    } else {
        string_of(full.as_slice())
    };
    let perms = &parts[0];
    assert(d[0] == perms@);
    let dir = starts_with_str(perms, "d");
    let size: Option<u64> = if dir {
        None
    } else {
        assert(d[4] == parts@[4]@);
        parse_uint(&parts[4], u64::MAX)
    };
    Some(FileInfo { name, is_directory: dir, size, permissions: Some(string_of(perms.as_slice())) })
}

// ---------------------------------------------------------------------------
// Ordering: directories first, then by name ignoring case
// ---------------------------------------------------------------------------

/// Lexicographic order of character sequences (by code point, which is the
/// byte order of their UTF-8 encodings).
pub open spec fn lex_lt(a: Seq<char>, b: Seq<char>) -> bool
    decreases a.len(),
{
    if a.len() == 0 {
        b.len() > 0
    } else if b.len() == 0 {
        false
    } else if a[0] < b[0] {
        true
    } else if a[0] == b[0] {
        lex_lt(a.drop_first(), b.drop_first())
    } else {
        false
    }
}

pub proof fn lemma_lex_irreflexive(a: Seq<char>)
    ensures
        !lex_lt(a, a),
    decreases a.len(),
{
    if a.len() > 0 {
        lemma_lex_irreflexive(a.drop_first());
    }
}

pub proof fn lemma_lex_transitive(a: Seq<char>, b: Seq<char>, c: Seq<char>)
    requires
        lex_lt(a, b),
        lex_lt(b, c),
    ensures
        lex_lt(a, c),
    decreases a.len(),
{
    if a.len() > 0 && b.len() > 0 && c.len() > 0 && a[0] == b[0] && b[0] == c[0] {
        lemma_lex_transitive(a.drop_first(), b.drop_first(), c.drop_first());
    }
}

pub proof fn lemma_lex_total(a: Seq<char>, b: Seq<char>)
    requires
        a != b,
    ensures
        lex_lt(a, b) || lex_lt(b, a),
    decreases a.len(),
{
    if a.len() == 0 && b.len() == 0 {
        assert(a =~= b);
    }
    if a.len() > 0 && b.len() > 0 && a[0] == b[0] {
        if a.drop_first() == b.drop_first() {
            assert(a =~= seq![a[0]] + a.drop_first());
            assert(b =~= seq![b[0]] + b.drop_first());
        }
        lemma_lex_total(a.drop_first(), b.drop_first());
    }
}

/// Directories rank before files.
pub open spec fn dir_rank(f: FileView) -> int {
    if f.1 {
        0
    } else {
        1
    }
}

/// `a` is listed before `b`: a directory before a file, else the lowercased
/// names in lexicographic order.
pub open spec fn sorts_before(a: FileView, b: FileView) -> bool {
    dir_rank(a) < dir_rank(b) || (dir_rank(a) == dir_rank(b) && lex_lt(lowercase(a.0), lowercase(b.0)))
}

pub proof fn lemma_sorts_before_irreflexive(a: FileView)
    ensures
        !sorts_before(a, a),
{
    lemma_lex_irreflexive(lowercase(a.0));
}

pub proof fn lemma_sorts_before_transitive(a: FileView, b: FileView, c: FileView)
    requires
        sorts_before(a, b),
        sorts_before(b, c),
    ensures
        sorts_before(a, c),
{
    if dir_rank(a) == dir_rank(b) && dir_rank(b) == dir_rank(c) {
        lemma_lex_transitive(lowercase(a.0), lowercase(b.0), lowercase(c.0));
    }
}

/// Anything comes after `a` or before `b` when `a` comes before `b`.
pub proof fn lemma_sorts_before_comparable(a: FileView, b: FileView, c: FileView)
    requires
        sorts_before(a, b),
    ensures
        sorts_before(a, c) || sorts_before(c, b),
{
    if dir_rank(a) == dir_rank(b) && dir_rank(c) == dir_rank(a) {
        let (la, lb, lc) = (lowercase(a.0), lowercase(b.0), lowercase(c.0));
        if lc != la {
            lemma_lex_total(la, lc);
            if lex_lt(lc, la) {
                lemma_lex_transitive(lc, la, lb);
            }
        }
    }
}

/// `r` is `e` sorted stably: `idx` says where each listed entry came from; no
/// entry is listed twice; each is listed no earlier than any it sorts after;
/// entries of equal rank keep their order.
pub open spec fn stable_arrangement(r: Seq<FileView>, e: Seq<FileView>, idx: Seq<int>) -> bool {
    &&& idx.len() == r.len()
    &&& r.len() == e.len()
    &&& forall|k: int| 0 <= k < r.len() ==> 0 <= #[trigger] idx[k] < e.len() && r[k] == e[idx[k]]
    &&& forall|k1: int, k2: int| 0 <= k1 < k2 < r.len() ==> idx[k1] != idx[k2]
    &&& forall|k1: int, k2: int| 0 <= k1 < k2 < r.len() ==> !sorts_before(r[k2], r[k1])
    &&& forall|k1: int, k2: int|
        0 <= k1 < k2 < r.len() && !sorts_before(r[k1], r[k2]) ==> idx[k1] < idx[k2]
}

pub open spec fn stably_sorted(r: Seq<FileView>, e: Seq<FileView>) -> bool {
    exists|idx: Seq<int>| stable_arrangement(r, e, idx)
}

/// Lexicographic comparison of two character vectors.
fn lex_less(a: &Vec<char>, b: &Vec<char>) -> (r: bool)
    ensures
        r == lex_lt(a@, b@),
{
    let mut i: usize = 0;
    assert(a@.skip(0) =~= a@ && b@.skip(0) =~= b@);
    while i < a.len() && i < b.len()
        invariant
            i <= a.len(),
            i <= b.len(),
            lex_lt(a@, b@) == lex_lt(a@.skip(i as int), b@.skip(i as int)),
        decreases a.len() - i,
    {
        let ghost (sa, sb) = (a@.skip(i as int), b@.skip(i as int));
        assert(sa[0] == a[i as int] && sb[0] == b[i as int]);
        if a[i] < b[i] {
            return true;
        }
        if a[i] != b[i] {
            return false;
        }
        assert(sa.drop_first() =~= a@.skip(i + 1));
        assert(sb.drop_first() =~= b@.skip(i + 1));
        i = i + 1;
    }
    i < b.len()
}

/// Whether `f` (lowercased name `fl`) sorts before `g` (lowercased name `gl`).
fn before_exec(f: &FileInfo, fl: &Vec<char>, g: &FileInfo, gl: &Vec<char>) -> (r: bool)
    requires
        fl@ == lowercase(f.name@),
        gl@ == lowercase(g.name@),
    ensures
        r == sorts_before(file_view(*f), file_view(*g)),
{
    if f.is_directory && !g.is_directory {
        true
    } else if !f.is_directory && g.is_directory {
        false
    } else {
        lex_less(fl, gl)
    }
}

proof fn lemma_insert_arrangement(
    r: Seq<FileView>,
    e: Seq<FileView>,
    idx: Seq<int>,
    x: FileView,
    p: int,
)
    requires
        stable_arrangement(r, e, idx),
        0 <= p <= r.len(),
        forall|k: int| 0 <= k < p ==> !sorts_before(x, #[trigger] r[k]),
        p < r.len() ==> sorts_before(x, r[p]),
    ensures
        stable_arrangement(r.insert(p, x), e.push(x), idx.insert(p, e.len() as int)),
{
    let n = e.len() as int;
    let r2 = r.insert(p, x);
    let e2 = e.push(x);
    let i2 = idx.insert(p, n);
    assert forall|k: int| 0 <= k < r2.len() implies 0 <= #[trigger] i2[k] < e2.len() && r2[k] == e2[i2[k]] by {
        if k < p {
            assert(r2[k] == r[k] && i2[k] == idx[k]);
        } else if k > p {
            assert(r2[k] == r[k - 1] && i2[k] == idx[k - 1]);
        }
    }
    assert forall|k1: int, k2: int| 0 <= k1 < k2 < r2.len() implies i2[k1] != i2[k2] by {
        if k1 != p && k2 != p {
            let a = if k1 < p { k1 } else { k1 - 1 };
            let b = if k2 < p { k2 } else { k2 - 1 };
            assert(i2[k1] == idx[a] && i2[k2] == idx[b]);
        } else if k1 == p {
            assert(i2[k2] == idx[k2 - 1]);
        } else {
            assert(i2[k1] == idx[k1]);
        }
    }
    assert forall|k1: int, k2: int| 0 <= k1 < k2 < r2.len() implies !sorts_before(r2[k2], r2[k1]) by {
        if k1 != p && k2 != p {
            let a = if k1 < p { k1 } else { k1 - 1 };
            let b = if k2 < p { k2 } else { k2 - 1 };
            assert(r2[k1] == r[a] && r2[k2] == r[b]);
        } else if k2 == p {
            assert(r2[k1] == r[k1]);
        } else {
            let q = k2 - 1;
            assert(r2[k2] == r[q]);
            if sorts_before(r[q], x) {
                lemma_sorts_before_transitive(r[q], x, r[p]);
                if q == p {
                    lemma_sorts_before_irreflexive(r[p]);
                }
            }
        }
    }
    assert forall|k1: int, k2: int|
        0 <= k1 < k2 < r2.len() && !sorts_before(r2[k1], r2[k2]) implies i2[k1] < i2[k2] by {
        if k1 != p && k2 != p {
            let a = if k1 < p { k1 } else { k1 - 1 };
            let b = if k2 < p { k2 } else { k2 - 1 };
            assert(r2[k1] == r[a] && r2[k2] == r[b]);
            assert(i2[k1] == idx[a] && i2[k2] == idx[b]);
        } else if k2 == p {
            assert(i2[k1] == idx[k1]);
        } else {
            let q = k2 - 1;
            assert(r2[k2] == r[q]);
            lemma_sorts_before_comparable(x, r[p], r[q]);
            if q > p {
                assert(!sorts_before(r[q], r[p]));
            } else {
                lemma_sorts_before_irreflexive(r[p]);
            }
        }
    }
}

/// Sorts entries directories first, then by name ignoring case, keeping the
/// order of entries that rank equally.
pub fn sort_entries(entries: Vec<FileInfo>) -> (r: Vec<FileInfo>)
    ensures
        stably_sorted(file_views(r@), file_views(entries@)),
{
    let ghost ev = file_views(entries@);
    let n = entries.len();
    let mut out: Vec<FileInfo> = Vec::new();
    let mut keys: Vec<Vec<char>> = Vec::new();
    let ghost mut idx: Seq<int> = Seq::empty();
    let mut rest = entries;
    let mut taken: usize = 0;
    let ghost mut remaining: Seq<FileView> = ev;
    assert(stable_arrangement(file_views(out@), ev.take(0), idx));
    while rest.len() > 0
        invariant
            taken + rest.len() == ev.len(),
            ev.len() == n,
            file_views(rest@) == ev.skip(taken as int),
            keys.len() == out.len(),
            forall|k: int| 0 <= k < out.len() ==> (#[trigger] keys@[k])@ == lowercase(out@[k].name@),
            stable_arrangement(file_views(out@), ev.take(taken as int), idx),
        decreases rest.len(),
    {
        let ghost rb = rest@;
        let x = rest.remove(0);
        let ghost xv = file_view(x);
        assert(xv == ev[taken as int]) by {
            assert(file_views(rb)[0] == xv);
        }
        let xl = lowercase_chars(&chars_of(x.name.as_str()));
        let mut p: usize = 0;
        while p < out.len() && !before_exec(&x, &xl, &out[p], &keys[p])
            invariant
                p <= out.len(),
                keys.len() == out.len(),
                xl@ == lowercase(x.name@),
                forall|k: int| 0 <= k < out.len() ==> (#[trigger] keys@[k])@ == lowercase(out@[k].name@),
                forall|k: int| 0 <= k < p ==> !sorts_before(file_view(x), #[trigger] file_views(out@)[k]),
            decreases out.len() - p,
        {
            p = p + 1;
        }
        proof {
            lemma_insert_arrangement(file_views(out@), ev.take(taken as int), idx, xv, p as int);
            idx = idx.insert(p as int, taken as int);
        }
        let ghost ob = out@;
        out.insert(p, x);
        keys.insert(p, xl);
        taken = taken + 1;
        proof {
            assert(file_views(out@) =~= file_views(ob).insert(p as int, xv));
            assert(ev.take(taken as int) =~= ev.take(taken - 1).push(xv));
            assert(file_views(rest@) =~= file_views(rb).drop_first());
            assert(file_views(rest@) =~= ev.skip(taken as int));
        }
    }
    assert(ev.take(taken as int) =~= ev);
    out
}

/// The entries of `ls -la` output, in listing order.
pub open spec fn ls_entries(output: Seq<char>) -> Seq<FileView> {
    entries_of(lines(output))
}

/// Parses `ls -la` output: the listed entries, directories first, then by name
/// ignoring case.
pub fn parse_ls_output(output: &str) -> (r: Vec<FileInfo>)
    ensures
        stably_sorted(file_views(r@), ls_entries(output@)),
{
    let ls = text_lines(output);
    let ghost d = dv(ls@);
    let mut files: Vec<FileInfo> = Vec::new();
    let mut i: usize = 0;
    while i < ls.len()
        invariant
            i <= ls.len(),
            d == dv(ls@),
            file_views(files@) == entries_of(d.take(i as int)),
        decreases ls.len() - i,
    {
        let ghost before = file_views(files@);
        let e = entry_of(&ls[i]);
        proof {
            assert(d.take(i + 1).drop_last() =~= d.take(i as int));
            assert(d.take(i + 1).last() == ls@[i as int]@);
        }
        match e {
            Some(f) => {
                files.push(f);
                assert(file_views(files@) =~= before + seq![file_view(files@.last())]);
            },
            None => {
                assert(before + Seq::<FileView>::empty() =~= before);
            },
        }
        i = i + 1;
    }
    assert(d.take(ls.len() as int) =~= d);
    sort_entries(files)
}

// ---------------------------------------------------------------------------
// Commands
// ---------------------------------------------------------------------------

/// `adb -s <device> shell ls -la <path>`, without the executable.
pub fn list_files_args(device_id: &str, path: &str) -> (r: Vec<String>)
    ensures
        strs(r@) == seq!["-s"@, device_id@, "shell"@, "ls"@, "-la"@, path@],
{
    let mut v: Vec<String> = Vec::new();
    push_str_copy(&mut v, "-s");
    push_str_copy(&mut v, device_id);
    push_str_copy(&mut v, "shell");
    push_str_copy(&mut v, "ls");
    push_str_copy(&mut v, "-la");
    push_str_copy(&mut v, path);
    v
}

/// The listing of a directory from an `ls -la` run.
pub fn list_files(run: Result<CommandOutput, String>) -> (r: Result<Vec<FileInfo>, AppError>)
    ensures
        match r {
            Ok(fs) => run matches Ok(o) && o.success && stably_sorted(file_views(fs@), ls_entries(o.stdout@)),
            Err(e) => outcome(Err(e), run, "LIST_FILES_FAILED"@, "Failed to list files: "@, "List files failed: "@),
        },
{
    match run_outcome(run, "LIST_FILES_FAILED", "Failed to list files: ", "List files failed: ") {
        Ok(out) => {
            let fs = parse_ls_output(out.as_str());
            Ok(fs)
        },
        Err(e) => Err(e),
    }
}

/// `adb -s <device> push <local> <remote>`, without the executable.
pub fn push_file_args(device_id: &str, local_path: &str, remote_path: &str) -> (r: Vec<String>)
    ensures
        strs(r@) == seq!["-s"@, device_id@, "push"@, local_path@, remote_path@],
{
    let mut v: Vec<String> = Vec::new();
    push_str_copy(&mut v, "-s");
    push_str_copy(&mut v, device_id);
    push_str_copy(&mut v, "push");
    push_str_copy(&mut v, local_path);
    push_str_copy(&mut v, remote_path);
    v
}

/// The result of a push: adb's report.
pub fn push_file(run: Result<CommandOutput, String>) -> (r: Result<String, AppError>)
    ensures
        outcome(r, run, "PUSH_FAILED"@, "Failed to push file: "@, "Push failed: "@),
{
    run_outcome(run, "PUSH_FAILED", "Failed to push file: ", "Push failed: ")
}

/// `adb -s <device> pull <remote> <local>`, without the executable.
pub fn pull_file_args(device_id: &str, remote_path: &str, local_path: &str) -> (r: Vec<String>)
    ensures
        strs(r@) == seq!["-s"@, device_id@, "pull"@, remote_path@, local_path@],
{
    let mut v: Vec<String> = Vec::new();
    push_str_copy(&mut v, "-s");
    push_str_copy(&mut v, device_id);
    push_str_copy(&mut v, "pull");
    push_str_copy(&mut v, remote_path);
    push_str_copy(&mut v, local_path);
    v
}

/// The result of a pull: adb's report.
pub fn pull_file(run: Result<CommandOutput, String>) -> (r: Result<String, AppError>)
    ensures
        outcome(r, run, "PULL_FAILED"@, "Failed to pull file: "@, "Pull failed: "@),
{
    run_outcome(run, "PULL_FAILED", "Failed to pull file: ", "Pull failed: ")
}

/// `adb -s <device> shell rm -rf <path>`, without the executable.
pub fn delete_remote_file_args(device_id: &str, remote_path: &str) -> (r: Vec<String>)
    ensures
        strs(r@) == seq!["-s"@, device_id@, "shell"@, "rm"@, "-rf"@, remote_path@],
{
    let mut v: Vec<String> = Vec::new();
    push_str_copy(&mut v, "-s");
    push_str_copy(&mut v, device_id);
    push_str_copy(&mut v, "shell");
    push_str_copy(&mut v, "rm");
    push_str_copy(&mut v, "-rf");
    push_str_copy(&mut v, remote_path);
    v
}

pub fn delete_remote_file(run: Result<CommandOutput, String>) -> (r: Result<(), AppError>)
    ensures
        match r {
            Ok(_) => run matches Ok(o) && o.success,
            Err(e) => outcome(Err(e), run, "DELETE_FAILED"@, "Failed to delete: "@, "Delete failed: "@),
        },
{
    match run_outcome(run, "DELETE_FAILED", "Failed to delete: ", "Delete failed: ") {
        Ok(_) => Ok(()),
        Err(e) => Err(e),
    }
}

/// `adb -s <device> shell mkdir -p <path>`, without the executable.
pub fn create_remote_directory_args(device_id: &str, remote_path: &str) -> (r: Vec<String>)
    ensures
        strs(r@) == seq!["-s"@, device_id@, "shell"@, "mkdir"@, "-p"@, remote_path@],
{
    let mut v: Vec<String> = Vec::new();
    push_str_copy(&mut v, "-s");
    push_str_copy(&mut v, device_id);
    push_str_copy(&mut v, "shell");
    push_str_copy(&mut v, "mkdir");
    push_str_copy(&mut v, "-p");
    push_str_copy(&mut v, remote_path);
    v
}

pub fn create_remote_directory(run: Result<CommandOutput, String>) -> (r: Result<(), AppError>)
    ensures
        match r {
            Ok(_) => run matches Ok(o) && o.success,
            Err(e) => outcome(Err(e), run, "MKDIR_FAILED"@, "Failed to create directory: "@, "Create directory failed: "@),
        },
{
    match run_outcome(run, "MKDIR_FAILED", "Failed to create directory: ", "Create directory failed: ") {
        Ok(_) => Ok(()),
        Err(e) => Err(e),
    }
}

/// A well-formed `ls -la` line (trimmed, not blank, not the `total` line, with
/// at least seven fields) lists an entry exactly when its name is neither `.`
/// nor `..`; hidden names such as `.nomedia` are listed. The entry is a
/// directory exactly when the permissions start with `d`.
pub proof fn law_only_dot_entries_are_skipped(raw: Seq<char>)
    requires
        trim(raw).len() > 0,
        !starts_with(trim(raw), "total"@),
        words(trim(raw)).len() >= 7,
    ensures
        ({
            let parts = words(trim(raw));
            let name = if parts.len() > 7 { joined(parts.skip(7), " "@) } else { parts[6] };
            &&& (entry_of_line(raw) is Some <==> (name != "."@ && name != ".."@))
            &&& (entry_of_line(raw) matches Some(e) ==> e.1 == starts_with(parts[0], "d"@))
        }),
{
}

/// A line whose only name field is a hidden file name other than `.` and `..`
/// is listed.
pub proof fn law_hidden_files_are_listed(raw: Seq<char>)
    requires
        trim(raw).len() > 0,
        !starts_with(trim(raw), "total"@),
        words(trim(raw)).len() == 7,
        words(trim(raw))[6].len() > 2,
        words(trim(raw))[6][0] == '.',
    ensures
        entry_of_line(raw) is Some,
{
    reveal_strlit(".");
    reveal_strlit("..");
}

} // verus!
