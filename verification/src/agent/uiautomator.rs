// Reading the accessibility tree dumped by `uiautomator`.
//
// The library reads each `<node .../>` line into a `UiNode` with its pixel
// bounds; screen percentages are computed from these bounds outside.
use vstd::prelude::*;

use crate::text::{
    chars_of, class_pred, dv, find, find_chars, lines, lines_of, non_empty, parse_i32,
    parse_signed, slice_chars, split_by, split_class, starts_with, starts_with_str, string_of,
    trim, trimmed_chars, CharClass, drop_empty,
};

verus! {

/// The value of the first `name="..."` attribute in `node`, up to the next quote
/// (or the end), or empty when there is none.
pub open spec fn attr(node: Seq<char>, name: Seq<char>) -> Seq<char> {
    let needle = name + seq!['=', '"'];
    match find(node, needle) {
        Some(i) => {
            let rest = node.skip(i + needle.len());
            match find(rest, seq!['"']) {
                Some(e) => rest.take(e),
                None => rest,
            }
        },
        None => Seq::empty(),
    }
}

fn attr_chars(node: &Vec<char>, name: &str) -> (r: Vec<char>)
    ensures
        r@ == attr(node@, name@),
{
    let mut needle = chars_of(name);
    needle.push('=');
    needle.push('"');
    assert(needle@ =~= name@ + seq!['=', '"']);
    match find_chars(node, &needle) {
        Some(i) => {
            let rest = slice_chars(node, i + needle.len(), node.len());
            assert(rest@ =~= node@.skip(i + needle.len()));
            let mut q: Vec<char> = Vec::new();
            q.push('"');
            assert(q@ =~= seq!['"']);
            match find_chars(&rest, &q) {
                Some(e) => {
                    let v = slice_chars(&rest, 0, e);
                    assert(v@ =~= rest@.take(e as int));
                    v
                },
                None => rest,
            }
        },
        None => Vec::new(),
    }
}

/// Extracts the value of `name="value"` from a node's attribute text; empty
/// when the attribute is missing.
pub fn attr_value(node: &str, name: &str) -> (r: String)
    ensures
        r@ == attr(node@, name@),
{
    let v = chars_of(node);
    let a = attr_chars(&v, name);
    string_of(a.as_slice())
}

/// `s` without leading or trailing `'"'` (`str::trim_matches('"')`).
pub open spec fn trim_quotes_start(s: Seq<char>) -> Seq<char>
    decreases s.len(),
{
    if s.len() > 0 && s[0] == '"' {
        trim_quotes_start(s.drop_first())
    } else {
        s
    }
}

pub open spec fn trim_quotes_end(s: Seq<char>) -> Seq<char>
    decreases s.len(),
{
    if s.len() > 0 && s.last() == '"' {
        trim_quotes_end(s.drop_last())
    } else {
        s
    }
}

pub open spec fn trim_quotes(s: Seq<char>) -> Seq<char> {
    trim_quotes_end(trim_quotes_start(s))
}

/// The numbers among `tokens` that parse as `i32`, in order.
pub open spec fn parsed_ints(tokens: Seq<Seq<char>>) -> Seq<int>
    decreases tokens.len(),
{
    if tokens.len() == 0 {
        seq![]
    } else {
        parsed_ints(tokens.drop_last()) + match parse_signed(tokens.last(), i32::MIN as int, i32::MAX as int) {
            Some(n) => seq![n],
            None => seq![],
        }
    }
}

/// The numbers of a bounds string: runs of digits and `-` between other
/// characters, those that parse as `i32`.
pub open spec fn bounds_numbers(s: Seq<char>) -> Seq<int> {
    parsed_ints(non_empty(split_by(trim_quotes(s), class_pred(CharClass::NotSignedDigit))))
}

/// `[x1, y1, x2, y2]`: the first four numbers of a bounds string, if it has four.
pub open spec fn bounds_of(s: Seq<char>) -> Option<Seq<int>> {
    let n = bounds_numbers(s);
    if n.len() >= 4 {
        Some(seq![n[0], n[1], n[2], n[3]])
    } else {
        None
    }
}

fn trim_quote_chars(v: &Vec<char>) -> (r: Vec<char>)
    ensures
        r@ == trim_quotes(v@),
{
    let mut i: usize = 0;
    proof {
        assert(v@.skip(0) =~= v@);
    }
    while i < v.len() && v[i] == '"'
        invariant
            i <= v.len(),
            trim_quotes_start(v@) == trim_quotes_start(v@.skip(i as int)),
        decreases v.len() - i,
    {
        proof {
            assert(v@.skip(i as int).drop_first() =~= v@.skip(i as int + 1));
        }
        i = i + 1;
    }
    let mut j: usize = v.len();
    proof {
        let t = v@.skip(i as int);
        assert(t.len() == 0 || t[0] != '"');
        assert(trim_quotes_start(t) == t);
        assert(t.take(t.len() as int) =~= t);
    }
    while j > i && v[j - 1] == '"'
        invariant
            i <= j <= v.len(),
            trim_quotes(v@) == trim_quotes_end(v@.subrange(i as int, j as int)),
        decreases j,
    {
        proof {
            assert(v@.subrange(i as int, j as int).drop_last() =~= v@.subrange(i as int, j - 1));
        }
        j = j - 1;
    }
    proof {
        let u = v@.subrange(i as int, j as int);
        if u.len() > 0 {
            assert(u.last() == v@[j - 1]);
        }
        assert(trim_quotes_end(u) == u);
    }
    slice_chars(v, i, j)
}

/// Parses a `[x1,y1][x2,y2]` bounds string into `[x1, y1, x2, y2]`.
pub fn parse_bounds(bounds_str: &str) -> (r: Option<[i32; 4]>)
    ensures
        match r {
            Some(b) => bounds_of(bounds_str@) == Some(seq![b[0] as int, b[1] as int, b[2] as int, b[3] as int]),
            None => bounds_of(bounds_str@) is None,
        },
{
    let v = chars_of(bounds_str);
    let s = trim_quote_chars(&v);
    let pieces = split_class(&s, CharClass::NotSignedDigit);
    let tokens = drop_empty(&pieces);
    let ghost ts = dv(tokens@);
    let mut nums: Vec<i32> = Vec::new();
    let mut i: usize = 0;
    proof {
        assert(ts.take(0) =~= Seq::<Seq<char>>::empty());
    }
    while i < tokens.len()
        invariant
            i <= tokens.len(),
            ts == dv(tokens@),
            Seq::new(nums@.len(), |k: int| nums@[k] as int) == parsed_ints(ts.take(i as int)),
        decreases tokens.len() - i,
    {
        let ghost before = Seq::new(nums@.len(), |k: int| nums@[k] as int);
        let ghost t = ts.take(i as int + 1);
        proof {
            assert(t.drop_last() =~= ts.take(i as int));
            assert(t.last() == tokens@[i as int]@);
        }
        match parse_i32(&tokens[i]) {
            Some(n) => {
                nums.push(n);
                assert(Seq::new(nums@.len(), |k: int| nums@[k] as int) =~= before + seq![n as int]);
            },
            None => {
                assert(Seq::new(nums@.len(), |k: int| nums@[k] as int) =~= before + Seq::<int>::empty());
            },
        }
        i = i + 1;
    }
    proof {
        assert(ts.take(tokens.len() as int) =~= ts);
    }
    if nums.len() >= 4 {
        Some([nums[0], nums[1], nums[2], nums[3]])
    } else {
        None
    }
}

/// One element of the accessibility tree, with pixel bounds.
#[derive(Debug, Clone, PartialEq)]
pub struct UiNode {
    /// The `text` attribute, or `content-desc` when the text is empty.
    pub label: String,
    pub resource_id: String,
    pub class: String,
    /// `[x1, y1, x2, y2]`.
    pub bounds: [i32; 4],
    pub clickable: bool,
}

/// `n` is the node that the trimmed `<node` line `t` describes.
pub open spec fn node_from_line(n: UiNode, t: Seq<char>) -> bool {
    let text = attr(t, "text"@);
    &&& n.clickable == (attr(t, "clickable"@) == "true"@ || attr(t, "long-clickable"@) == "true"@)
    &&& bounds_of(attr(t, "bounds"@)) == Some(seq![n.bounds[0] as int, n.bounds[1] as int, n.bounds[2] as int, n.bounds[3] as int])
    &&& n.label@ == if text.len() > 0 { text } else { attr(t, "content-desc"@) }
    &&& n.resource_id@ == attr(t, "resource-id"@)
    &&& n.class@ == attr(t, "class"@)
}

/// A line describes a node when, trimmed, it starts with `<node` and has
/// readable bounds.
pub open spec fn is_node_line(line: Seq<char>) -> bool {
    let t = trim(line);
    starts_with(t, "<node"@) && bounds_of(attr(t, "bounds"@)) is Some
}

/// The trimmed node lines among `ls`, in order.
pub open spec fn node_lines(ls: Seq<Seq<char>>) -> Seq<Seq<char>>
    decreases ls.len(),
{
    if ls.len() == 0 {
        seq![]
    } else {
        node_lines(ls.drop_last()) + if is_node_line(ls.last()) {
            seq![trim(ls.last())]
        } else {
            seq![]
        }
    }
}

fn string_of_vec(v: &Vec<char>) -> (r: String)
    ensures
        r@ == v@,
{
    string_of(v.as_slice())
}

/// Reads every `<node ... bounds="..." ...>` line of a uiautomator dump.
pub fn parse_ui_nodes(xml: &str) -> (r: Vec<UiNode>)
    ensures
        r@.len() == node_lines(lines(xml@)).len(),
        forall|i: int| 0 <= i < r@.len() ==> node_from_line(#[trigger] r@[i], node_lines(lines(xml@))[i]),
{
    let chars = chars_of(xml);
    let ls = lines_of(&chars);
    let ghost all = dv(ls@);
    let mut nodes: Vec<UiNode> = Vec::new();
    let mut i: usize = 0;
    proof {
        assert(all.take(0) =~= Seq::<Seq<char>>::empty());
    }
    while i < ls.len()
        invariant
            i <= ls.len(),
            all == dv(ls@),
            all == lines(xml@),
            nodes@.len() == node_lines(all.take(i as int)).len(),
            forall|j: int| 0 <= j < nodes@.len() ==> node_from_line(#[trigger] nodes@[j], node_lines(all.take(i as int))[j]),
        decreases ls.len() - i,
    {
        let ghost prev = node_lines(all.take(i as int));
        let ghost tk = all.take(i as int + 1);
        proof {
            assert(tk.drop_last() =~= all.take(i as int));
            assert(tk.last() == ls@[i as int]@);
        }
        let t = trimmed_chars(&ls[i]);
        let mut handled = false;
        if starts_with_str(&t, "<node") {
            let b = attr_chars(&t, "bounds");
            let bs = string_of_vec(&b);
            if let Some(bounds) = parse_bounds(bs.as_str()) {
                let ck = attr_chars(&t, "clickable");
                let lck = attr_chars(&t, "long-clickable");
                let clickable = crate::text::chars_eq_str(&ck, "true") || crate::text::chars_eq_str(&lck, "true");
                let text = attr_chars(&t, "text");
                let label = if text.len() > 0 {
                    string_of_vec(&text)
                } else {
                    let d = attr_chars(&t, "content-desc");
                    string_of_vec(&d)
                };
                let rid = attr_chars(&t, "resource-id");
                let cls = attr_chars(&t, "class");
                let node = UiNode {
                    label,
                    resource_id: string_of_vec(&rid),
                    class: string_of_vec(&cls),
                    bounds,
                    clickable,
                };
                nodes.push(node);
                handled = true;
                proof {
                    assert(node_lines(tk) == prev + seq![t@]);
                    assert forall|j: int| 0 <= j < nodes@.len() implies node_from_line(#[trigger] nodes@[j], node_lines(tk)[j]) by {
                        if j < prev.len() {
                            assert(node_lines(tk)[j] == prev[j]);
                        }
                    }
                }
            }
        }
        if !handled {
            assert(node_lines(tk) =~= prev);
        }
        i = i + 1;
    }
    proof {
        assert(all.take(ls.len() as int) =~= all);
    }
    nodes
}

impl UiNode {
    /// The pixel center of the element.
    pub fn tap_coords(&self) -> (r: (i32, i32))
        requires
            i32::MIN <= self.bounds[0] + self.bounds[2] <= i32::MAX,
            i32::MIN <= self.bounds[1] + self.bounds[3] <= i32::MAX,
        ensures
            r.0 as int == crate::agent::executor::div_trunc(self.bounds[0] + self.bounds[2], 2),
            r.1 as int == crate::agent::executor::div_trunc(self.bounds[1] + self.bounds[3], 2),
    {
        let cx = (self.bounds[0] + self.bounds[2]) / 2;
        let cy = (self.bounds[1] + self.bounds[3]) / 2;
        (cx, cy)
    }
}


/// The tree is worth using: at least one element is clickable.
pub fn is_useful(nodes: &Vec<UiNode>) -> (r: bool)
    ensures
        r == exists|k: int| 0 <= k < nodes.len() && (#[trigger] nodes@[k]).clickable,
{
    let mut i: usize = 0;
    while i < nodes.len()
        invariant
            i <= nodes.len(),
            forall|k: int| 0 <= k < i ==> !(#[trigger] nodes@[k]).clickable,
        decreases nodes.len() - i,
    {
        if nodes[i].clickable {
            return true;
        }
        i = i + 1;
    }
    false
}

/// A clickable element whose label or resource id contains the hint,
/// ignoring case.
pub open spec fn matches_hint(n: UiNode, hint: Seq<char>) -> bool {
    n.clickable && (crate::text::contains(crate::text::lowercase(n.label@), crate::text::lowercase(hint))
        || crate::text::contains(crate::text::lowercase(n.resource_id@), crate::text::lowercase(hint)))
}

/// The index of the first element matching the hint.
pub fn find_by_hint(nodes: &Vec<UiNode>, hint: &str) -> (r: Option<usize>)
    ensures
        match r {
            Some(i) => i < nodes.len() && matches_hint(nodes@[i as int], hint@) && forall|k: int|
                0 <= k < i ==> !matches_hint(#[trigger] nodes@[k], hint@),
            None => forall|k: int| 0 <= k < nodes.len() ==> !matches_hint(#[trigger] nodes@[k], hint@),
        },
{
    let lower = crate::text::lowercase_chars(&chars_of(hint));
    let mut i: usize = 0;
    while i < nodes.len()
        invariant
            i <= nodes.len(),
            lower@ == crate::text::lowercase(hint@),
            forall|k: int| 0 <= k < i ==> !matches_hint(#[trigger] nodes@[k], hint@),
        decreases nodes.len() - i,
    {
        let n = &nodes[i];
        if n.clickable {
            let l = crate::text::lowercase_chars(&chars_of(n.label.as_str()));
            let rid = crate::text::lowercase_chars(&chars_of(n.resource_id.as_str()));
            if crate::text::contains_chars(&l, &lower) || crate::text::contains_chars(&rid, &lower) {
                return Some(i);
            }
        }
        i = i + 1;
    }
    None
}

/// `adb -s <device> shell uiautomator dump /sdcard/ui_dump.xml && cat
/// /sdcard/ui_dump.xml`, without the executable.
pub fn dump_args(device_id: &str) -> (r: Vec<String>)
    ensures
        crate::adb::command_builder::strs(r@) == seq![
            "-s"@,
            device_id@,
            "shell"@,
            "uiautomator"@,
            "dump"@,
            "/sdcard/ui_dump.xml"@,
            "&&"@,
            "cat"@,
            "/sdcard/ui_dump.xml"@,
        ],
{
    let mut v: Vec<String> = Vec::new();
    crate::adb::command_builder::push_str_copy(&mut v, "-s");
    crate::adb::command_builder::push_str_copy(&mut v, device_id);
    crate::adb::command_builder::push_str_copy(&mut v, "shell");
    crate::adb::command_builder::push_str_copy(&mut v, "uiautomator");
    crate::adb::command_builder::push_str_copy(&mut v, "dump");
    crate::adb::command_builder::push_str_copy(&mut v, "/sdcard/ui_dump.xml");
    crate::adb::command_builder::push_str_copy(&mut v, "&&");
    crate::adb::command_builder::push_str_copy(&mut v, "cat");
    crate::adb::command_builder::push_str_copy(&mut v, "/sdcard/ui_dump.xml");
    v
}

/// `adb -s <device> shell cat /sdcard/ui_dump.xml`, the fallback read, without
/// the executable.
pub fn read_dump_args(device_id: &str) -> (r: Vec<String>)
    ensures
        crate::adb::command_builder::strs(r@) == seq!["-s"@, device_id@, "shell"@, "cat"@, "/sdcard/ui_dump.xml"@],
{
    let mut v: Vec<String> = Vec::new();
    crate::adb::command_builder::push_str_copy(&mut v, "-s");
    crate::adb::command_builder::push_str_copy(&mut v, device_id);
    crate::adb::command_builder::push_str_copy(&mut v, "shell");
    crate::adb::command_builder::push_str_copy(&mut v, "cat");
    crate::adb::command_builder::push_str_copy(&mut v, "/sdcard/ui_dump.xml");
    v
}

/// The dump printed nothing readable, so the file is read again.
pub fn dump_needs_reread(xml: &str) -> (r: bool)
    ensures
        r == (trim(xml@).len() == 0),
{
    let t = crate::text::trimmed(xml);
    t.as_str().is_empty()
}

/// The error of a dump or read that could not run.
pub fn dump_error(reread: bool, detail: &str) -> (r: crate::error::AppError)
    ensures
        r.is(
            "UIAUTOMATOR_FAILED"@,
            (if reread {
                "Failed to read ui_dump.xml: "@
            } else {
                "uiautomator dump failed: "@
            }) + detail@,
            None,
        ),
{
    crate::command_utils::error_with(
        "UIAUTOMATOR_FAILED",
        if reread { "Failed to read ui_dump.xml: " } else { "uiautomator dump failed: " },
        detail,
    )
}

/// A parsed node is clickable exactly when its `clickable` or its
/// `long-clickable` attribute is `true`: a node that only takes long presses
/// is clickable, and one with neither is not.
pub proof fn law_long_press_counts_as_click(n: UiNode, t: Seq<char>)
    requires
        node_from_line(n, t),
    ensures
        attr(t, "long-clickable"@) == "true"@ ==> n.clickable,
        attr(t, "clickable"@) == "true"@ ==> n.clickable,
        n.clickable ==> attr(t, "clickable"@) == "true"@ || attr(t, "long-clickable"@) == "true"@,
{
}

} // verus!
