// Device actions: reboot, input, display settings, and reading which app is
// in front and what it is called.
use vstd::prelude::*;

use crate::adb::command_builder::{push_str_copy, strs};
use crate::adb::executor::CommandOutput;
use crate::command_utils::error_with;
use crate::error::AppError;
use crate::text::{
    chars_eq_str, chars_of, contains, contains_str, dv, i64_to_string, lines, signed_decimal,
    decimal, split_str, split_str_chars, split_whitespace, string_of, strip_prefix,
    strip_prefix_str, text_lines, trim, trimmed, trimmed_chars, u64_to_string, words, push_char,
    slice_chars,
};

verus! {

/// `adb -s <device> reboot [mode]`, without the executable; an empty mode is
/// left out.
pub fn reboot_args(device_id: &str, mode: Option<&str>) -> (r: Vec<String>)
    ensures
        strs(r@) == seq!["-s"@, device_id@, "reboot"@] + match mode {
            Some(m) => if m@.len() > 0 {
                seq![m@]
            } else {
                Seq::empty()
            },
            None => Seq::empty(),
        },
{
    let mut v: Vec<String> = Vec::new();
    push_str_copy(&mut v, "-s");
    push_str_copy(&mut v, device_id);
    push_str_copy(&mut v, "reboot");
    let ghost base = strs(v@);
    if let Some(m) = mode {
        let mc = chars_of(m);
        if mc.len() > 0 {
            push_str_copy(&mut v, m);
            assert(strs(v@) =~= base + seq![m@]);
        } else {
            assert(strs(v@) =~= base + Seq::<Seq<char>>::empty());
        }
    } else {
        assert(strs(v@) =~= base + Seq::<Seq<char>>::empty());
    }
    v
}

/// How `input text` needs a character written: `%s` for a space, a backslash
/// before each of `\ " ' & | ; ( ) < >`.
pub open spec fn input_escape(c: char) -> Seq<char> {
    if c == ' ' {
        seq!['%', 's']
    } else if c == '\\' || c == '"' || c == '\'' || c == '&' || c == '|' || c == ';' || c == '('
        || c == ')' || c == '<' || c == '>' {
        seq!['\\', c]
    } else {
        seq![c]
    }
}

/// Text written for `input text`: each character escaped.
pub open spec fn input_escaped(s: Seq<char>) -> Seq<char>
    decreases s.len(),
{
    if s.len() == 0 {
        Seq::empty()
    } else {
        input_escaped(s.drop_last()) + input_escape(s.last())
    }
}

pub fn escape_input_text(text: &str) -> (r: String)
    ensures
        r@ == input_escaped(text@),
{
    let v = chars_of(text);
    let mut out = String::new();
    let mut i: usize = 0;
    while i < v.len()
        invariant
            i <= v.len(),
            out@ == input_escaped(v@.take(i as int)),
        decreases v.len() - i,
    {
        let c = v[i];
        let ghost before = out@;
        if c == ' ' {
            push_char(&mut out, '%');
            push_char(&mut out, 's');
        } else if c == '\\' || c == '"' || c == '\'' || c == '&' || c == '|' || c == ';' || c == '('
            || c == ')' || c == '<' || c == '>' {
            push_char(&mut out, '\\');
            push_char(&mut out, c);
        } else {
            push_char(&mut out, c);
        }
        proof {
            assert(v@.take(i + 1).drop_last() =~= v@.take(i as int));
            assert(out@ =~= before + input_escape(c));
        }
        i = i + 1;
    }
    assert(v@.take(v.len() as int) =~= v@);
    out
}

/// Escaped text never holds a bare space, so the shell passes it to `input
/// text` as one word.
pub proof fn law_escaped_text_has_no_spaces(text: Seq<char>)
    ensures
        forall|i: int| 0 <= i < input_escaped(text).len() ==> input_escaped(text)[i] != ' ',
    decreases text.len(),
{
    if text.len() > 0 {
        law_escaped_text_has_no_spaces(text.drop_last());
        let a = input_escaped(text.drop_last());
        let b = input_escape(text.last());
        assert forall|i: int| 0 <= i < (a + b).len() implies (a + b)[i] != ' ' by {
            if i >= a.len() {
                assert(b[i - a.len()] != ' ');
            }
        }
    }
}

/// `adb -s <device> shell input text <escaped text>`, without the executable.
pub fn input_text_args(device_id: &str, text: &str) -> (r: Vec<String>)
    ensures
        strs(r@) == seq!["-s"@, device_id@, "shell"@, "input"@, "text"@, input_escaped(text@)],
{
    let mut v: Vec<String> = Vec::new();
    push_str_copy(&mut v, "-s");
    push_str_copy(&mut v, device_id);
    push_str_copy(&mut v, "shell");
    push_str_copy(&mut v, "input");
    push_str_copy(&mut v, "text");
    let e = escape_input_text(text);
    push_str_copy(&mut v, e.as_str());
    v
}

/// The shell reports a failed `input` on standard output.
pub open spec fn reports_error(out: Seq<char>) -> bool {
    contains(out, "Exception"@) || contains(out, "Error"@) || contains(out, "error"@)
}

/// The result of `input text`: an error naming the trimmed output when it
/// reports an error, else, when the command failed, naming its trimmed
/// standard error (or output when the error stream is empty).
pub open spec fn input_text_result(r: Result<(), AppError>, run: Result<CommandOutput, String>) -> bool {
    match run {
        Err(e) => r matches Err(err) && err.is("INPUT_FAILED"@, "Failed to input text: "@ + e@, None),
        Ok(o) => if reports_error(o.stdout@) {
            r matches Err(err) && err.is("INPUT_FAILED"@, "Input failed: "@ + trim(o.stdout@), None)
        } else if !o.success {
            r matches Err(err) && err.is(
                "INPUT_FAILED"@,
                "Input failed: "@ + if o.stderr@.len() == 0 {
                    trim(o.stdout@)
                } else {
                    trim(o.stderr@)
                },
                None,
            )
        } else {
            r is Ok
        },
    }
}

pub fn input_text(run: Result<CommandOutput, String>) -> (r: Result<(), AppError>)
    ensures
        input_text_result(r, run),
{
    match run {
        Err(e) => Err(error_with("INPUT_FAILED", "Failed to input text: ", e.as_str())),
        Ok(o) => {
            let out = chars_of(o.stdout.as_str());
            if contains_str(&out, "Exception") || contains_str(&out, "Error") || contains_str(
                &out,
                "error",
            ) {
                let t = trimmed(o.stdout.as_str());
                return Err(error_with("INPUT_FAILED", "Input failed: ", t.as_str()));
            }
            if !o.success {
                let err = chars_of(o.stderr.as_str());
                let t = if err.len() == 0 {
                    trimmed(o.stdout.as_str())
                } else {
                    trimmed(o.stderr.as_str())
                };
                return Err(error_with("INPUT_FAILED", "Input failed: ", t.as_str()));
            }
            Ok(())
        },
    }
}

/// `adb -s <device> shell input tap <x> <y>`, without the executable.
pub fn input_tap_args(device_id: &str, x: i32, y: i32) -> (r: Vec<String>)
    ensures
        strs(r@) == seq![
            "-s"@,
            device_id@,
            "shell"@,
            "input"@,
            "tap"@,
            signed_decimal(x as int),
            signed_decimal(y as int),
        ],
{
    let mut v: Vec<String> = Vec::new();
    push_str_copy(&mut v, "-s");
    push_str_copy(&mut v, device_id);
    push_str_copy(&mut v, "shell");
    push_str_copy(&mut v, "input");
    push_str_copy(&mut v, "tap");
    let xs = i64_to_string(x as i64);
    push_str_copy(&mut v, xs.as_str());
    let ys = i64_to_string(y as i64);
    push_str_copy(&mut v, ys.as_str());
    v
}

/// The result of `input tap`: a failed run names its output and error.
pub fn input_tap(run: Result<CommandOutput, String>) -> (r: Result<(), AppError>)
    ensures
        match run {
            Err(e) => r matches Err(err) && err.is("INPUT_TAP_FAILED"@, "Failed to input tap: "@ + e@, None),
            Ok(o) => if o.success {
                r is Ok
            } else {
                r matches Err(err) && err.is(
                    "INPUT_TAP_FAILED"@,
                    "Input tap failed: "@ + o.stdout@ + " "@ + o.stderr@,
                    None,
                )
            },
        },
{
    match run {
        Err(e) => Err(error_with("INPUT_TAP_FAILED", "Failed to input tap: ", e.as_str())),
        Ok(o) => {
            if o.success {
                Ok(())
            } else {
                let mut m = String::new();
                m.append(o.stdout.as_str());
                m.append(" ");
                m.append(o.stderr.as_str());
                assert("Input tap failed: "@ + m@ =~= "Input tap failed: "@ + o.stdout@ + " "@ + o.stderr@);
                Err(error_with("INPUT_TAP_FAILED", "Input tap failed: ", m.as_str()))
            }
        },
    }
}

/// `adb -s <device> shell input swipe <x1> <y1> <x2> <y2> <ms>`, without the
/// executable.
pub fn input_swipe_args(device_id: &str, x1: i32, y1: i32, x2: i32, y2: i32, duration_ms: u32) -> (r:
    Vec<String>)
    ensures
        strs(r@) == seq![
            "-s"@,
            device_id@,
            "shell"@,
            "input"@,
            "swipe"@,
            signed_decimal(x1 as int),
            signed_decimal(y1 as int),
            signed_decimal(x2 as int),
            signed_decimal(y2 as int),
            decimal(duration_ms as nat),
        ],
{
    let mut v: Vec<String> = Vec::new();
    push_str_copy(&mut v, "-s");
    push_str_copy(&mut v, device_id);
    push_str_copy(&mut v, "shell");
    push_str_copy(&mut v, "input");
    push_str_copy(&mut v, "swipe");
    let a = i64_to_string(x1 as i64);
    push_str_copy(&mut v, a.as_str());
    let b = i64_to_string(y1 as i64);
    push_str_copy(&mut v, b.as_str());
    let c = i64_to_string(x2 as i64);
    push_str_copy(&mut v, c.as_str());
    let d = i64_to_string(y2 as i64);
    push_str_copy(&mut v, d.as_str());
    let e = u64_to_string(duration_ms as u64);
    push_str_copy(&mut v, e.as_str());
    v
}

/// The result of `input swipe`: a failed run names its error output.
pub fn input_swipe(run: Result<CommandOutput, String>) -> (r: Result<(), AppError>)
    ensures
        match run {
            Err(e) => r matches Err(err) && err.is("INPUT_SWIPE_FAILED"@, "Failed to input swipe: "@ + e@, None),
            Ok(o) => if o.success {
                r is Ok
            } else {
                r matches Err(err) && err.is("INPUT_SWIPE_FAILED"@, "Input swipe failed: "@ + o.stderr@, None)
            },
        },
{
    match run {
        Err(e) => Err(error_with("INPUT_SWIPE_FAILED", "Failed to input swipe: ", e.as_str())),
        Ok(o) => {
            if o.success {
                Ok(())
            } else {
                Err(error_with("INPUT_SWIPE_FAILED", "Input swipe failed: ", o.stderr.as_str()))
            }
        },
    }
}

/// `adb -s <device> shell cmd uimode night yes|no`, without the executable.
pub fn dark_mode_args(device_id: &str, enabled: bool) -> (r: Vec<String>)
    ensures
        strs(r@) == seq![
            "-s"@,
            device_id@,
            "shell"@,
            "cmd"@,
            "uimode"@,
            "night"@,
            if enabled {
                "yes"@
            } else {
                "no"@
            },
        ],
{
    let mut v: Vec<String> = Vec::new();
    push_str_copy(&mut v, "-s");
    push_str_copy(&mut v, device_id);
    push_str_copy(&mut v, "shell");
    push_str_copy(&mut v, "cmd");
    push_str_copy(&mut v, "uimode");
    push_str_copy(&mut v, "night");
    push_str_copy(&mut v, if enabled { "yes" } else { "no" });
    v
}

/// `adb -s <device> shell settings put system show_touches 1|0`, without the
/// executable.
pub fn show_taps_args(device_id: &str, enabled: bool) -> (r: Vec<String>)
    ensures
        strs(r@) == seq![
            "-s"@,
            device_id@,
            "shell"@,
            "settings"@,
            "put"@,
            "system"@,
            "show_touches"@,
            if enabled {
                "1"@
            } else {
                "0"@
            },
        ],
{
    let mut v: Vec<String> = Vec::new();
    push_str_copy(&mut v, "-s");
    push_str_copy(&mut v, device_id);
    push_str_copy(&mut v, "shell");
    push_str_copy(&mut v, "settings");
    push_str_copy(&mut v, "put");
    push_str_copy(&mut v, "system");
    push_str_copy(&mut v, "show_touches");
    push_str_copy(&mut v, if enabled { "1" } else { "0" });
    v
}

/// The global setting names of the three animation scales.
pub open spec fn animation_settings() -> Seq<Seq<char>> {
    seq!["window_animation_scale"@, "transition_animation_scale"@, "animator_duration_scale"@]
}

/// `adb -s <device> shell settings put global <setting> <value>` for each of
/// the three animation scales, in order, without the executable.
pub fn animation_args(device_id: &str, value: &str) -> (r: Vec<Vec<String>>)
    ensures
        r.len() == 3,
        forall|i: int|
            0 <= i < 3 ==> strs(#[trigger] r@[i]@) == seq![
                "-s"@,
                device_id@,
                "shell"@,
                "settings"@,
                "put"@,
                "global"@,
                animation_settings()[i],
                value@,
            ],
{
    let mut out: Vec<Vec<String>> = Vec::new();
    let names: [&str; 3] = ["window_animation_scale", "transition_animation_scale", "animator_duration_scale"];
    let mut i: usize = 0;
    while i < 3
        invariant
            i <= 3,
            out.len() == i,
            names@ == seq!["window_animation_scale", "transition_animation_scale", "animator_duration_scale"],
            forall|k: int|
                0 <= k < i ==> strs(#[trigger] out@[k]@) == seq![
                    "-s"@,
                    device_id@,
                    "shell"@,
                    "settings"@,
                    "put"@,
                    "global"@,
                    animation_settings()[k],
                    value@,
                ],
        decreases 3 - i,
    {
        let mut v: Vec<String> = Vec::new();
        push_str_copy(&mut v, "-s");
        push_str_copy(&mut v, device_id);
        push_str_copy(&mut v, "shell");
        push_str_copy(&mut v, "settings");
        push_str_copy(&mut v, "put");
        push_str_copy(&mut v, "global");
        push_str_copy(&mut v, names[i]);
        push_str_copy(&mut v, value);
        out.push(v);
        i = i + 1;
    }
    out
}

// ---------------------------------------------------------------------------
// Foreground app and app label
// ---------------------------------------------------------------------------

/// `s` without leading `c`s.
pub open spec fn trim_start_char(s: Seq<char>, c: char) -> Seq<char>
    decreases s.len(),
{
    if s.len() > 0 && s[0] == c {
        trim_start_char(s.drop_first(), c)
    } else {
        s
    }
}

/// `s` without trailing `c`s.
pub open spec fn trim_end_char(s: Seq<char>, c: char) -> Seq<char>
    decreases s.len(),
{
    if s.len() > 0 && s.last() == c {
        trim_end_char(s.drop_last(), c)
    } else {
        s
    }
}

/// `str::trim_matches` with one character.
pub open spec fn trim_matches(s: Seq<char>, c: char) -> Seq<char> {
    trim_end_char(trim_start_char(s, c), c)
}

fn trim_matches_chars(s: &Vec<char>, c: char) -> (r: Vec<char>)
    ensures
        r@ == trim_matches(s@, c),
{
    let mut a: usize = 0;
    assert(s@.skip(0) =~= s@);
    while a < s.len() && s[a] == c
        invariant
            a <= s.len(),
            trim_start_char(s@, c) == trim_start_char(s@.skip(a as int), c),
        decreases s.len() - a,
    {
        assert(s@.skip(a as int).drop_first() =~= s@.skip(a + 1));
        a = a + 1;
    }
    let mut b: usize = s.len();
    assert(s@.subrange(a as int, b as int) =~= s@.skip(a as int));
    while b > a && s[b - 1] == c
        invariant
            a <= b <= s.len(),
            trim_matches(s@, c) == trim_end_char(s@.subrange(a as int, b as int), c),
        decreases b,
    {
        assert(s@.subrange(a as int, b as int).drop_last() =~= s@.subrange(a as int, b - 1));
        b = b - 1;
    }
    slice_chars(s, a, b)
}

/// The package named by a window line of `dumpsys window windows`: on a line
/// about the current focus or focused app that holds a `/`, the first field
/// holding a `/`, cut at its first `/`, without surrounding braces, if that
/// is a non-empty dotted name.
pub open spec fn focus_package(l: Seq<char>) -> Option<Seq<char>> {
    if (contains(l, "mCurrentFocus"@) || contains(l, "mFocusedApp"@)) && contains(l, "/"@) {
        match crate::text::first_where(words(l), crate::text::contains_test("/"@), 0) {
            Some(i) => {
                let pieces = split_str(words(l)[i], "/"@);
                if pieces.len() > 0 {
                    let pkg = trim_matches(trim_matches(pieces[0], '{'), '}');
                    if pkg.len() > 0 && contains(pkg, "."@) {
                        Some(pkg)
                    } else {
                        None
                    }
                } else {
                    None
                }
            },
            None => None,
        }
    } else {
        None
    }
}

/// The first package named by a line at or after `i`, else the empty text.
pub open spec fn foreground_from(ls: Seq<Seq<char>>, i: int) -> Seq<char>
    decreases ls.len() - i,
{
    if i < 0 || i >= ls.len() {
        Seq::empty()
    } else {
        match focus_package(ls[i]) {
            Some(p) => p,
            None => foreground_from(ls, i + 1),
        }
    }
}

fn focus_package_exec(l: &Vec<char>) -> (r: Option<Vec<char>>)
    ensures
        match r {
            Some(v) => focus_package(l@) == Some(v@),
            None => focus_package(l@) is None,
        },
{
    if !((contains_str(l, "mCurrentFocus") || contains_str(l, "mFocusedApp")) && contains_str(l, "/")) {
        return None;
    }
    let ws = split_whitespace(l);
    let slash = chars_of("/");
    proof {
        reveal_strlit("/");
    }
    let t = crate::text::LineTest::Contains(chars_of("/"));
    match crate::text::first_line_where(&ws, &t) {
        Some(i) => {
            let pieces = split_str_chars(&ws[i], &slash);
            assert(dv(ws@)[i as int] == ws@[i as int]@);
            if pieces.len() > 0 {
                assert(dv(pieces@)[0] == pieces@[0]@);
                let p1 = trim_matches_chars(&pieces[0], '{');
                let pkg = trim_matches_chars(&p1, '}');
                if pkg.len() > 0 && contains_str(&pkg, ".") {
                    Some(pkg)
                } else {
                    None
                }
            } else {
                None
            }
        },
        None => None,
    }
}

/// The package of the app in front, from `dumpsys window windows` output, or
/// the empty text when no line names one.
pub fn foreground_package(stdout: &str) -> (r: String)
    ensures
        r@ == foreground_from(lines(stdout@), 0),
{
    let ls = text_lines(stdout);
    let ghost d = dv(ls@);
    let mut i: usize = 0;
    while i < ls.len()
        invariant
            i <= ls.len(),
            d == dv(ls@),
            d == lines(stdout@),
            foreground_from(d, 0) == foreground_from(d, i as int),
        decreases ls.len() - i,
    {
        assert(d[i as int] == ls@[i as int]@);
        match focus_package_exec(&ls[i]) {
            Some(p) => {
                assert(foreground_from(d, i as int) == p@);
                return string_of(p.as_slice());
            },
            None => {},
        }
        i = i + 1;
    }
    String::new()
}

/// `adb -s <device> shell dumpsys window windows`, without the executable.
pub fn foreground_args(device_id: &str) -> (r: Vec<String>)
    ensures
        strs(r@) == seq!["-s"@, device_id@, "shell"@, "dumpsys"@, "window"@, "windows"@],
{
    let mut v: Vec<String> = Vec::new();
    push_str_copy(&mut v, "-s");
    push_str_copy(&mut v, device_id);
    push_str_copy(&mut v, "shell");
    push_str_copy(&mut v, "dumpsys");
    push_str_copy(&mut v, "window");
    push_str_copy(&mut v, "windows");
    v
}

/// The label on a `dumpsys package` line: the trimmed text after
/// `nonLocalizedLabel=` on the trimmed line, unless empty or `null`.
pub open spec fn label_on(l: Seq<char>) -> Option<Seq<char>> {
    match strip_prefix(trim(l), "nonLocalizedLabel="@) {
        Some(v) => if trim(v).len() > 0 && trim(v) != "null"@ {
            Some(trim(v))
        } else {
            None
        },
        None => None,
    }
}

/// The first label on a line at or after `i`, else the package name.
pub open spec fn label_from(ls: Seq<Seq<char>>, i: int, package_name: Seq<char>) -> Seq<char>
    decreases ls.len() - i,
{
    if i < 0 || i >= ls.len() {
        package_name
    } else {
        match label_on(ls[i]) {
            Some(v) => v,
            None => label_from(ls, i + 1, package_name),
        }
    }
}

/// The display name of an app from `dumpsys package` output; the package
/// name when none is given.
pub fn app_label(stdout: &str, package_name: &str) -> (r: String)
    ensures
        r@ == label_from(lines(stdout@), 0, package_name@),
{
    let ls = text_lines(stdout);
    let ghost d = dv(ls@);
    let mut i: usize = 0;
    while i < ls.len()
        invariant
            i <= ls.len(),
            d == dv(ls@),
            d == lines(stdout@),
            label_from(d, 0, package_name@) == label_from(d, i as int, package_name@),
        decreases ls.len() - i,
    {
        assert(d[i as int] == ls@[i as int]@);
        let t = trimmed_chars(&ls[i]);
        match strip_prefix_str(&t, "nonLocalizedLabel=") {
            Some(v) => {
                let label = trimmed_chars(&v);
                if label.len() > 0 && !chars_eq_str(&label, "null") {
                    assert(label_on(d[i as int]) == Some(label@));
                    assert(label_from(d, i as int, package_name@) == label@);
                    return string_of(label.as_slice());
                }
            },
            None => {},
        }
        i = i + 1;
    }
    package_name.to_string()
}

/// `adb -s <device> shell dumpsys package <package>`, without the executable.
pub fn app_label_args(device_id: &str, package_name: &str) -> (r: Vec<String>)
    ensures
        strs(r@) == seq!["-s"@, device_id@, "shell"@, "dumpsys"@, "package"@, package_name@],
{
    let mut v: Vec<String> = Vec::new();
    push_str_copy(&mut v, "-s");
    push_str_copy(&mut v, device_id);
    push_str_copy(&mut v, "shell");
    push_str_copy(&mut v, "dumpsys");
    push_str_copy(&mut v, "package");
    push_str_copy(&mut v, package_name);
    v
}

/// Whether a command ran: its output, else the error `code` with `prefix`
/// before the reason it could not run. The exit status is not looked at.
pub open spec fn ran_or(r: Result<CommandOutput, AppError>, run: Result<CommandOutput, String>, code: Seq<char>, prefix: Seq<char>) -> bool {
    match run {
        Ok(o) => r == Ok::<CommandOutput, AppError>(o),
        Err(e) => r matches Err(err) && err.is(code, prefix + e@, None),
    }
}

fn ran(run: Result<CommandOutput, String>, code: &str, prefix: &str) -> (r: Result<CommandOutput, AppError>)
    ensures
        ran_or(r, run, code@, prefix@),
{
    match run {
        Ok(o) => Ok(o),
        Err(e) => Err(error_with(code, prefix, e.as_str())),
    }
}

/// The error when the device could not be told to reboot.
pub fn reboot_error(detail: &str) -> (r: AppError)
    ensures
        r.is("REBOOT_FAILED"@, "Failed to reboot: "@ + detail@, None),
{
    error_with("REBOOT_FAILED", "Failed to reboot: ", detail)
}

/// The result of switching dark mode: only a command that could not run fails.
pub fn dark_mode_result(run: Result<CommandOutput, String>) -> (r: Result<(), AppError>)
    ensures
        match run {
            Ok(_) => r is Ok,
            Err(e) => r matches Err(err) && err.is("DARK_MODE_FAILED"@, "Failed to set dark mode: "@ + e@, None),
        },
{
    match ran(run, "DARK_MODE_FAILED", "Failed to set dark mode: ") {
        Ok(_) => Ok(()),
        Err(e) => Err(e),
    }
}

/// The result of switching "show taps": only a command that could not run fails.
pub fn show_taps_result(run: Result<CommandOutput, String>) -> (r: Result<(), AppError>)
    ensures
        match run {
            Ok(_) => r is Ok,
            Err(e) => r matches Err(err) && err.is("SHOW_TAPS_FAILED"@, "Failed to set show taps: "@ + e@, None),
        },
{
    match ran(run, "SHOW_TAPS_FAILED", "Failed to set show taps: ") {
        Ok(_) => Ok(()),
        Err(e) => Err(e),
    }
}

/// The result of setting one animation scale: only a command that could not
/// run fails.
pub fn animation_result(run: Result<CommandOutput, String>) -> (r: Result<(), AppError>)
    ensures
        match run {
            Ok(_) => r is Ok,
            Err(e) => r matches Err(err) && err.is(
                "ANIM_SCALE_FAILED"@,
                "Failed to set animation scale: "@ + e@,
                None,
            ),
        },
{
    match ran(run, "ANIM_SCALE_FAILED", "Failed to set animation scale: ") {
        Ok(_) => Ok(()),
        Err(e) => Err(e),
    }
}

/// The app in front, read from the output of `foreground_args`; the empty text
/// when no line names one. Only a command that could not run fails.
pub fn foreground_app(run: Result<CommandOutput, String>) -> (r: Result<String, AppError>)
    ensures
        match run {
            Ok(o) => r matches Ok(p) && p@ == foreground_from(lines(o.stdout@), 0),
            Err(e) => r matches Err(err) && err.is(
                "FOREGROUND_FAILED"@,
                "Failed to get foreground app: "@ + e@,
                None,
            ),
        },
{
    match ran(run, "FOREGROUND_FAILED", "Failed to get foreground app: ") {
        Ok(o) => Ok(foreground_package(o.stdout.as_str())),
        Err(e) => Err(e),
    }
}

/// The display name of an app, read from the output of `app_label_args`; the
/// package name when none is given. Only a command that could not run fails.
pub fn app_label_result(run: Result<CommandOutput, String>, package_name: &str) -> (r: Result<String, AppError>)
    ensures
        match run {
            Ok(o) => r matches Ok(l) && l@ == label_from(lines(o.stdout@), 0, package_name@),
            Err(e) => r matches Err(err) && err.is("APP_LABEL_FAILED"@, "dumpsys failed: "@ + e@, None),
        },
{
    match ran(run, "APP_LABEL_FAILED", "dumpsys failed: ") {
        Ok(o) => Ok(app_label(o.stdout.as_str(), package_name)),
        Err(e) => Err(e),
    }
}

} // verus!
