// App packages: uninstall, listing, clearing data, granting the requested
// runtime permissions.
use vstd::prelude::*;

use crate::adb::command_builder::{push_str_copy, strs};
use crate::adb::executor::CommandOutput;
use crate::command_utils::{error_with, outcome, run_outcome};
use crate::error::AppError;
use crate::text::{chars_of, contains, contains_str, dv, lines, string_of, strip_prefix, strip_prefix_str, text_lines, trim, trimmed, trimmed_chars};

verus! {

/// An installed package.
pub struct AppPackage {
    pub id: String,
    pub label: Option<String>,
    pub icon: Option<String>,
}

/// `adb -s <device> uninstall <package>`, without the executable.
pub fn uninstall_args(device_id: &str, package_name: &str) -> (r: Vec<String>)
    ensures
        strs(r@) == seq!["-s"@, device_id@, "uninstall"@, package_name@],
{
    let mut v: Vec<String> = Vec::new();
    push_str_copy(&mut v, "-s");
    push_str_copy(&mut v, device_id);
    push_str_copy(&mut v, "uninstall");
    push_str_copy(&mut v, package_name);
    v
}

/// An uninstall succeeded when adb printed `Success`; otherwise the error
/// names the trimmed output.
pub fn uninstall_app(run: Result<CommandOutput, String>) -> (r: Result<String, AppError>)
    ensures
        match run {
            Err(e) => r matches Err(err) && err.is("UNINSTALL_FAILED"@, "Failed to uninstall: "@ + e@, None),
            Ok(o) => if contains(o.stdout@, "Success"@) {
                r matches Ok(s) && s@ == "Successfully uninstalled"@
            } else {
                r matches Err(err) && err.is("UNINSTALL_FAILED"@, "Uninstall failed: "@ + trim(o.stdout@), None)
            },
        },
{
    match run {
        Err(e) => Err(error_with("UNINSTALL_FAILED", "Failed to uninstall: ", e.as_str())),
        Ok(o) => {
            let out = chars_of(o.stdout.as_str());
            if contains_str(&out, "Success") {
                Ok("Successfully uninstalled".to_string())
            } else {
                let t = trimmed(o.stdout.as_str());
                Err(error_with("UNINSTALL_FAILED", "Uninstall failed: ", t.as_str()))
            }
        },
    }
}

/// `adb -s <device> shell pm list packages`, with `-3` (third-party only)
/// unless system packages are wanted, without the executable.
pub fn list_packages_args(device_id: &str, include_system: bool) -> (r: Vec<String>)
    ensures
        strs(r@) == seq!["-s"@, device_id@, "shell"@, "pm"@, "list"@, "packages"@] + if include_system {
            Seq::<Seq<char>>::empty()
        } else {
            seq!["-3"@]
        },
{
    let mut v: Vec<String> = Vec::new();
    push_str_copy(&mut v, "-s");
    push_str_copy(&mut v, device_id);
    push_str_copy(&mut v, "shell");
    push_str_copy(&mut v, "pm");
    push_str_copy(&mut v, "list");
    push_str_copy(&mut v, "packages");
    let ghost base = strs(v@);
    if !include_system {
        push_str_copy(&mut v, "-3");
        assert(strs(v@) =~= base + seq!["-3"@]);
    } else {
        assert(strs(v@) =~= base + Seq::<Seq<char>>::empty());
    }
    v
}

/// The package ids of `pm list packages` output: the trimmed rest of each
/// line that starts with `package:`, in order.
pub open spec fn package_ids(ls: Seq<Seq<char>>) -> Seq<Seq<char>>
    decreases ls.len(),
{
    if ls.len() == 0 {
        Seq::empty()
    } else {
        package_ids(ls.drop_last()) + match strip_prefix(ls.last(), "package:"@) {
            Some(rest) => seq![trim(rest)],
            None => Seq::empty(),
        }
    }
}

/// The packages listed by a `pm list packages` run.
pub fn list_packages(run: Result<CommandOutput, String>) -> (r: Result<Vec<AppPackage>, AppError>)
    ensures
        match r {
            Ok(ps) => run matches Ok(o) && o.success && ps.len() == package_ids(lines(o.stdout@)).len()
                && forall|i: int|
                0 <= i < ps.len() ==> (#[trigger] ps@[i]).id@ == package_ids(lines(o.stdout@))[i]
                    && ps@[i].label is None && ps@[i].icon is None,
            Err(e) => outcome(Err(e), run, "LIST_PACKAGES_FAILED"@, "Failed to list packages: "@, "List packages failed: "@),
        },
{
    let out = match run_outcome(run, "LIST_PACKAGES_FAILED", "Failed to list packages: ", "List packages failed: ") {
        Ok(s) => s,
        Err(e) => return Err(e),
    };
    let ls = text_lines(out.as_str());
    let ghost d = dv(ls@);
    let mut ps: Vec<AppPackage> = Vec::new();
    let mut i: usize = 0;
    while i < ls.len()
        invariant
            i <= ls.len(),
            d == dv(ls@),
            ps.len() == package_ids(d.take(i as int)).len(),
            forall|k: int|
                0 <= k < ps.len() ==> (#[trigger] ps@[k]).id@ == package_ids(d.take(i as int))[k]
                    && ps@[k].label is None && ps@[k].icon is None,
        decreases ls.len() - i,
    {
        let ghost before = package_ids(d.take(i as int));
        proof {
            assert(d.take(i + 1).drop_last() =~= d.take(i as int));
            assert(d.take(i + 1).last() == ls@[i as int]@);
        }
        match strip_prefix_str(&ls[i], "package:") {
            Some(rest) => {
                let id = trimmed_chars(&rest);
                ps.push(AppPackage { id: string_of(id.as_slice()), label: None, icon: None });
                assert(package_ids(d.take(i + 1)) =~= before.push(trim(rest@)));
            },
            None => {
                assert(package_ids(d.take(i + 1)) =~= before);
            },
        }
        i = i + 1;
    }
    assert(d.take(ls.len() as int) =~= d);
    Ok(ps)
}

/// `adb -s <device> shell pm clear <package>`, without the executable.
pub fn clear_app_data_args(device_id: &str, package_name: &str) -> (r: Vec<String>)
    ensures
        strs(r@) == seq!["-s"@, device_id@, "shell"@, "pm"@, "clear"@, package_name@],
{
    let mut v: Vec<String> = Vec::new();
    push_str_copy(&mut v, "-s");
    push_str_copy(&mut v, device_id);
    push_str_copy(&mut v, "shell");
    push_str_copy(&mut v, "pm");
    push_str_copy(&mut v, "clear");
    push_str_copy(&mut v, package_name);
    v
}

pub fn clear_app_data(run: Result<CommandOutput, String>) -> (r: Result<(), AppError>)
    ensures
        match r {
            Ok(_) => run matches Ok(o) && o.success,
            Err(e) => outcome(Err(e), run, "CLEAR_DATA_FAILED"@, "Failed to clear data: "@, "PM clear failed: "@),
        },
{
    match run_outcome(run, "CLEAR_DATA_FAILED", "Failed to clear data: ", "PM clear failed: ") {
        Ok(_) => Ok(()),
        Err(e) => Err(e),
    }
}

/// `adb -s <device> shell dumpsys package <package>`, without the executable.
pub fn package_info_args(device_id: &str, package_name: &str) -> (r: Vec<String>)
    ensures
        strs(r@) == seq!["-s"@, device_id@, "shell"@, "dumpsys"@, "package"@, package_name@],
{
    let mut v: Vec<String> = Vec::new();
    push_str_copy(&mut v, "-s");
    push_str_copy(&mut v, device_id);
    push_str_copy(&mut v, "shell");
    push_str_copy(&mut v, "dumpsys");
    push_str_copy(&mut v, "package");
    push_str_copy(&mut v, package_name);
    v
}

/// The requested permissions listed from line `i` on: lines are trimmed; the
/// list starts after a line holding `requested permissions:` and ends at the
/// next line holding a `:`; blank lines are skipped.
pub open spec fn requested_from(ls: Seq<Seq<char>>, i: int, listing: bool) -> Seq<Seq<char>>
    decreases ls.len() - i,
{
    if i < 0 || i >= ls.len() {
        Seq::empty()
    } else {
        let l = trim(ls[i]);
        if contains(l, "requested permissions:"@) {
            requested_from(ls, i + 1, true)
        } else if listing && contains(l, ":"@) {
            Seq::empty()
        } else if listing && l.len() > 0 {
            seq![l] + requested_from(ls, i + 1, listing)
        } else {
            requested_from(ls, i + 1, listing)
        }
    }
}

/// The runtime permissions a package requests, from `dumpsys package`.
pub fn requested_permissions(stdout: &str) -> (r: Vec<String>)
    ensures
        strs(r@) == requested_from(lines(stdout@), 0, false),
{
    let ls = text_lines(stdout);
    let ghost d = dv(ls@);
    let mut out: Vec<String> = Vec::new();
    let mut listing = false;
    let mut i: usize = 0;
    while i < ls.len()
        invariant
            i <= ls.len(),
            d == dv(ls@),
            d == lines(stdout@),
            requested_from(d, 0, false) == strs(out@) + requested_from(d, i as int, listing),
        decreases ls.len() - i,
    {
        assert(d[i as int] == ls@[i as int]@);
        let l = trimmed_chars(&ls[i]);
        if contains_str(&l, "requested permissions:") {
            listing = true;
        } else if listing && contains_str(&l, ":") {
            assert(requested_from(d, i as int, listing) == Seq::<Seq<char>>::empty());
            assert(strs(out@) + Seq::<Seq<char>>::empty() =~= strs(out@));
            return out;
        } else if listing && l.len() > 0 {
            let ghost before = strs(out@);
            out.push(string_of(l.as_slice()));
            assert(strs(out@) =~= before.push(l@));
            assert(before + (seq![l@] + requested_from(d, i + 1, listing)) =~= strs(out@)
                + requested_from(d, i + 1, listing));
        }
        i = i + 1;
    }
    assert(strs(out@) + Seq::<Seq<char>>::empty() =~= strs(out@));
    out
}

/// `adb -s <device> shell pm grant <package> <permission>`, without the
/// executable.
pub fn grant_args(device_id: &str, package_name: &str, permission: &str) -> (r: Vec<String>)
    ensures
        strs(r@) == seq!["-s"@, device_id@, "shell"@, "pm"@, "grant"@, package_name@, permission@],
{
    let mut v: Vec<String> = Vec::new();
    push_str_copy(&mut v, "-s");
    push_str_copy(&mut v, device_id);
    push_str_copy(&mut v, "shell");
    push_str_copy(&mut v, "pm");
    push_str_copy(&mut v, "grant");
    push_str_copy(&mut v, package_name);
    push_str_copy(&mut v, permission);
    v
}

/// The error when the package information could not be read.
pub fn grant_error(detail: &str) -> (r: AppError)
    ensures
        r.is("GRANT_FAILED"@, "Failed to get package info: "@ + detail@, None),
{
    error_with("GRANT_FAILED", "Failed to get package info: ", detail)
}

} // verus!
