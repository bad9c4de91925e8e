// Shell commands and logcat.
use vstd::prelude::*;

use crate::adb::command_builder::{push_str_copy, strs};
use crate::adb::executor::CommandOutput;
use crate::text::{decimal, u64_to_string};

verus! {

fn concat(a: &str, b: &str) -> (r: String)
    ensures
        r@ == a@ + b@,
{
    let mut s = String::new();
    s.append(a);
    s.append(b);
    s
}

/// `adb -s <device> shell <command>`, without the executable.
pub fn execute_shell_args(device_id: &str, command: &str) -> (r: Vec<String>)
    ensures
        strs(r@) == seq!["-s"@, device_id@, "shell"@, command@],
{
    let mut v: Vec<String> = Vec::new();
    push_str_copy(&mut v, "-s");
    push_str_copy(&mut v, device_id);
    push_str_copy(&mut v, "shell");
    push_str_copy(&mut v, command);
    v
}

/// The result of a shell command: its output, or its error output when that
/// is all it printed.
pub fn execute_shell(run: Result<CommandOutput, String>) -> (r: Result<String, String>)
    ensures
        match run {
            Err(e) => r matches Err(m) && m@ == "Shell command failed: "@ + e@,
            Ok(o) => if o.stderr@.len() > 0 && o.stdout@.len() == 0 {
                r matches Err(m) && m@ == o.stderr@
            } else {
                r matches Ok(m) && m@ == o.stdout@
            },
        },
{
    match run {
        Err(e) => Err(concat("Shell command failed: ", e.as_str())),
        Ok(o) => {
            let err_empty = o.stderr.as_str().is_empty();
            let out_empty = o.stdout.as_str().is_empty();
            if !err_empty && out_empty {
                Err(o.stderr)
            } else {
                Ok(o.stdout)
            }
        },
    }
}

/// `adb -s <device> logcat -d -t <lines> [filter]`, without the executable.
pub fn logcat_args(device_id: &str, lines: u32, filter: Option<&str>) -> (r: Vec<String>)
    ensures
        strs(r@) == seq!["-s"@, device_id@, "logcat"@, "-d"@, "-t"@, decimal(lines as nat)] + match filter {
            Some(f) => seq![f@],
            None => Seq::empty(),
        },
{
    let mut v: Vec<String> = Vec::new();
    push_str_copy(&mut v, "-s");
    push_str_copy(&mut v, device_id);
    push_str_copy(&mut v, "logcat");
    push_str_copy(&mut v, "-d");
    push_str_copy(&mut v, "-t");
    let n = u64_to_string(lines as u64);
    push_str_copy(&mut v, n.as_str());
    let ghost base = strs(v@);
    match filter {
        Some(f) => {
            push_str_copy(&mut v, f);
            assert(strs(v@) =~= base + seq![f@]);
        },
        None => {
            assert(strs(v@) =~= base + Seq::<Seq<char>>::empty());
        },
    }
    v
}

/// The logcat snapshot.
pub fn get_logcat(run: Result<CommandOutput, String>) -> (r: Result<String, String>)
    ensures
        match run {
            Err(e) => r matches Err(m) && m@ == "Logcat failed: "@ + e@,
            Ok(o) => r matches Ok(m) && m@ == o.stdout@,
        },
{
    match run {
        Err(e) => Err(concat("Logcat failed: ", e.as_str())),
        Ok(o) => Ok(o.stdout),
    }
}

/// `adb -s <device> logcat -c`, without the executable.
pub fn clear_logcat_args(device_id: &str) -> (r: Vec<String>)
    ensures
        strs(r@) == seq!["-s"@, device_id@, "logcat"@, "-c"@],
{
    let mut v: Vec<String> = Vec::new();
    push_str_copy(&mut v, "-s");
    push_str_copy(&mut v, device_id);
    push_str_copy(&mut v, "logcat");
    push_str_copy(&mut v, "-c");
    v
}

pub fn clear_logcat(run: Result<CommandOutput, String>) -> (r: Result<(), String>)
    ensures
        match run {
            Err(e) => r matches Err(m) && m@ == "Failed to clear logcat: "@ + e@,
            Ok(o) => if o.success {
                r is Ok
            } else {
                r matches Err(m) && m@ == "Failed to clear logcat: "@ + o.stderr@
            },
        },
{
    match run {
        Err(e) => Err(concat("Failed to clear logcat: ", e.as_str())),
        Ok(o) => {
            if o.success {
                Ok(())
            } else {
                Err(concat("Failed to clear logcat: ", o.stderr.as_str()))
            }
        },
    }
}

} // verus!
