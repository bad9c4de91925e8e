// The common shape of running one adb command: arguments in, and the output
// judged into a value or an error with a fixed code.
use vstd::prelude::*;

use crate::adb::executor::CommandOutput;
use crate::error::AppError;

verus! {

/// The result of a command that reports failure through its exit status:
/// its standard output when it succeeded; otherwise an error with `code` whose
/// message is `spawn_msg` and the reason it could not start, or `fail_msg`
/// and its standard error.
pub open spec fn outcome(
    r: Result<String, AppError>,
    run: Result<CommandOutput, String>,
    code: Seq<char>,
    spawn_msg: Seq<char>,
    fail_msg: Seq<char>,
) -> bool {
    match run {
        Err(e) => r matches Err(err) && err.is(code, spawn_msg + e@, None),
        Ok(o) => if o.success {
            r matches Ok(out) && out@ == o.stdout@
        } else {
            r matches Err(err) && err.is(code, fail_msg + o.stderr@, None)
        },
    }
}

pub fn error_with(code: &str, prefix: &str, detail: &str) -> (r: AppError)
    ensures
        r.is(code@, prefix@ + detail@, None),
{
    let mut m = String::new();
    m.append(prefix);
    m.append(detail);
    AppError::new(code, m.as_str())
}

pub fn run_outcome(run: Result<CommandOutput, String>, code: &str, spawn_msg: &str, fail_msg: &str) -> (r:
    Result<String, AppError>)
    ensures
        outcome(r, run, code@, spawn_msg@, fail_msg@),
{
    match run {
        Err(e) => Err(error_with(code, spawn_msg, e.as_str())),
        Ok(o) => {
            if o.success {
                Ok(o.stdout)
            } else {
                Err(error_with(code, fail_msg, o.stderr.as_str()))
            }
        },
    }
}

} // verus!
