// The adb status shown to the user.
use vstd::prelude::*;

use crate::error::{opt_view, AppError};

verus! {

/// Whether adb can be used, which version, and where it is.
pub struct AdbStatus {
    pub available: bool,
    pub version: Option<String>,
    pub error: Option<String>,
    pub adb_path: Option<String>,
    pub is_bundled: bool,
}

/// The status from the outcome of the version check.
pub fn check_adb_status(adb_path: &str, is_bundled: bool, check: Result<String, AppError>) -> (r: AdbStatus)
    ensures
        r.is_bundled == is_bundled,
        opt_view(r.adb_path) == Some(adb_path@),
        match check {
            Ok(v) => r.available && opt_view(r.version) == Some(v@) && r.error is None,
            Err(e) => !r.available && r.version is None && opt_view(r.error) == Some(e.message@),
        },
{
    match check {
        Ok(version) => AdbStatus {
            available: true,
            version: Some(version),
            error: None,
            adb_path: Some(adb_path.to_string()),
            is_bundled,
        },
        Err(e) => AdbStatus {
            available: false,
            version: None,
            error: Some(e.message),
            adb_path: Some(adb_path.to_string()),
            is_bundled,
        },
    }
}

} // verus!
