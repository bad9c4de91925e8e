// APK installation results and the interpretation of `adb install` output.
use vstd::prelude::*;

use crate::adb::command_builder::{push_str_copy, strs};
use crate::adb::executor::{AdbExecutor, CommandOutput};
use crate::error::{opt_view, AppError};
use crate::text::{chars_of, contains, contains_str};

verus! {

/// Information about an APK file on the local disk.
#[derive(Debug, Clone)]
pub struct ApkInfo {
    pub path: String,
    pub file_name: String,
    pub size_bytes: u64,
    pub valid: bool,
    pub last_modified: Option<u128>,
}

/// A file extension names an APK: it is `apk` in any case.
pub open spec fn apk_extension(ext: Option<Seq<char>>) -> bool {
    match ext {
        Some(e) => crate::text::lowercase(e) == "apk"@,
        None => false,
    }
}

/// Whether a file's extension (as `Path::extension` gives it) is `apk`, in any
/// case.
pub fn is_apk_extension(ext: Option<&str>) -> (r: bool)
    ensures
        r == apk_extension(match ext {
            Some(e) => Some(e@),
            None => None,
        }),
{
    match ext {
        Some(e) => {
            let l = crate::text::to_lowercase(e);
            crate::text::chars_eq_str(&chars_of(l.as_str()), "apk")
        },
        None => false,
    }
}

impl ApkInfo {
    /// What a file on disk says about an APK, given what the file system
    /// reports of it: its name (`unknown.apk` when it has none that is text),
    /// its size and date, and whether its extension is `apk`.
    pub fn from_parts(
        path: &str,
        file_name: Option<&str>,
        extension: Option<&str>,
        size_bytes: u64,
        last_modified: Option<u128>,
    ) -> (r: ApkInfo)
        ensures
            r.path@ == path@,
            r.file_name@ == (match file_name {
                Some(n) => n@,
                None => "unknown.apk"@,
            }),
            r.size_bytes == size_bytes,
            r.valid == apk_extension(match extension {
                Some(e) => Some(e@),
                None => None,
            }),
            r.last_modified == last_modified,
    {
        let name = match file_name {
            Some(n) => n.to_string(),
            None => "unknown.apk".to_string(),
        };
        ApkInfo {
            path: path.to_string(),
            file_name: name,
            size_bytes,
            valid: is_apk_extension(extension),
            last_modified,
        }
    }
}

/// Result of an APK installation.
#[derive(Debug, Clone)]
pub struct InstallResult {
    pub success: bool,
    pub device_id: String,
    pub message: String,
    pub error_code: Option<String>,
}

impl InstallResult {
    /// The result holds exactly these fields.
    pub open spec fn is(
        self,
        success: bool,
        device_id: Seq<char>,
        message: Seq<char>,
        error_code: Option<Seq<char>>,
    ) -> bool {
        &&& self.success == success
        &&& self.device_id@ == device_id
        &&& self.message@ == message
        &&& opt_view(self.error_code) == error_code
    }

    pub fn success(device_id: &str, message: &str) -> (r: Self)
        ensures
            r.is(true, device_id@, message@, None),
    {
        InstallResult {
            success: true,
            device_id: device_id.to_string(),
            message: message.to_string(),
            error_code: None,
        }
    }

    pub fn failure(device_id: &str, message: &str, error_code: Option<&str>) -> (r: Self)
        ensures
            r.is(
                false,
                device_id@,
                message@,
                match error_code {
                    Some(c) => Some(c@),
                    None => None,
                },
            ),
    {
        InstallResult {
            success: false,
            device_id: device_id.to_string(),
            message: message.to_string(),
            error_code: match error_code {
                Some(c) => Some(c.to_string()),
                None => None,
            },
        }
    }
}

/// The install failure codes that adb reports, in the order they are looked for.
pub open spec fn install_error_codes() -> Seq<Seq<char>> {
    seq![
        "INSTALL_FAILED_ALREADY_EXISTS"@,
        "INSTALL_FAILED_INSUFFICIENT_STORAGE"@,
        "INSTALL_FAILED_INVALID_APK"@,
        "INSTALL_FAILED_VERSION_DOWNGRADE"@,
        "INSTALL_FAILED_USER_RESTRICTED"@,
        "INSTALL_FAILED_UPDATE_INCOMPATIBLE"@,
        "INSTALL_PARSE_FAILED_NO_CERTIFICATES"@,
        "INSTALL_FAILED_OLDER_SDK"@,
        "INSTALL_FAILED_CONFLICTING_PROVIDER"@,
        "INSTALL_FAILED_NO_MATCHING_ABIS"@,
    ]
}

/// The user-facing message for each code of `install_error_codes`.
pub open spec fn install_error_messages() -> Seq<Seq<char>> {
    seq![
        "App is already installed. Try uninstalling first."@,
        "Not enough storage space on device."@,
        "Invalid or corrupted APK file."@,
        "Cannot install older version over newer one."@,
        "Installation blocked by device policy."@,
        "Update incompatible with installed version."@,
        "APK is not signed properly."@,
        "App requires newer Android version."@,
        "Conflicts with another installed app."@,
        "App not compatible with device architecture."@,
    ]
}

/// The index of the first known code (from index `k` on) that `out` contains.
pub open spec fn first_known_code(out: Seq<char>, k: int) -> Option<int>
    decreases 10 - k,
{
    if k < 0 || k >= 10 {
        None
    } else if contains(out, install_error_codes()[k]) {
        Some(k)
    } else {
        first_known_code(out, k + 1)
    }
}

/// What `map_install_error` returns for `out`: the message and code of the first
/// known code it contains, else a generic message and no code.
pub open spec fn install_error(out: Seq<char>) -> (Seq<char>, Option<Seq<char>>) {
    match first_known_code(out, 0) {
        Some(k) => (install_error_messages()[k], Some(install_error_codes()[k])),
        None => ("Installation failed. Check device connection and try again."@, None),
    }
}

fn known(code: &str, message: &str) -> (r: (String, Option<String>))
    ensures
        r.0@ == message@,
        opt_view(r.1) == Some(code@),
{
    (message.to_string(), Some(code.to_string()))
}

/// Maps adb install output to a user-friendly message and the matched code.
pub fn map_install_error(error_output: &str) -> (r: (String, Option<String>))
    ensures
        r.0@ == install_error(error_output@).0,
        opt_view(r.1) == install_error(error_output@).1,
{
    let v = chars_of(error_output);
    let ghost o = error_output@;
    proof {
        reveal_with_fuel(first_known_code, 11);
    }
    if contains_str(&v, "INSTALL_FAILED_ALREADY_EXISTS") {
        return known("INSTALL_FAILED_ALREADY_EXISTS", "App is already installed. Try uninstalling first.");
    }
    if contains_str(&v, "INSTALL_FAILED_INSUFFICIENT_STORAGE") {
        return known("INSTALL_FAILED_INSUFFICIENT_STORAGE", "Not enough storage space on device.");
    }
    if contains_str(&v, "INSTALL_FAILED_INVALID_APK") {
        return known("INSTALL_FAILED_INVALID_APK", "Invalid or corrupted APK file.");
    }
    if contains_str(&v, "INSTALL_FAILED_VERSION_DOWNGRADE") {
        return known("INSTALL_FAILED_VERSION_DOWNGRADE", "Cannot install older version over newer one.");
    }
    if contains_str(&v, "INSTALL_FAILED_USER_RESTRICTED") {
        return known("INSTALL_FAILED_USER_RESTRICTED", "Installation blocked by device policy.");
    }
    if contains_str(&v, "INSTALL_FAILED_UPDATE_INCOMPATIBLE") {
        return known("INSTALL_FAILED_UPDATE_INCOMPATIBLE", "Update incompatible with installed version.");
    }
    if contains_str(&v, "INSTALL_PARSE_FAILED_NO_CERTIFICATES") {
        return known("INSTALL_PARSE_FAILED_NO_CERTIFICATES", "APK is not signed properly.");
    }
    if contains_str(&v, "INSTALL_FAILED_OLDER_SDK") {
        return known("INSTALL_FAILED_OLDER_SDK", "App requires newer Android version.");
    }
    if contains_str(&v, "INSTALL_FAILED_CONFLICTING_PROVIDER") {
        return known("INSTALL_FAILED_CONFLICTING_PROVIDER", "Conflicts with another installed app.");
    }
    if contains_str(&v, "INSTALL_FAILED_NO_MATCHING_ABIS") {
        return known("INSTALL_FAILED_NO_MATCHING_ABIS", "App not compatible with device architecture.");
    }
    ("Installation failed. Check device connection and try again.".to_string(), None)
}

/// A code that `map_install_error` reports is one of the known codes, and the
/// output contains it.
pub proof fn law_reported_code_occurs(out: Seq<char>)
    ensures
        install_error(out).1 matches Some(c) ==> contains(out, c) && install_error_codes().contains(c),
{
    reveal_with_fuel(first_known_code, 11);
    if let Some(k) = first_known_code(out, 0) {
        assert(install_error_codes()[k] == install_error_codes()[k]);
        assert(install_error_codes().contains(install_error_codes()[k]));
    }
}

/// The message of an installation result.
pub open spec fn install_outcome(
    r: InstallResult,
    device_id: Seq<char>,
    file_exists: bool,
    run: Result<CommandOutput, AppError>,
) -> bool {
    if !file_exists {
        r.is(false, device_id, "APK file not found"@, None)
    } else {
        match run {
            Ok(o) => {
                let combined = o.stdout@ + o.stderr@;
                if o.success && contains(combined, "Success"@) {
                    r.is(true, device_id, "APK installed successfully"@, None)
                } else {
                    r.is(false, device_id, install_error(combined).0, install_error(combined).1)
                }
            },
            Err(e) => r.is(false, device_id, "Failed to run adb: "@ + e.display_view(), None),
        }
    }
}

/// Installs APK files through an executor.
pub struct ApkInstaller<'a> {
    executor: &'a AdbExecutor,
}

impl<'a> ApkInstaller<'a> {
    pub fn new(executor: &'a AdbExecutor) -> (r: Self)
        ensures
            r.executor() == executor,
    {
        ApkInstaller { executor }
    }

    pub closed spec fn executor(self) -> &'a AdbExecutor {
        self.executor
    }

    /// The command line of `adb install -r` on one device.
    pub fn install_args(device_id: &str, apk_path: &str) -> (r: Vec<String>)
        ensures
            strs(r@) == seq!["-s"@, device_id@, "install"@, "-r"@, apk_path@],
    {
        let mut args: Vec<String> = Vec::new();
        push_str_copy(&mut args, "-s");
        push_str_copy(&mut args, device_id);
        push_str_copy(&mut args, "install");
        push_str_copy(&mut args, "-r");
        push_str_copy(&mut args, apk_path);
        assert(strs(args@) =~= seq!["-s"@, device_id@, "install"@, "-r"@, apk_path@]);
        args
    }

    /// The result of installing an APK: `file_exists` says whether the file was
    /// found; `run` is the outcome of `adb install -r`, if it was run.
    pub fn install(&self, device_id: &str, file_exists: bool, run: Result<CommandOutput, AppError>) -> (r: InstallResult)
        ensures
            install_outcome(r, device_id@, file_exists, run),
    {
        if !file_exists {
            return InstallResult::failure(device_id, "APK file not found", None);
        }
        match run {
            Ok(result) => {
                let mut combined = chars_of(result.stdout.as_str());
                let err = chars_of(result.stderr.as_str());
                let ghost a = combined@;
                let mut k: usize = 0;
                while k < err.len()
                    invariant
                        k <= err.len(),
                        combined@ == a + err@.take(k as int),
                    decreases err.len() - k,
                {
                    combined.push(err[k]);
                    k = k + 1;
                    assert(combined@ =~= a + err@.take(k as int));
                }
                assert(err@.take(err.len() as int) =~= err@);
                if result.success && contains_str(&combined, "Success") {
                    InstallResult::success(device_id, "APK installed successfully")
                } else {
                    let s = crate::text::string_of(combined.as_slice());
                    let (message, error_code) = map_install_error(s.as_str());
                    let code_ref: Option<&str> = match &error_code {
                        Some(c) => Some(c.as_str()),
                        None => None,
                    };
                    InstallResult::failure(device_id, message.as_str(), code_ref)
                }
            },
            Err(e) => {
                let mut msg = String::new();
                msg.append("Failed to run adb: ");
                let shown = e.to_string();
                msg.append(shown.as_str());
                InstallResult::failure(device_id, msg.as_str(), None)
            },
        }
    }
}

/// An install is reported successful exactly when the file was there, adb ran
/// with exit status 0 and its combined output says `Success`. Output without
/// `Success` is a failure that reports the mapped install error, whatever the
/// exit status.
pub proof fn law_success_needs_success_output(
    r: InstallResult,
    device_id: Seq<char>,
    file_exists: bool,
    run: Result<CommandOutput, AppError>,
)
    requires
        install_outcome(r, device_id, file_exists, run),
    ensures
        r.success <==> (file_exists && (run matches Ok(o) && o.success && contains(
            o.stdout@ + o.stderr@,
            "Success"@,
        ))),
        r.device_id@ == device_id,
        file_exists ==> match run {
            Ok(o) => !contains(o.stdout@ + o.stderr@, "Success"@) ==> ({
                let out = o.stdout@ + o.stderr@;
                &&& !r.success
                &&& r.message@ == install_error(out).0
                &&& opt_view(r.error_code) == install_error(out).1
            }),
            Err(_) => !r.success,
        },
{
}

} // verus!
