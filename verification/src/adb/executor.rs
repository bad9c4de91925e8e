// Device status, device records, and the command-level logic of the ADB facade.
//
// Running the adb process happens outside the library; the functions here build
// the argument lists and decide what a finished command means.
use vstd::prelude::*;

use crate::adb::command_builder::{strs, targeted_args, AdbCommand, AdbCommandBuilder};
use crate::error::{opt_view, AdbError, AppError};
use crate::text::{
    ascii_lower, chars_eq_str, chars_of, is_ascii_text, lines, lines_of, lowercase, string_of, to_lowercase, trim, trimmed,
};

verus! {

/// Connection status of a device, as `adb devices` reports it.
#[derive(Debug, Clone, PartialEq)]
pub enum DeviceStatus {
    /// Connected and authorized.
    Device,
    /// Connected but not responding.
    Offline,
    /// Connected but not authorized for debugging.
    Unauthorized,
    /// Any other state word, lowercased.
    Unknown(String),
}

/// `st` is the status that the (trimmed, lowercased) state word `w` denotes.
pub open spec fn status_for_word(st: DeviceStatus, w: Seq<char>) -> bool {
    match st {
        DeviceStatus::Device => w == "device"@,
        DeviceStatus::Offline => w == "offline"@,
        DeviceStatus::Unauthorized => w == "unauthorized"@,
        DeviceStatus::Unknown(o) => o@ == w && w != "device"@ && w != "offline"@ && w
            != "unauthorized"@,
    }
}

/// `st` is the status that `adb devices` state text `s` is read as: trimmed, then
/// lowercased, then matched against the three known words.
pub open spec fn status_from_text(st: DeviceStatus, s: Seq<char>) -> bool {
    status_for_word(st, lowercase(trim(s)))
}

impl DeviceStatus {
    /// Reads a state word (case-insensitive, surrounding whitespace ignored).
    pub fn from_text(s: &str) -> (r: Self)
        ensures
            status_from_text(r, s@),
            is_ascii_text(s@) ==> status_for_word(r, ascii_lower(trim(s@))),
    {
        let t = trimmed(s);
        proof {
            if is_ascii_text(s@) {
                crate::text::lemma_trim_ascii(s@);
            }
        }
        let l = to_lowercase(t.as_str());
        let w = chars_of(l.as_str());
        if chars_eq_str(&w, "device") {
            DeviceStatus::Device
        } else if chars_eq_str(&w, "offline") {
            DeviceStatus::Offline
        } else if chars_eq_str(&w, "unauthorized") {
            DeviceStatus::Unauthorized
        } else {
            DeviceStatus::Unknown(l)
        }
    }

    pub fn is_device(&self) -> (r: bool)
        ensures
            r == (*self is Device),
    {
        match self {
            DeviceStatus::Device => true,
            _ => false,
        }
    }
}

impl<'a> From<&'a str> for DeviceStatus {
    fn from(s: &'a str) -> (r: Self)
        ensures
            status_from_text(r, s@),
    {
        DeviceStatus::from_text(s)
    }
}

impl<'a> vstd::std_specs::convert::FromSpecImpl<&'a str> for DeviceStatus {
    open spec fn obeys_from_spec() -> bool {
        false
    }

    open spec fn from_spec(v: &'a str) -> DeviceStatus {
        arbitrary()
    }
}

/// Whitespace around a state word does not change how it is read: trimming
/// the text first gives the same status.
pub proof fn law_status_ignores_surrounding_whitespace(st: DeviceStatus, s: Seq<char>)
    ensures
        status_from_text(st, s) <==> status_from_text(st, trim(s)),
{
    crate::text::lemma_trim_idempotent(s);
}

/// Information about a connected Android device.
#[derive(Debug, Clone, PartialEq)]
pub struct DeviceInfo {
    pub id: String,
    pub status: DeviceStatus,
    pub model: Option<String>,
    pub product: Option<String>,
}

/// The adb client configuration: the path of the adb executable.
pub struct AdbClient {
    adb_path: String,
}

/// Two paths name the same path component by component (`Path` equality).
pub uninterp spec fn same_path(a: Seq<char>, b: Seq<char>) -> bool;

/// A path that begins at the root `/`.
pub open spec fn rooted(p: Seq<char>) -> bool {
    p.len() > 0 && p[0] == '/'
}

/// A bare file name: no `/`, `\` or `:`, so on every platform it is a relative
/// path without a root or prefix.
pub open spec fn bare_name(p: Seq<char>) -> bool {
    forall|i: int| 0 <= i < p.len() ==> #[trigger] p[i] != '/' && p[i] != '\\' && p[i] != ':'
}

/// `Path::new(a) == Path::new(b)`: component-wise path comparison, which holds
/// of equal texts (`Path` is `Eq`) and never between a path from the root and a
/// bare file name (only the first has a root component). How other paths split
/// into components (which depends on the separators of the platform the
/// library is built for) is not stated.
#[verifier::external_body]
fn paths_equal(a: &str, b: &str) -> (r: bool)
    ensures
        r == same_path(a@, b@),
        a@ == b@ ==> r,
        rooted(a@) && bare_name(b@) ==> !r,
{
    std::path::Path::new(a) == std::path::Path::new(b)
}

impl AdbClient {
    pub fn with_path(path: &str) -> (r: Self)
        ensures
            r.path() == path@,
    {
        AdbClient { adb_path: path.to_string() }
    }

    pub closed spec fn path(self) -> Seq<char> {
        self.adb_path@
    }

    pub fn adb_path(&self) -> (r: &String)
        ensures
            r@ == self.path(),
    {
        &self.adb_path
    }
}

/// What came back from running one adb command.
pub struct CommandOutput {
    /// The process exited with status 0.
    pub success: bool,
    /// Standard output, decoded as UTF-8 (invalid sequences replaced).
    pub stdout: String,
    /// Standard error, decoded the same way.
    pub stderr: String,
}

/// The ADB facade: one adb executable and the commands run through it.
pub struct AdbExecutor {
    client: AdbClient,
}

/// The first line of `s`, if it has one.
pub open spec fn first_line(s: Seq<char>) -> Option<Seq<char>> {
    if lines(s).len() > 0 {
        Some(lines(s)[0])
    } else {
        None
    }
}

/// Result of `adb version`: the first output line on success.
pub open spec fn version_result(r: Result<String, AppError>, run: Result<CommandOutput, AppError>) -> bool {
    match run {
        Err(e) => r == Err::<String, AppError>(e),
        Ok(o) => if o.success {
            r matches Ok(v) && v@ == match first_line(o.stdout@) {
                Some(l) => l,
                None => "Unknown version"@,
            }
        } else {
            r matches Err(e) && e.is(
                "ADB_NOT_FOUND"@,
                "ADB executable not found. Please ensure Android platform-tools are installed."@,
                None,
            )
        },
    }
}

/// Result of a `getprop` query: the trimmed output on success, else a
/// device-not-found error naming the device.
pub open spec fn prop_result(
    r: Result<String, AppError>,
    device_id: Seq<char>,
    run: Result<CommandOutput, AppError>,
) -> bool {
    match run {
        Err(e) => r == Err::<String, AppError>(e),
        Ok(o) => if o.success {
            r matches Ok(v) && v@ == trim(o.stdout@)
        } else {
            r matches Err(e) && e.is(
                "DEVICE_NOT_FOUND"@,
                "Device not found or disconnected"@,
                Some(device_id),
            )
        },
    }
}

/// Result of `settings get`: the trimmed output unless the command failed or
/// printed `null` or nothing.
pub open spec fn setting_value(run: Result<CommandOutput, AppError>) -> Option<Seq<char>> {
    match run {
        Err(_) => None,
        Ok(o) => if o.success && trim(o.stdout@) != "null"@ && trim(o.stdout@).len() > 0 {
            Some(trim(o.stdout@))
        } else {
            None
        },
    }
}

impl AdbExecutor {
    /// An executor for the adb executable at `path`.
    pub fn with_path(path: &str) -> (r: Self)
        ensures
            r.path() == path@,
    {
        AdbExecutor { client: AdbClient::with_path(path) }
    }

    /// The path of the adb executable.
    pub closed spec fn path(self) -> Seq<char> {
        self.client.path()
    }

    pub fn get_adb_path(&self) -> (r: &String)
        ensures
            r@ == self.path(),
    {
        self.client.adb_path()
    }

    /// Whether the executable is anything but the bare `adb` found on `PATH`.
    pub fn is_bundled(&self) -> (r: bool)
        ensures
            r == !same_path(self.path(), "adb"@),
            self.path() == "adb"@ ==> !r,
            rooted(self.path()) ==> r,
    {
        proof {
            reveal_strlit("adb");
        }
        !paths_equal(self.client.adb_path().as_str(), "adb")
    }

    /// Interprets `adb version`: the first line of its output names the version.
    pub fn check_available(&self, run: Result<CommandOutput, AppError>) -> (r: Result<String, AppError>)
        ensures
            version_result(r, run),
    {
        match run {
            Err(e) => Err(e),
            Ok(o) => {
                if o.success {
                    let v = chars_of(o.stdout.as_str());
                    let ls = lines_of(&v);
                    if ls.len() > 0 {
                        assert(ls@[0]@ == lines(o.stdout@)[0]);
                        Ok(string_of(ls[0].as_slice()))
                    } else {
                        Ok("Unknown version".to_string())
                    }
                } else {
                    Err(AppError::from_adb(AdbError::NotFound))
                }
            },
        }
    }

    /// The command line of a property query on one device.
    pub fn get_device_prop_args(device_id: &str, prop: &str) -> (r: Vec<String>)
        ensures
            strs(r@) == seq!["-s"@, device_id@, "shell"@, "getprop"@, prop@],
    {
        let builder = AdbCommandBuilder::new().target(device_id);
        let cmd = AdbCommand::GetProp(prop.to_string());
        let r = builder.build(cmd);
        assert(targeted_args(Some(device_id@), cmd) =~= seq!["-s"@, device_id@, "shell"@, "getprop"@, prop@]);
        r
    }

    /// Interprets a property query: the trimmed output, or device-not-found.
    pub fn get_device_prop(&self, device_id: &str, run: Result<CommandOutput, AppError>) -> (r: Result<String, AppError>)
        ensures
            prop_result(r, device_id@, run),
    {
        match run {
            Err(e) => Err(e),
            Ok(o) => {
                if o.success {
                    Ok(trimmed(o.stdout.as_str()))
                } else {
                    Err(AppError::from_adb(AdbError::DeviceNotFound(device_id.to_string())))
                }
            },
        }
    }

    /// Interprets `adb start-server`: only a failure to run is an error.
    pub fn start_server(&self, run: Result<CommandOutput, AppError>) -> (r: Result<(), AppError>)
        ensures
            match run {
                Ok(_) => r is Ok,
                Err(e) => r == Err::<(), AppError>(e),
            },
    {
        match run {
            Ok(_) => Ok(()),
            Err(e) => Err(e),
        }
    }

    /// Interprets `adb kill-server`: only a failure to run is an error.
    pub fn kill_server(&self, run: Result<CommandOutput, AppError>) -> (r: Result<(), AppError>)
        ensures
            match run {
                Ok(_) => r is Ok,
                Err(e) => r == Err::<(), AppError>(e),
            },
    {
        match run {
            Ok(_) => Ok(()),
            Err(e) => Err(e),
        }
    }

    /// The command line of `settings get <namespace> <key>` on one device.
    pub fn get_setting_args(device_id: &str, namespace: &str, key: &str) -> (r: Vec<String>)
        ensures
            strs(r@) == seq!["-s"@, device_id@, "shell"@, "settings"@, "get"@, namespace@, key@],
    {
        let mut shell: Vec<String> = Vec::new();
        crate::adb::command_builder::push_str_copy(&mut shell, "settings");
        crate::adb::command_builder::push_str_copy(&mut shell, "get");
        crate::adb::command_builder::push_str_copy(&mut shell, namespace);
        crate::adb::command_builder::push_str_copy(&mut shell, key);
        let builder = AdbCommandBuilder::new().target(device_id);
        let cmd = AdbCommand::Shell(shell);
        let r = builder.build(cmd);
        assert(strs(r@) =~= seq!["-s"@, device_id@, "shell"@, "settings"@, "get"@, namespace@, key@]);
        r
    }

    /// Interprets `settings get`: `None` for a failed command, `null` or no output.
    pub fn get_setting(&self, run: Result<CommandOutput, AppError>) -> (r: Option<String>)
        ensures
            opt_view(r) == setting_value(run),
    {
        match run {
            Err(_) => None,
            Ok(o) => {
                if o.success {
                    let value = trimmed(o.stdout.as_str());
                    let v = chars_of(value.as_str());
                    if chars_eq_str(&v, "null") || v.len() == 0 {
                        None
                    } else {
                        Some(value)
                    }
                } else {
                    None
                }
            },
        }
    }

    /// The devices listed by a run of `adb devices -l`.
    pub fn list_devices(&self, run: Result<CommandOutput, AppError>) -> (r: Result<Vec<DeviceInfo>, AppError>)
        ensures
            match run {
                Ok(o) => r matches Ok(ds) && crate::adb::discovery::devices_listed(ds@, o.stdout@),
                Err(e) => r == Err::<Vec<DeviceInfo>, AppError>(e),
            },
    {
        let discovery = crate::adb::discovery::AdbDiscovery::new(&self.client);
        discovery.list_devices(run)
    }

    /// The base requirements of a device (see `RequirementChecker`).
    pub fn check_device_requirements(
        &self,
        usb: crate::requirements::RequirementCheck,
        development_settings_enabled: Option<String>,
        install_non_market_apps: Option<String>,
    ) -> (r: Vec<crate::requirements::RequirementCheck>)
        ensures
            r@.len() == if usb.passed { 3int } else { 1int },
            r@[0] == usb,
            usb.passed ==> crate::requirements::developer_options_outcome(r@[1], opt_view(development_settings_enabled)),
            usb.passed ==> crate::requirements::unknown_sources_outcome(r@[2], opt_view(install_non_market_apps)),
    {
        let checker = crate::requirements::RequirementChecker::new(self);
        checker.check_device_requirements(usb, development_settings_enabled, install_non_market_apps)
    }

    /// The advanced action requirement, from the outcome of the input test.
    pub fn check_action_requirements(&self, run: Option<CommandOutput>) -> (r: Vec<crate::requirements::RequirementCheck>)
        ensures
            r@.len() == 1,
            crate::requirements::action_outcome(r@[0], run),
    {
        let checker = crate::requirements::RequirementChecker::new(self);
        checker.check_action_requirements(run)
    }

    /// The result of installing an APK (see `ApkInstaller::install`).
    pub fn install_apk(&self, device_id: &str, file_exists: bool, run: Result<CommandOutput, AppError>) -> (r:
        crate::apk::InstallResult)
        ensures
            crate::apk::install_outcome(r, device_id@, file_exists, run),
    {
        let installer = crate::apk::ApkInstaller::new(self);
        installer.install(device_id, file_exists, run)
    }
}

} // verus!
