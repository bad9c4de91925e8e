// Device requirement checks for installing APKs and running input actions.
use vstd::prelude::*;

use crate::adb::executor::{AdbExecutor, CommandOutput, DeviceInfo};
use crate::error::{opt_view, AppError};
use crate::text::{chars_eq, chars_eq_str, chars_of, contains, contains_str};

verus! {

/// The result of one requirement check.
#[derive(Debug, Clone)]
pub struct RequirementCheck {
    pub id: String,
    pub name: String,
    pub description: String,
    pub passed: bool,
    pub hint: Option<String>,
}

impl RequirementCheck {
    /// The check holds exactly these fields.
    pub open spec fn is(
        self,
        id: Seq<char>,
        name: Seq<char>,
        description: Seq<char>,
        passed: bool,
        hint: Option<Seq<char>>,
    ) -> bool {
        &&& self.id@ == id
        &&& self.name@ == name
        &&& self.description@ == description
        &&& self.passed == passed
        &&& opt_view(self.hint) == hint
    }

    /// The same check, with a different outcome.
    pub open spec fn same_check(self, other: RequirementCheck) -> bool {
        &&& self.id@ == other.id@
        &&& self.name@ == other.name@
        &&& self.description@ == other.description@
    }

    /// A check that has not passed yet.
    pub fn new(id: &str, name: &str, description: &str) -> (r: Self)
        ensures
            r.is(id@, name@, description@, false, None),
    {
        RequirementCheck {
            id: id.to_string(),
            name: name.to_string(),
            description: description.to_string(),
            passed: false,
            hint: None,
        }
    }

    /// Marks the check passed, dropping any hint.
    pub fn pass(self) -> (r: Self)
        ensures
            r.same_check(self),
            r.passed,
            r.hint is None,
    {
        let mut c = self;
        c.passed = true;
        c.hint = None;
        c
    }

    /// Marks the check failed with a hint on how to fix it.
    pub fn fail(self, hint: &str) -> (r: Self)
        ensures
            r.same_check(self),
            !r.passed,
            opt_view(r.hint) == Some(hint@),
    {
        let mut c = self;
        c.passed = false;
        c.hint = Some(hint.to_string());
        c
    }
}

/// All requirement checks of one device.
#[derive(Debug, Clone)]
pub struct DeviceRequirements {
    pub device_id: String,
    pub checks: Vec<RequirementCheck>,
    pub all_passed: bool,
}

impl DeviceRequirements {
    pub fn new(device_id: &str, checks: Vec<RequirementCheck>) -> (r: Self)
        ensures
            r.device_id@ == device_id@,
            r.checks@ == checks@,
            r.all_passed == forall|i: int| 0 <= i < checks@.len() ==> (#[trigger] checks@[i]).passed,
    {
        let mut all = true;
        let mut i: usize = 0;
        while i < checks.len()
            invariant
                i <= checks.len(),
                all == forall|k: int| 0 <= k < i ==> (#[trigger] checks@[k]).passed,
            decreases checks.len() - i,
        {
            all = all && checks[i].passed;
            i = i + 1;
        }
        DeviceRequirements { device_id: device_id.to_string(), checks, all_passed: all }
    }
}

/// The USB debugging check for `device_id` given the device list (or the error
/// listing it).
pub open spec fn usb_debugging_outcome(
    c: RequirementCheck,
    device_id: Seq<char>,
    devices: Result<Vec<DeviceInfo>, AppError>,
) -> bool {
    let id = "usb_debugging"@;
    let name = "USB Debugging"@;
    let desc = "Device must be authorized for debugging"@;
    match devices {
        Err(_) => c.is(id, name, desc, false, Some("Unable to check device status"@)),
        Ok(ds) => match first_with_id(ds@, device_id) {
            None => c.is(id, name, desc, false, Some("Device not found. Please reconnect."@)),
            Some(k) => if ds@[k].status is Device {
                c.is(id, name, desc, true, None)
            } else {
                c.is(
                    id,
                    name,
                    desc,
                    false,
                    Some(
                        "Accept the USB debugging prompt on your device, or reconnect the USB cable"@,
                    ),
                )
            },
        },
    }
}

/// The index of the first device with serial `id`.
pub open spec fn first_with_id(ds: Seq<DeviceInfo>, id: Seq<char>) -> Option<int> {
    if exists|k: int| 0 <= k < ds.len() && ds[k].id@ == id {
        Some(
            choose|k: int|
                0 <= k < ds.len() && ds[k].id@ == id && forall|j: int|
                    0 <= j < k ==> ds[j].id@ != id,
        )
    } else {
        None
    }
}

/// The Developer Options check given the `development_settings_enabled` setting.
pub open spec fn developer_options_outcome(c: RequirementCheck, setting: Option<Seq<char>>) -> bool {
    let id = "developer_options"@;
    let name = "Developer Options"@;
    let desc = "Developer Options must be enabled"@;
    if setting == Some("1"@) {
        c.is(id, name, desc, true, None)
    } else {
        c.is(id, name, desc, false, Some("Go to Settings > About Phone > Tap Build Number 7 times"@))
    }
}

/// The unknown-sources check given the `install_non_market_apps` setting: only an
/// explicit `0` fails.
pub open spec fn unknown_sources_outcome(c: RequirementCheck, setting: Option<Seq<char>>) -> bool {
    let id = "unknown_sources"@;
    let name = "Install Unknown Apps"@;
    let desc = "Permission to install apps from unknown sources"@;
    if setting == Some("0"@) {
        c.is(id, name, desc, false, Some("Go to Settings > Security > Enable 'Unknown Sources'"@))
    } else {
        c.is(id, name, desc, true, None)
    }
}

/// The input-injection check given the outcome of `input keyevent 0`.
pub open spec fn action_outcome(c: RequirementCheck, run: Option<CommandOutput>) -> bool {
    let id = "usb_debug_security"@;
    let name = "USB Debugging (Security)"@;
    let desc = "Required for Input Text and some advanced actions"@;
    match run {
        None => c.is(id, name, desc, false, Some("Unable to test input capability"@)),
        Some(o) => {
            let combined = o.stdout@ + o.stderr@;
            if contains(combined, "INJECT_EVENTS"@) || contains(combined, "SecurityException"@) {
                c.is(
                    id,
                    name,
                    desc,
                    false,
                    Some("Enable 'USB debugging (Security settings)' in Developer Options"@),
                )
            } else if contains(combined, "Exception"@) || contains(combined, "error"@) {
                c.is(
                    id,
                    name,
                    desc,
                    false,
                    Some(
                        "Enable 'USB debugging (Security settings)' or 'Disable permission monitoring'"@,
                    ),
                )
            } else {
                c.is(id, name, desc, true, None)
            }
        },
    }
}

/// Checks device requirements through an executor.
pub struct RequirementChecker<'a> {
    executor: &'a AdbExecutor,
}

impl<'a> RequirementChecker<'a> {
    pub fn new(executor: &'a AdbExecutor) -> (r: Self)
        ensures
            r.executor() == executor,
    {
        RequirementChecker { executor }
    }

    pub closed spec fn executor(self) -> &'a AdbExecutor {
        self.executor
    }

    /// The USB debugging check: the device must be listed with state `device`.
    pub fn usb_debugging_check(device_id: &str, devices: &Result<Vec<DeviceInfo>, AppError>) -> (r: RequirementCheck)
        ensures
            usb_debugging_outcome(r, device_id@, *devices),
    {
        let usb_debug = RequirementCheck::new(
            "usb_debugging",
            "USB Debugging",
            "Device must be authorized for debugging",
        );
        match devices {
            Err(_) => usb_debug.fail("Unable to check device status"),
            Ok(ds) => {
                let id = chars_of(device_id);
                let mut i: usize = 0;
                while i < ds.len()
                    invariant
                        i <= ds.len(),
                        id@ == device_id@,
                        *devices == Ok::<Vec<DeviceInfo>, AppError>(*ds),
                        usb_debug.is("usb_debugging"@, "USB Debugging"@, "Device must be authorized for debugging"@, false, None),
                        forall|j: int| 0 <= j < i ==> ds@[j].id@ != device_id@,
                    decreases ds.len() - i,
                {
                    let did = chars_of(ds[i].id.as_str());
                    if chars_eq(&did, &id) {
                        proof {
                            let k = i as int;
                            assert(0 <= k < ds@.len() && ds@[k].id@ == device_id@);
                            assert(0 <= k < ds@.len() && ds@[k].id@ == device_id@ && forall|j: int|
                                0 <= j < k ==> ds@[j].id@ != device_id@);
                            let kk = choose|kk: int|
                                0 <= kk < ds@.len() && ds@[kk].id@ == device_id@ && forall|j: int|
                                    0 <= j < kk ==> ds@[j].id@ != device_id@;
                            assert(first_with_id(ds@, device_id@) == Some(kk));
                            if kk < k {
                                assert(ds@[kk].id@ != device_id@);
                            } else if kk > k {
                                assert(ds@[k].id@ != device_id@);
                            }
                            assert(kk == k);

                        }
                        if ds[i].status.is_device() {
                            return usb_debug.pass();
                        } else {
                            return usb_debug.fail(
                                "Accept the USB debugging prompt on your device, or reconnect the USB cable",
                            );
                        }
                    }
                    i = i + 1;
                }
                usb_debug.fail("Device not found. Please reconnect.")
            },
        }
    }

    /// All base requirements: USB debugging, then (only when it passed) Developer
    /// Options and unknown sources from the two settings read on the device.
    pub fn check_device_requirements(
        &self,
        usb: RequirementCheck,
        development_settings_enabled: Option<String>,
        install_non_market_apps: Option<String>,
    ) -> (r: Vec<RequirementCheck>)
        ensures
            r@.len() == if usb.passed { 3int } else { 1int },
            r@[0] == usb,
            usb.passed ==> developer_options_outcome(r@[1], opt_view(development_settings_enabled)),
            usb.passed ==> unknown_sources_outcome(r@[2], opt_view(install_non_market_apps)),
    {
        let passed = usb.passed;
        let mut checks: Vec<RequirementCheck> = Vec::new();
        checks.push(usb);
        if passed {
            let dev_options = RequirementCheck::new(
                "developer_options",
                "Developer Options",
                "Developer Options must be enabled",
            );
            let dev_on = match &development_settings_enabled {
                Some(val) => chars_eq_str(&chars_of(val.as_str()), "1"),
                None => false,
            };
            if dev_on {
                checks.push(dev_options.pass());
            } else {
                checks.push(dev_options.fail("Go to Settings > About Phone > Tap Build Number 7 times"));
            }
            let unknown_sources = RequirementCheck::new(
                "unknown_sources",
                "Install Unknown Apps",
                "Permission to install apps from unknown sources",
            );
            let off = match &install_non_market_apps {
                Some(val) => chars_eq_str(&chars_of(val.as_str()), "0"),
                None => false,
            };
            if off {
                checks.push(unknown_sources.fail("Go to Settings > Security > Enable 'Unknown Sources'"));
            } else {
                checks.push(unknown_sources.pass());
            }
        }
        checks
    }

    /// The command line that tests input injection (`input keyevent 0`).
    pub fn action_test_args(device_id: &str) -> (r: Vec<String>)
        ensures
            crate::adb::command_builder::strs(r@) == seq!["-s"@, device_id@, "shell"@, "input"@, "keyevent"@, "0"@],
    {
        let mut args: Vec<String> = Vec::new();
        crate::adb::command_builder::push_str_copy(&mut args, "-s");
        crate::adb::command_builder::push_str_copy(&mut args, device_id);
        crate::adb::command_builder::push_str_copy(&mut args, "shell");
        crate::adb::command_builder::push_str_copy(&mut args, "input");
        crate::adb::command_builder::push_str_copy(&mut args, "keyevent");
        crate::adb::command_builder::push_str_copy(&mut args, "0");
        assert(crate::adb::command_builder::strs(args@) =~= seq!["-s"@, device_id@, "shell"@, "input"@, "keyevent"@, "0"@]);
        args
    }

    /// The advanced action requirement, from the outcome of the input test
    /// (`None` when it could not be run).
    pub fn check_action_requirements(&self, run: Option<CommandOutput>) -> (r: Vec<RequirementCheck>)
        ensures
            r@.len() == 1,
            action_outcome(r@[0], run),
    {
        let usb_security = RequirementCheck::new(
            "usb_debug_security",
            "USB Debugging (Security)",
            "Required for Input Text and some advanced actions",
        );
        let mut checks: Vec<RequirementCheck> = Vec::new();
        match run {
            Some(output) => {
                let mut combined = chars_of(output.stdout.as_str());
                let err = chars_of(output.stderr.as_str());
                let ghost a = combined@;
                let mut k: usize = 0;
                while k < err.len()
                    invariant
                        k <= err.len(),
                        combined@ == a + err@.take(k as int),
                    decreases err.len() - k,
                {
                    combined.push(err[k]);
                    k = k + 1;
                    assert(combined@ =~= a + err@.take(k as int));
                }
                assert(err@.take(err.len() as int) =~= err@);
                if contains_str(&combined, "INJECT_EVENTS") || contains_str(&combined, "SecurityException") {
                    checks.push(usb_security.fail("Enable 'USB debugging (Security settings)' in Developer Options"));
                } else if contains_str(&combined, "Exception") || contains_str(&combined, "error") {
                    checks.push(usb_security.fail(
                        "Enable 'USB debugging (Security settings)' or 'Disable permission monitoring'",
                    ));
                } else {
                    checks.push(usb_security.pass());
                }
            },
            None => {
                checks.push(usb_security.fail("Unable to test input capability"));
            },
        }
        checks
    }
}

} // verus!
