use gamesense::adb::command_builder::{AdbCommand, AdbCommandBuilder};
use gamesense::adb::discovery::AdbDiscovery;
use gamesense::adb::executor::{AdbClient, AdbExecutor, CommandOutput, DeviceInfo, DeviceStatus};
use gamesense::agent::prompts::build_research_prompt;
use gamesense::agent::providers::{extract_json, gemini, invalid_json_error, openai, select_provider, Provider};
use gamesense::apk::ApkInstaller;
use gamesense::error::{AdbError, AppError};
use gamesense::requirements::{DeviceRequirements, RequirementCheck, RequirementChecker};

fn out(success: bool, stdout: &str, stderr: &str) -> CommandOutput {
    CommandOutput { success, stdout: stdout.to_string(), stderr: stderr.to_string() }
}

#[test]
fn targeted_commands_start_with_the_serial() {
    let b = AdbCommandBuilder::new().target("SER");
    for c in [AdbCommand::Version, AdbCommand::KillServer, AdbCommand::GetProp("p".into())] {
        let args = b.build(c);
        assert_eq!(&args[..2], &["-s".to_string(), "SER".to_string()]);
    }
}

#[test]
fn executor_interprets_runs() {
    let ex = AdbExecutor::with_path("/opt/adb");
    assert_eq!(ex.check_available(Ok(out(true, "Android Debug Bridge version 1.0.41\nVersion 34\n", ""))).unwrap(), "Android Debug Bridge version 1.0.41");
    assert_eq!(ex.check_available(Ok(out(true, "", ""))).unwrap(), "Unknown version");
    assert_eq!(ex.check_available(Ok(out(false, "", ""))).unwrap_err().code, "ADB_NOT_FOUND");
    assert_eq!(ex.get_device_prop("d", Ok(out(true, " Pixel 7 \n", ""))).unwrap(), "Pixel 7");
    let e = ex.get_device_prop("d", Ok(out(false, "", ""))).unwrap_err();
    assert_eq!((e.code.as_str(), e.details.as_deref()), ("DEVICE_NOT_FOUND", Some("d")));
    assert_eq!(ex.get_setting(Ok(out(true, "1\n", ""))).as_deref(), Some("1"));
    assert_eq!(ex.get_setting(Ok(out(true, "null\n", ""))), None);
    assert_eq!(ex.get_setting(Ok(out(true, "  \n", ""))), None);
    assert_eq!(
        AdbExecutor::get_setting_args("d", "global", "development_settings_enabled"),
        vec!["-s", "d", "shell", "settings", "get", "global", "development_settings_enabled"]
    );
}

#[test]
fn paths_compare_by_component() {
    assert!(!AdbExecutor::with_path("adb").is_bundled());
    assert!(!AdbExecutor::with_path("adb/").is_bundled());
    assert!(AdbExecutor::with_path("bin/adb").is_bundled());
}

#[test]
fn discovery_lists_devices_and_names_them() {
    let client = AdbClient::with_path("/fake/adb");
    let d = AdbDiscovery::new(&client);
    let list = d.list_devices(Ok(out(true, "List of devices attached\nA\tdevice\n", ""))).unwrap();
    assert_eq!(list.len(), 1);
    assert_eq!(AdbDiscovery::prop_value(Ok(out(true, " x \n", ""))).as_deref(), Some("x"));
    assert_eq!(AdbDiscovery::prop_value(Ok(out(false, "x", ""))), None);
    assert_eq!(AdbDiscovery::prop_value(Ok(out(true, "  ", ""))), None);
    assert_eq!(
        AdbDiscovery::get_device_model_info(Some("samsung".into()), Some("Galaxy S23".into())).as_deref(),
        Some("Samsung Galaxy S23")
    );
    assert_eq!(
        AdbDiscovery::get_device_model_info(Some("Google".into()), Some("google Pixel 7".into())).as_deref(),
        Some("google Pixel 7")
    );
    assert_eq!(AdbDiscovery::get_device_model_info(None, None), None);
    assert_eq!(AdbDiscovery::get_device_model_info(Some("b".into()), None).as_deref(), Some("b"));
}

#[test]
fn status_words_are_read_after_trimming_and_lowercasing() {
    assert_eq!(DeviceStatus::from_text(" Recovery "), DeviceStatus::Unknown("recovery".to_string()));
    assert!(DeviceStatus::from_text("DEVICE").is_device());
    assert!(!DeviceStatus::from_text("offline").is_device());
}

#[test]
fn installer_reports_outcomes() {
    let ex = AdbExecutor::with_path("adb");
    let inst = ApkInstaller::new(&ex);
    let missing = inst.install("d", false, Ok(out(true, "Success", "")));
    assert!(!missing.success);
    assert_eq!(missing.message, "APK file not found");
    let ok = inst.install("d", true, Ok(out(true, "Performing Streamed Install\nSuccess\n", "")));
    assert!(ok.success);
    assert_eq!(ok.message, "APK installed successfully");
    let bad = inst.install("d", true, Ok(out(false, "", "Failure [INSTALL_FAILED_OLDER_SDK]")));
    assert!(!bad.success);
    assert_eq!(bad.error_code.as_deref(), Some("INSTALL_FAILED_OLDER_SDK"));
    assert_eq!(ApkInstaller::install_args("d", "/x.apk"), vec!["-s", "d", "install", "-r", "/x.apk"]);
}

#[test]
fn device_requirements() {
    let ex = AdbExecutor::with_path("adb");
    let checker = RequirementChecker::new(&ex);
    let devices = Ok(vec![DeviceInfo { id: "d".into(), status: DeviceStatus::Device, model: None, product: None }]);
    let usb = RequirementChecker::usb_debugging_check("d", &devices);
    assert!(usb.passed);
    let missing = RequirementChecker::usb_debugging_check("other", &devices);
    assert!(!missing.passed);
    assert_eq!(missing.hint.as_deref(), Some("Device not found. Please reconnect."));
    let checks = checker.check_device_requirements(usb, Some("1".into()), Some("0".into()));
    assert_eq!(checks.len(), 3);
    assert!(checks[1].passed);
    assert!(!checks[2].passed);
    let only = checker.check_device_requirements(missing, None, None);
    assert_eq!(only.len(), 1);
    let req = DeviceRequirements::new("d", checks);
    assert!(!req.all_passed);
    let action = checker.check_action_requirements(Some(out(true, "", "java.lang.SecurityException: INJECT_EVENTS")));
    assert!(!action[0].passed);
    let fine = checker.check_action_requirements(Some(out(true, "", "")));
    assert!(fine[0].passed);
    let untested = checker.check_action_requirements(None);
    assert_eq!(untested[0].hint.as_deref(), Some("Unable to test input capability"));
    let c = RequirementCheck::new("id", "Name", "Desc").fail("hint");
    assert!(!c.passed);
}

#[test]
fn provider_selection_and_urls() {
    match select_provider(Some("http://localhost:11434/v1/")) {
        Provider::OpenAi(u) => assert_eq!(u, "http://localhost:11434/v1/"),
        Provider::Gemini => panic!("expected an OpenAI-compatible endpoint"),
    }
    assert!(matches!(select_provider(Some("")), Provider::Gemini));
    assert!(matches!(select_provider(None), Provider::Gemini));
    assert_eq!(openai::chat_url("http://host/v1//"), "http://host/v1/chat/completions");
    assert_eq!(
        gemini::generate_url("gemini-2.0-flash", "KEY"),
        "https://generativelanguage.googleapis.com/v1beta/models/gemini-2.0-flash:generateContent?key=KEY"
    );
    assert_eq!(openai::bearer("k"), "Bearer k");
    assert_eq!(openai::image_data_url("QUJD"), "data:image/png;base64,QUJD");
    assert_eq!(openai::error_for_status(401, "Unauthorized", "").code, "OPENAI_AUTH_FAILED");
    assert_eq!(gemini::error_for_status(500, "Internal Server Error", "oops").message, "API error Internal Server Error: oops");
    assert_eq!(invalid_json_error("eof", "raw").message, "Invalid JSON from API: eof. Raw: raw");
}

#[test]
fn reply_json_is_cut_out_of_surrounding_text() {
    assert_eq!(extract_json("Sure! {\"a\": {\"b\": 1}} thanks"), "{\"a\": {\"b\": 1}}");
    assert_eq!(extract_json("  no braces  "), "no braces");
    assert_eq!(extract_json("} {\"a\":1}"), "{\"a\":1}");
    assert_eq!(extract_json("}} noise } {\"x\": {}} {\"y\": 2}"), "{\"x\": {}}");
    assert_eq!(extract_json(" {\"open\": 1 "), "{\"open\": 1");
    assert!(build_research_prompt("Snake").contains("Snake"));
}

#[test]
fn adb_errors_convert() {
    let e = AppError::from_adb(AdbError::Timeout);
    assert_eq!(e.to_string(), "[ADB_TIMEOUT] ADB command timed out");
}
