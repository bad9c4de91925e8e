use gamesense::apk::{is_apk_extension, map_install_error, ApkInfo, InstallResult};


#[test]
fn map_install_error_already_exists() {
    let (msg, code) = map_install_error("Failure [INSTALL_FAILED_ALREADY_EXISTS]");
    assert!(msg.contains("already installed"));
    assert_eq!(code.as_deref(), Some("INSTALL_FAILED_ALREADY_EXISTS"));
}

#[test]
fn map_install_error_insufficient_storage() {
    let (msg, code) = map_install_error("Failure [INSTALL_FAILED_INSUFFICIENT_STORAGE]");
    assert!(msg.contains("storage"));
    assert_eq!(code.as_deref(), Some("INSTALL_FAILED_INSUFFICIENT_STORAGE"));
}

#[test]
fn map_install_error_invalid_apk() {
    let (msg, code) = map_install_error("Failure [INSTALL_FAILED_INVALID_APK]");
    assert!(msg.contains("Invalid") || msg.contains("corrupted"));
    assert_eq!(code.as_deref(), Some("INSTALL_FAILED_INVALID_APK"));
}

#[test]
fn map_install_error_version_downgrade() {
    let (msg, code) = map_install_error("Failure [INSTALL_FAILED_VERSION_DOWNGRADE]");
    assert!(msg.contains("older version"));
    assert_eq!(code.as_deref(), Some("INSTALL_FAILED_VERSION_DOWNGRADE"));
}

#[test]
fn map_install_error_no_matching_abis() {
    let (msg, code) = map_install_error("Failure [INSTALL_FAILED_NO_MATCHING_ABIS]");
    assert!(msg.contains("architecture"));
    assert_eq!(code.as_deref(), Some("INSTALL_FAILED_NO_MATCHING_ABIS"));
}

#[test]
fn map_install_error_unknown() {
    let (msg, code) = map_install_error("Failure [SOME_UNKNOWN_ERROR]");
    assert!(msg.contains("failed"));
    assert!(code.is_none());
}

#[test]
fn map_install_error_all_known_codes() {
    let codes = [
        "INSTALL_FAILED_ALREADY_EXISTS",
        "INSTALL_FAILED_INSUFFICIENT_STORAGE",
        "INSTALL_FAILED_INVALID_APK",
        "INSTALL_FAILED_VERSION_DOWNGRADE",
        "INSTALL_FAILED_USER_RESTRICTED",
        "INSTALL_FAILED_UPDATE_INCOMPATIBLE",
        "INSTALL_PARSE_FAILED_NO_CERTIFICATES",
        "INSTALL_FAILED_OLDER_SDK",
        "INSTALL_FAILED_CONFLICTING_PROVIDER",
        "INSTALL_FAILED_NO_MATCHING_ABIS",
    ];
    for code in codes {
        let (_, matched_code) = map_install_error(&format!("Failure [{code}]"));
        assert_eq!(matched_code.as_deref(), Some(code), "Failed for code: {code}");
    }
}

#[test]
fn install_result_success() {
    let result = InstallResult::success("device1", "OK");
    assert!(result.success);
    assert_eq!(result.device_id, "device1");
    assert_eq!(result.message, "OK");
    assert!(result.error_code.is_none());
}

#[test]
fn install_result_failure() {
    let result = InstallResult::failure("device1", "Failed", Some("ERR_001"));
    assert!(!result.success);
    assert_eq!(result.error_code.as_deref(), Some("ERR_001"));
}

#[test]
fn install_result_failure_no_code() {
    let result = InstallResult::failure("device1", "Failed", None);
    assert!(!result.success);
    assert!(result.error_code.is_none());
}




#[test]
fn apk_info_from_file_parts() {
    let info = ApkInfo::from_parts("/tmp/x/test.apk", Some("test.apk"), Some("apk"), 16, Some(7));
    assert_eq!(info.path, "/tmp/x/test.apk");
    assert_eq!(info.file_name, "test.apk");
    assert!(info.valid);
    assert_eq!(info.size_bytes, 16);
    assert_eq!(info.last_modified, Some(7));
    let info = ApkInfo::from_parts("/tmp/x/test.txt", Some("test.txt"), Some("txt"), 10, None);
    assert!(!info.valid);
    assert_eq!(info.file_name, "test.txt");
    let info = ApkInfo::from_parts("/", None, None, 0, None);
    assert_eq!(info.file_name, "unknown.apk");
    assert!(!info.valid);
}

#[test]
fn apk_extension_ignores_case() {
    assert!(is_apk_extension(Some("apk")));
    assert!(is_apk_extension(Some("APK")));
    assert!(is_apk_extension(Some("Apk")));
    assert!(!is_apk_extension(Some("apks")));
    assert!(!is_apk_extension(None));
}
