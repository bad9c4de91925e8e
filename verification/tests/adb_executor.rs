use gamesense::adb::executor::{AdbExecutor, DeviceInfo, DeviceStatus};


#[test]
fn test_device_status_from_str() {
    assert_eq!(DeviceStatus::from("device"), DeviceStatus::Device);
    assert_eq!(DeviceStatus::from("offline"), DeviceStatus::Offline);
    assert_eq!(
        DeviceStatus::from("unauthorized"),
        DeviceStatus::Unauthorized
    );
}

#[test]
fn device_status_case_insensitive() {
    assert_eq!(DeviceStatus::from("DEVICE"), DeviceStatus::Device);
    assert_eq!(DeviceStatus::from("Offline"), DeviceStatus::Offline);
    assert_eq!(DeviceStatus::from("UNAUTHORIZED"), DeviceStatus::Unauthorized);
}

#[test]
fn device_status_trims_whitespace() {
    assert_eq!(DeviceStatus::from("  device  "), DeviceStatus::Device);
    assert_eq!(DeviceStatus::from("\toffline\n"), DeviceStatus::Offline);
}

#[test]
fn device_status_unknown_values() {
    assert_eq!(
        DeviceStatus::from("recovery"),
        DeviceStatus::Unknown("recovery".to_string())
    );
    assert_eq!(
        DeviceStatus::from("sideload"),
        DeviceStatus::Unknown("sideload".to_string())
    );
}

#[test]
fn device_info_has_correct_fields() {
    let info = DeviceInfo {
        id: "R5CT900XYZ1".to_string(),
        status: DeviceStatus::Device,
        model: Some("Pixel 7".to_string()),
        product: Some("panther".to_string()),
    };
    assert_eq!(info.id, "R5CT900XYZ1");
    assert_eq!(info.status, DeviceStatus::Device);
    assert_eq!(info.model.as_deref(), Some("Pixel 7"));
    assert_eq!(info.product.as_deref(), Some("panther"));
}

#[test]
fn executor_with_path() {
    let executor = AdbExecutor::with_path("/fake/adb");
    assert_eq!(executor.get_adb_path().as_str(), "/fake/adb");
}

#[test]
fn executor_is_not_bundled_when_fallback() {
    let executor = AdbExecutor::with_path("adb");
    assert!(!executor.is_bundled());
}

#[test]
fn executor_is_bundled_when_custom_path() {
    let executor = AdbExecutor::with_path("/opt/adb/adb");
    assert!(executor.is_bundled());
}
