use gamesense::adb::discovery::AdbDiscovery;
use gamesense::adb::executor::{AdbClient, DeviceStatus};


fn make_discovery() -> AdbDiscovery<'static> {
    // Use a leaked client to get a 'static reference for testing
    let client = Box::leak(Box::new(AdbClient::with_path("/fake/adb")));
    AdbDiscovery::new(client)
}

#[test]
fn parses_single_connected_device() {
    let discovery = make_discovery();
    let output = "List of devices attached\nR5CT900XYZ1\tdevice\n\n";
    let devices = discovery.parse_devices_output_test(output);

    assert_eq!(devices.len(), 1);
    assert_eq!(devices[0].id, "R5CT900XYZ1");
    assert_eq!(devices[0].status, DeviceStatus::Device);
}

#[test]
fn parses_multiple_devices() {
    let discovery = make_discovery();
    let output = "List of devices attached\n\
                  R5CT900XYZ1\tdevice\n\
                  192.168.1.100:5555\tdevice\n\
                  EMULATOR5554\tunauthorized\n\n";
    let devices = discovery.parse_devices_output_test(output);

    assert_eq!(devices.len(), 3);
    assert_eq!(devices[0].id, "R5CT900XYZ1");
    assert_eq!(devices[1].id, "192.168.1.100:5555");
    assert_eq!(devices[2].status, DeviceStatus::Unauthorized);
}

#[test]
fn parses_empty_device_list() {
    let discovery = make_discovery();
    let output = "List of devices attached\n\n";
    let devices = discovery.parse_devices_output_test(output);

    assert!(devices.is_empty());
}

#[test]
fn parses_device_with_model_and_product() {
    let discovery = make_discovery();
    let output = "List of devices attached\n\
                  R5CT900XYZ1\tdevice product:panther model:Pixel_7\n\n";
    let devices = discovery.parse_devices_output_test(output);

    assert_eq!(devices.len(), 1);
    assert_eq!(devices[0].model.as_deref(), Some("Pixel_7"));
    assert_eq!(devices[0].product.as_deref(), Some("panther"));
}

#[test]
fn parses_offline_device() {
    let discovery = make_discovery();
    let output = "List of devices attached\nR5CT900XYZ1\toffline\n\n";
    let devices = discovery.parse_devices_output_test(output);

    assert_eq!(devices.len(), 1);
    assert_eq!(devices[0].status, DeviceStatus::Offline);
}

#[test]
fn skips_header_and_empty_lines() {
    let discovery = make_discovery();
    let output = "List of devices attached\n\n\n\n";
    let devices = discovery.parse_devices_output_test(output);

    assert!(devices.is_empty());
}
