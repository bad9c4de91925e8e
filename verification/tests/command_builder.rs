use gamesense::adb::command_builder::{AdbCommand, AdbCommandBuilder, ShellCommandBuilder};


#[test]
fn test_command_to_args() {
    let cmd = AdbCommand::Devices { long: true };
    assert_eq!(cmd.to_args(), vec!["devices", "-l"]);
}

#[test]
fn devices_short_has_no_flag() {
    let cmd = AdbCommand::Devices { long: false };
    assert_eq!(cmd.to_args(), vec!["devices"]);
}

#[test]
fn version_command() {
    assert_eq!(AdbCommand::Version.to_args(), vec!["version"]);
}

#[test]
fn install_without_reinstall() {
    let cmd = AdbCommand::Install {
        path: "/tmp/app.apk".into(),
        reinstall: false,
    };
    assert_eq!(cmd.to_args(), vec!["install", "/tmp/app.apk"]);
}

#[test]
fn install_with_reinstall() {
    let cmd = AdbCommand::Install {
        path: "/tmp/app.apk".into(),
        reinstall: true,
    };
    assert_eq!(cmd.to_args(), vec!["install", "-r", "/tmp/app.apk"]);
}

#[test]
fn uninstall_with_keep_data() {
    let cmd = AdbCommand::Uninstall {
        package: "com.example.app".into(),
        keep_data: true,
    };
    assert_eq!(cmd.to_args(), vec!["uninstall", "-k", "com.example.app"]);
}

#[test]
fn uninstall_without_keep_data() {
    let cmd = AdbCommand::Uninstall {
        package: "com.example.app".into(),
        keep_data: false,
    };
    assert_eq!(cmd.to_args(), vec!["uninstall", "com.example.app"]);
}

#[test]
fn push_command() {
    let cmd = AdbCommand::Push {
        local: "/tmp/file.txt".into(),
        remote: "/sdcard/file.txt".into(),
    };
    assert_eq!(cmd.to_args(), vec!["push", "/tmp/file.txt", "/sdcard/file.txt"]);
}

#[test]
fn pull_command() {
    let cmd = AdbCommand::Pull {
        remote: "/sdcard/file.txt".into(),
        local: "/tmp/file.txt".into(),
    };
    assert_eq!(cmd.to_args(), vec!["pull", "/sdcard/file.txt", "/tmp/file.txt"]);
}

#[test]
fn reboot_default() {
    let cmd = AdbCommand::Reboot { mode: None };
    assert_eq!(cmd.to_args(), vec!["reboot"]);
}

#[test]
fn reboot_with_mode() {
    let cmd = AdbCommand::Reboot {
        mode: Some("bootloader".into()),
    };
    assert_eq!(cmd.to_args(), vec!["reboot", "bootloader"]);
}

#[test]
fn start_server() {
    assert_eq!(AdbCommand::StartServer.to_args(), vec!["start-server"]);
}

#[test]
fn kill_server() {
    assert_eq!(AdbCommand::KillServer.to_args(), vec!["kill-server"]);
}

#[test]
fn getprop_command() {
    let cmd = AdbCommand::GetProp("ro.product.model".into());
    assert_eq!(cmd.to_args(), vec!["shell", "getprop", "ro.product.model"]);
}

#[test]
fn shell_command() {
    let cmd = AdbCommand::Shell(vec!["ls".into(), "-la".into(), "/sdcard".into()]);
    assert_eq!(cmd.to_args(), vec!["shell", "ls", "-la", "/sdcard"]);
}

#[test]
fn test_builder_with_device() {
    let builder = AdbCommandBuilder::new().target("12345");
    let args = builder.build(AdbCommand::Shell(vec!["ls".into(), "/sdcard".into()]));
    assert_eq!(args, vec!["-s", "12345", "shell", "ls", "/sdcard"]);
}

#[test]
fn builder_without_device() {
    let builder = AdbCommandBuilder::new();
    let args = builder.build(AdbCommand::Version);
    assert_eq!(args, vec!["version"]);
}

#[test]
fn test_shell_builder() {
    let args = ShellCommandBuilder::new("input")
        .arg("tap")
        .arg("100")
        .arg("200")
        .build();
    assert_eq!(args, vec!["input", "tap", "100", "200"]);
}

#[test]
fn shell_builder_single_command() {
    let args = ShellCommandBuilder::new("dumpsys").build();
    assert_eq!(args, vec!["dumpsys"]);
}
