use gamesense::adb::executor::CommandOutput;
use gamesense::commands::device::check_adb_status;
use gamesense::commands::device_actions::{
    animation_args, animation_result, app_label, app_label_result, dark_mode_result, escape_input_text,
    foreground_app, foreground_package, input_swipe_args, input_tap, input_text, input_text_args,
    reboot_args, reboot_error, show_taps_result,
};
use gamesense::commands::file_transfer::{list_files, parse_ls_output, push_file};
use gamesense::commands::package_actions::{list_packages, list_packages_args, requested_permissions, uninstall_app};
use gamesense::commands::shell::{clear_logcat, execute_shell, logcat_args};
use gamesense::commands::wireless::{connect_wireless, enable_tcpip, get_device_ip, probe_args, probe_ip, tcpip_port, IpSearch};
use gamesense::error::AppError;

fn ran(success: bool, stdout: &str, stderr: &str) -> Result<CommandOutput, String> {
    Ok(CommandOutput { success, stdout: stdout.to_string(), stderr: stderr.to_string() })
}

#[test]
fn ls_listing_directories_first_then_names_ignoring_case() {
    let out = "total 24\n\
               drwxrwx--x  4 root sdcard_rw 4096 2024-01-01 10:00 .\n\
               drwxr-xr-x  3 root root      4096 2024-01-01 10:00 ..\n\
               -rw-rw----  1 root sdcard_rw 1234 2024-01-01 10:00 beta.txt\n\
               drwxrwx--x  2 root sdcard_rw 4096 2024-01-01 10:00 Music\n\
               -rw-rw----  1 root sdcard_rw   10 2024-01-01 10:00 Alpha.txt\n\
               lrwxrwxrwx  1 root root        21 2024-01-01 10:00 sdcard -> /storage/self/primary\n\
               drwxrwx--x  2 root sdcard_rw 4096 2024-01-01 10:00 apps\n\
               -rw-rw----  1 root sdcard_rw    5 2024-01-01 10:00 my file.txt\n\
               short line\n";
    let files = parse_ls_output(out);
    let names: Vec<&str> = files.iter().map(|f| f.name.as_str()).collect();
    assert_eq!(names, vec!["apps", "Music", "Alpha.txt", "beta.txt", "my file.txt", "sdcard"]);
    assert!(files[0].is_directory && files[1].is_directory);
    assert_eq!(files[0].size, None);
    assert_eq!(files[2].size, Some(10));
    assert_eq!(files[2].permissions.as_deref(), Some("-rw-rw----"));
    assert_eq!(files[5].size, Some(21));
}

#[test]
fn ls_sort_keeps_equal_names_in_listing_order() {
    let out = "-rw-r--r-- 1 u g 1 d t same\n-rw-r--r-- 1 u g 2 d t SAME\n-rw-r--r-- 1 u g 3 d t Same\n";
    let files = parse_ls_output(out);
    let sizes: Vec<Option<u64>> = files.iter().map(|f| f.size).collect();
    assert_eq!(sizes, vec![Some(1), Some(2), Some(3)]);
}

#[test]
fn list_files_errors() {
    let e = list_files(Err("x".to_string())).err().unwrap();
    assert_eq!((e.code.as_str(), e.message.as_str()), ("LIST_FILES_FAILED", "Failed to list files: x"));
    let e = list_files(ran(false, "", "No such file")).err().unwrap();
    assert_eq!(e.message, "List files failed: No such file");
    assert!(list_files(ran(true, "total 0\n", "")).unwrap().is_empty());
    assert_eq!(push_file(ran(true, "1 file pushed", "")).unwrap(), "1 file pushed");
}

#[test]
fn input_text_escaping() {
    assert_eq!(escape_input_text("a b&c"), "a%sb\\&c");
    assert_eq!(escape_input_text("\"q\" 'x' (y) <z> |;\\"), "\\\"q\\\"%s\\'x\\'%s\\(y\\)%s\\<z\\>%s\\|\\;\\\\");
    assert_eq!(input_text_args("d", "hi there"), vec!["-s", "d", "shell", "input", "text", "hi%sthere"]);
}

#[test]
fn input_text_reports_errors_from_output() {
    assert!(input_text(ran(true, "", "")).is_ok());
    let e: AppError = input_text(ran(true, " java.lang.Exception: bad \n", "")).unwrap_err();
    assert_eq!((e.code.as_str(), e.message.as_str()), ("INPUT_FAILED", "Input failed: java.lang.Exception: bad"));
    let e = input_text(ran(false, " out ", "")).unwrap_err();
    assert_eq!(e.message, "Input failed: out");
    let e = input_text(ran(false, "out", " err ")).unwrap_err();
    assert_eq!(e.message, "Input failed: err");
    let e = input_tap(ran(false, "o", "e")).unwrap_err();
    assert_eq!(e.message, "Input tap failed: o e");
}

#[test]
fn argument_lists() {
    assert_eq!(reboot_args("d", None), vec!["-s", "d", "reboot"]);
    assert_eq!(reboot_args("d", Some("")), vec!["-s", "d", "reboot"]);
    assert_eq!(reboot_args("d", Some("recovery")), vec!["-s", "d", "reboot", "recovery"]);
    assert_eq!(
        input_swipe_args("d", -1, 2, 3, 4, 200),
        vec!["-s", "d", "shell", "input", "swipe", "-1", "2", "3", "4", "200"]
    );
    let anim = animation_args("d", "0.5");
    assert_eq!(anim.len(), 3);
    assert_eq!(anim[1], vec!["-s", "d", "shell", "settings", "put", "global", "transition_animation_scale", "0.5"]);
    assert_eq!(logcat_args("d", 100, Some("*:E")), vec!["-s", "d", "logcat", "-d", "-t", "100", "*:E"]);
    assert_eq!(list_packages_args("d", false), vec!["-s", "d", "shell", "pm", "list", "packages", "-3"]);
    assert_eq!(list_packages_args("d", true), vec!["-s", "d", "shell", "pm", "list", "packages"]);
}

#[test]
fn foreground_app_from_window_dump() {
    let dump = "  mFocusedApp=null\n  mCurrentFocus=Window{abc u0 com.example.game/com.example.game.MainActivity}\n";
    assert_eq!(foreground_package(dump), "com.example.game");
    assert_eq!(foreground_package("nothing here\n"), "");
    let braces = "mCurrentFocus= {com.a.b/x}\n";
    assert_eq!(foreground_package(braces), "com.a.b");
}

#[test]
fn app_label_or_package_name() {
    let dump = "Packages:\n    nonLocalizedLabel=null\n    nonLocalizedLabel=Pocket Sort: Coin Puzzle\n";
    assert_eq!(app_label(dump, "com.pocket"), "Pocket Sort: Coin Puzzle");
    assert_eq!(app_label("nonLocalizedLabel=  \n", "com.pocket"), "com.pocket");
}

#[test]
fn packages_and_permissions() {
    let ps = list_packages(ran(true, "package:com.a\nnoise\npackage: com.b \n", "")).ok().unwrap();
    let ids: Vec<&str> = ps.iter().map(|p| p.id.as_str()).collect();
    assert_eq!(ids, vec!["com.a", "com.b"]);
    assert!(ps[0].label.is_none() && ps[0].icon.is_none());
    let dump = "  declared permissions:\n  requested permissions:\n    android.permission.CAMERA\n\n    android.permission.INTERNET\n  install permissions:\n    android.permission.X\n";
    assert_eq!(requested_permissions(dump), vec!["android.permission.CAMERA", "android.permission.INTERNET"]);
    assert_eq!(uninstall_app(ran(true, "Success\n", "")).unwrap(), "Successfully uninstalled");
    let e = uninstall_app(ran(true, " Failure [DELETE_FAILED_INTERNAL_ERROR] ", "")).unwrap_err();
    assert_eq!(e.message, "Uninstall failed: Failure [DELETE_FAILED_INTERNAL_ERROR]");
}

#[test]
fn wireless_connection_results() {
    assert_eq!(tcpip_port("5556"), 5556);
    assert_eq!(tcpip_port("99999"), 5555);
    assert_eq!(tcpip_port("abc"), 5555);
    assert_eq!(enable_tcpip(5555, ran(true, "", "")).unwrap(), "TCP/IP mode enabled on port 5555");
    assert_eq!(enable_tcpip(5555, ran(false, "", "no")).unwrap_err(), "Failed to enable TCP/IP: no");
    assert_eq!(connect_wireless(ran(true, "connected to 1.2.3.4:5555\n", "")).unwrap(), "connected to 1.2.3.4:5555");
    assert_eq!(connect_wireless(ran(true, "  ", "")).unwrap_err(), "Connection failed - no response");
    assert_eq!(connect_wireless(ran(true, "failed to connect", "")).unwrap_err(), "failed to connect");
}

#[test]
fn ip_probes_in_order() {
    assert_eq!(probe_args("d", 0), vec!["-s", "d", "shell", "ip", "route", "get", "8.8.8.8"]);
    assert_eq!(probe_args("d", 2), vec!["-s", "d", "shell", "ip", "addr", "show", "eth0"]);
    assert_eq!(probe_ip(0, "8.8.8.8 via 192.168.1.1 dev wlan0 src 192.168.1.5 uid 0").as_deref(), Some("192.168.1.5"));
    assert_eq!(probe_ip(1, "3: wlan0: <UP>\n    inet 10.0.0.7/24 brd 10.0.0.255 scope global wlan0\n").as_deref(), Some("10.0.0.7"));
    assert_eq!(probe_ip(4, "wlan0 Link encap:UNSPEC\n inet addr:172.16.0.3  Bcast:172.16.0.255").as_deref(), Some("172.16.0.3"));
    assert_eq!(probe_ip(5, "    inet 127.0.0.1/8 scope host lo\n    inet addr:192.168.0.9/24 brd x\n").as_deref(), Some("192.168.0.9"));
    match get_device_ip(0, None) {
        IpSearch::Probe(n) => assert_eq!(n, 1),
        _ => panic!("expected the next probe"),
    }
    match get_device_ip(5, Some("nothing")) {
        IpSearch::GiveUp(m) => assert_eq!(m, "Could not determine IP. Ensure WiFi is connected."),
        _ => panic!("expected to give up"),
    }
    match get_device_ip(3, Some("inet 10.1.1.1/8 x\n")) {
        IpSearch::Found(ip) => assert_eq!(ip, "10.1.1.1"),
        _ => panic!("expected an address"),
    }
}

#[test]
fn shell_results() {
    assert_eq!(execute_shell(ran(true, "ok", "")).unwrap(), "ok");
    assert_eq!(execute_shell(ran(true, "", "sh: bad")).unwrap_err(), "sh: bad");
    assert_eq!(execute_shell(ran(true, "out", "warn")).unwrap(), "out");
    assert_eq!(execute_shell(Err("x".to_string())).unwrap_err(), "Shell command failed: x");
    assert_eq!(clear_logcat(ran(false, "", "e")).unwrap_err(), "Failed to clear logcat: e");
}

#[test]
fn adb_status_from_version_check() {
    let ok = check_adb_status("/opt/adb", true, Ok("Android Debug Bridge version 1.0.41".to_string()));
    assert!(ok.available && ok.is_bundled);
    assert_eq!(ok.version.as_deref(), Some("Android Debug Bridge version 1.0.41"));
    assert_eq!(ok.adb_path.as_deref(), Some("/opt/adb"));
    let bad = check_adb_status("adb", false, Err(AppError::new("ADB_NOT_FOUND", "missing")));
    assert!(!bad.available);
    assert_eq!(bad.error.as_deref(), Some("missing"));
}

#[test]
fn settings_commands_fail_only_when_they_cannot_run() {
    assert!(dark_mode_result(ran(false, "", "denied")).is_ok());
    let e = dark_mode_result(Err("no adb".to_string())).unwrap_err();
    assert_eq!((e.code.as_str(), e.message.as_str()), ("DARK_MODE_FAILED", "Failed to set dark mode: no adb"));
    assert!(show_taps_result(ran(true, "", "")).is_ok());
    let e = show_taps_result(Err("x".to_string())).unwrap_err();
    assert_eq!((e.code.as_str(), e.message.as_str()), ("SHOW_TAPS_FAILED", "Failed to set show taps: x"));
    let e = animation_result(Err("y".to_string())).unwrap_err();
    assert_eq!((e.code.as_str(), e.message.as_str()), ("ANIM_SCALE_FAILED", "Failed to set animation scale: y"));
    let e = reboot_error("z");
    assert_eq!((e.code.as_str(), e.message.as_str()), ("REBOOT_FAILED", "Failed to reboot: z"));
}

#[test]
fn foreground_and_label_read_the_output() {
    let out = "  mCurrentFocus=Window{1 u0 com.example.game/com.example.Main}\n";
    assert_eq!(foreground_app(ran(false, out, "")).unwrap(), "com.example.game");
    assert_eq!(foreground_app(ran(true, "nothing", "")).unwrap(), "");
    let e = foreground_app(Err("gone".to_string())).unwrap_err();
    assert_eq!((e.code.as_str(), e.message.as_str()), ("FOREGROUND_FAILED", "Failed to get foreground app: gone"));
    assert_eq!(app_label_result(ran(true, "  nonLocalizedLabel=Cool Game\n", ""), "com.a").unwrap(), "Cool Game");
    assert_eq!(app_label_result(ran(true, "nonLocalizedLabel=null", ""), "com.a").unwrap(), "com.a");
    let e = app_label_result(Err("q".to_string()), "com.a").unwrap_err();
    assert_eq!((e.code.as_str(), e.message.as_str()), ("APP_LABEL_FAILED", "dumpsys failed: q"));
}
