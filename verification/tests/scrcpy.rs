use gamesense::services::scrcpy::{
    extract_next_nal, forward_args, frame_event_name, get_status, key_event_message,
    read_video_frame, sanitize_device_id, scroll_event_message, server_command_line, stop_server,
    sync_event_name, text_event_message, touch_event_message, FrameStream, ScrcpyConfig,
};
use gamesense::services::scrcpy::{connect_step, server_start_error, start_step, ConnectStep, SocketKind, StartEvent, StartNext};
use gamesense::adb::executor::CommandOutput;

#[test]
fn default_config_values() {
    let c = ScrcpyConfig::default();
    assert_eq!(c.max_size, 512);
    assert_eq!(c.bit_rate, 4_000_000);
    assert_eq!(c.max_fps, 30);
    assert_eq!(c.lock_video_orientation, -1);
    assert!(c.tunnel_forward && c.control && c.stay_awake && c.cleanup && c.power_on);
    assert!(!c.send_frame_meta && !c.show_touches && !c.power_off_on_close);
}

#[test]
fn server_command_line_for_default_config() {
    let line = server_command_line(&ScrcpyConfig::default());
    assert_eq!(
        line,
        "CLASSPATH=/data/local/tmp/scrcpy-server.jar app_process / com.genymobile.scrcpy.Server 2.7 \
         scid=12345678 log_level=verbose max_size=512 max_fps=30 lock_video_orientation=-1 \
         tunnel_forward=true send_frame_meta=false control=true display_id=0 show_touches=false \
         stay_awake=true power_off_on_close=false cleanup=true power_on=true audio=false video=true"
    );
}

#[test]
fn status_reports_session_port() {
    let s = get_status("dev1", Some(27183));
    assert!(s.running);
    assert_eq!(s.device_id.as_deref(), Some("dev1"));
    assert_eq!(s.port, Some(27183));
    let n = get_status("dev1", None);
    assert!(!n.running && n.device_id.is_none() && n.port.is_none());
}

#[test]
fn reading_single_frames_is_refused() {
    let e = read_video_frame("dev1").unwrap_err();
    assert_eq!(e.code, "DEPRECATED");
    assert_eq!(e.message, "Use event-based streaming");
}

#[test]
fn event_names_sanitize_the_device_id() {
    assert_eq!(sanitize_device_id("192.168.1.5:5555"), "192_168_1_5_5555");
    assert_eq!(frame_event_name("192.168.1.5:5555"), "scrcpy-frame-192_168_1_5_5555");
    assert_eq!(sync_event_name("main", "a.b"), "scrcpy-sync-main-a_b");
}

#[test]
fn extraction_drops_garbage_and_waits_for_the_next_start_code() {
    let mut buf = vec![9, 9, 0, 0, 0, 1, 0x67, 0xAA, 0, 0, 1, 0x68, 0xBB];
    let unit = extract_next_nal(&mut buf).unwrap();
    assert_eq!(unit, vec![0, 0, 0, 1, 0x67, 0xAA]);
    assert_eq!(buf, vec![0, 0, 1, 0x68, 0xBB]);
    assert!(extract_next_nal(&mut buf).is_none());
    assert_eq!(buf, vec![0, 0, 1, 0x68, 0xBB]);
    let mut none = vec![1, 2, 3];
    assert!(extract_next_nal(&mut none).is_none());
    assert_eq!(none, vec![1, 2, 3]);
}

#[test]
fn stream_caches_headers_and_encodes_units() {
    let mut s = FrameStream::new();
    // SPS (type 7), PPS (type 8), IDR (type 5), then the start of another unit
    let data = [
        0u8, 0, 0, 1, 0x67, 1, 2, 0, 0, 0, 1, 0x68, 3, 0, 0, 1, 0x65, 4, 0, 0, 1, 0x41, 5,
    ];
    let out = s.feed(&data);
    assert_eq!(out, vec!["AAAAAWcBAg==", "AAAAAWgD", "AAABZQQ="]);
    assert_eq!(s.last_sps, Some(vec![0, 0, 0, 1, 0x67, 1, 2]));
    assert_eq!(s.last_pps, Some(vec![0, 0, 0, 1, 0x68, 3]));
    assert_eq!(s.last_idr, Some(vec![0, 0, 1, 0x65, 4]));
    assert_eq!(s.nal_buffer, vec![0, 0, 1, 0x41, 5]);
    assert_eq!(s.sync_payloads(), vec!["AAAAAWcBAg==", "AAAAAWgD", "AAABZQQ="]);
}

#[test]
fn feeding_in_pieces_gives_the_same_units() {
    let data = [0u8, 0, 1, 0x67, 7, 0, 0, 0, 1, 0x68, 8, 0, 0, 1, 0x65, 9, 0, 0, 1];
    let mut whole = FrameStream::new();
    let all = whole.feed(&data);
    for cut in 0..data.len() {
        let mut parts = FrameStream::new();
        let mut got = parts.feed(&data[..cut]);
        got.extend(parts.feed(&data[cut..]));
        assert_eq!(got, all, "cut at {}", cut);
        assert_eq!(parts.nal_buffer, whole.nal_buffer);
    }
}

#[test]
fn sync_payloads_of_empty_stream() {
    assert!(FrameStream::new().sync_payloads().is_empty());
}

#[test]
fn touch_message_layout() {
    let m = touch_event_message(0, 0x01020304, 5, 1080, 70000);
    assert_eq!(m.len(), 32);
    assert_eq!(m[0], 2);
    assert_eq!(m[1], 0);
    assert_eq!(&m[2..10], &[0u8; 8]);
    assert_eq!(&m[10..14], &[1, 2, 3, 4]);
    assert_eq!(&m[14..18], &[0, 0, 0, 5]);
    assert_eq!(&m[18..20], &[0x04, 0x38]);
    // 70000 taken as a 16-bit value
    assert_eq!(&m[20..22], &(70000u32 as u16).to_be_bytes());
    assert_eq!(&m[22..24], &[0xFF, 0xFF]);
    assert_eq!(&m[24..32], &[0u8; 8]);
}

#[test]
fn scroll_message_layout() {
    let m = scroll_event_message(10, 20, -1, 2, 1080, 2340);
    assert_eq!(m.len(), 25);
    assert_eq!(m[0], 3);
    assert_eq!(&m[1..5], &10u32.to_be_bytes());
    assert_eq!(&m[5..9], &20u32.to_be_bytes());
    assert_eq!(&m[9..11], &1080u16.to_be_bytes());
    assert_eq!(&m[11..13], &2340u16.to_be_bytes());
    assert_eq!(&m[13..17], &(-1i32).to_be_bytes());
    assert_eq!(&m[17..21], &2i32.to_be_bytes());
    assert_eq!(&m[21..25], &[0u8; 4]);
}

#[test]
fn key_and_text_message_layout() {
    let k = key_event_message(1, 66, 0x1000);
    assert_eq!(k, vec![0, 1, 0, 0, 0, 66, 0, 0, 0, 0, 0, 0, 0x10, 0]);
    let t = text_event_message("hé");
    assert_eq!(t, vec![1, 0, 0, 0, 3, b'h', 0xC3, 0xA9]);
}

#[test]
fn session_commands() {
    assert_eq!(forward_args("d"), vec!["-s", "d", "forward", "tcp:27183", "localabstract:scrcpy_12345678"]);
    let (a, b) = stop_server("d");
    assert_eq!(a, vec!["-s", "d", "forward", "--remove-all"]);
    assert_eq!(b, vec!["-s", "d", "shell", "pkill", "-f", "scrcpy"]);
}

#[test]
fn connections_are_tried_a_fixed_number_of_times() {
    assert!(matches!(connect_step(SocketKind::Video, 1, true), ConnectStep::Connected));
    assert!(matches!(connect_step(SocketKind::Video, 9, false), ConnectStep::Retry));
    match connect_step(SocketKind::Video, 10, false) {
        ConnectStep::GiveUp(e) => {
            assert_eq!((e.code.as_str(), e.message.as_str()), ("SOCKET_ERROR", "Failed to connect video after 10 attempts"))
        }
        _ => panic!("expected to give up"),
    }
    assert!(matches!(connect_step(SocketKind::Control, 4, false), ConnectStep::Retry));
    match connect_step(SocketKind::Control, 5, false) {
        ConnectStep::GiveUp(e) => {
            assert_eq!((e.code.as_str(), e.message.as_str()), ("CONTROL_SOCKET_ERROR", "Failed to connect control socket"))
        }
        _ => panic!("expected to give up"),
    }
    let e = server_start_error("no adb");
    assert_eq!((e.code.as_str(), e.message.as_str()), ("SERVER_START_FAILED", "Failed to start: no adb"));
}

fn out(success: bool, stderr: &str) -> Result<CommandOutput, String> {
    Ok(CommandOutput { success, stdout: String::new(), stderr: stderr.to_string() })
}

fn failed_with(n: StartNext) -> (String, String) {
    match n {
        StartNext::Done(Err(e)) => (e.code, e.message),
        _ => panic!("expected a failed start"),
    }
}

#[test]
fn a_start_runs_its_steps_in_order() {
    assert!(matches!(start_step("d", StartEvent::Pushed(Some(out(true, "")))), StartNext::Forward));
    assert!(matches!(start_step("d", StartEvent::Forwarded(out(true, ""))), StartNext::Spawn));
    assert!(matches!(start_step("d", StartEvent::Spawned(Ok(()))), StartNext::ConnectVideo(1)));
    assert!(matches!(start_step("d", StartEvent::Video { attempt: 3, connected: false }), StartNext::ConnectVideo(4)));
    assert!(matches!(start_step("d", StartEvent::Video { attempt: 3, connected: true }), StartNext::ConnectControl(1)));
    assert!(matches!(start_step("d", StartEvent::Control { attempt: 2, connected: false }), StartNext::ConnectControl(3)));
    match start_step("d", StartEvent::Control { attempt: 2, connected: true }) {
        StartNext::Done(Ok(st)) => {
            assert!(st.running);
            assert_eq!(st.device_id.as_deref(), Some("d"));
            assert_eq!(st.port, Some(27183));
            assert!(st.codec_info.is_none());
        }
        _ => panic!("expected a started session"),
    }
}

#[test]
fn a_start_fails_with_the_step_that_failed() {
    assert_eq!(failed_with(start_step("d", StartEvent::Pushed(None))).0, "SERVER_NOT_FOUND");
    assert_eq!(
        failed_with(start_step("d", StartEvent::Pushed(Some(out(false, "no space"))))),
        ("PUSH_FAILED".to_string(), "Push failed: no space".to_string())
    );
    assert_eq!(
        failed_with(start_step("d", StartEvent::Forwarded(out(false, "")))),
        ("FORWARD_FAILED".to_string(), "Forward failed".to_string())
    );
    assert_eq!(
        failed_with(start_step("d", StartEvent::Spawned(Err("no adb".to_string())))),
        ("SERVER_START_FAILED".to_string(), "Failed to start: no adb".to_string())
    );
    assert_eq!(failed_with(start_step("d", StartEvent::Video { attempt: 10, connected: false })).0, "SOCKET_ERROR");
    assert_eq!(failed_with(start_step("d", StartEvent::Control { attempt: 5, connected: false })).0, "CONTROL_SOCKET_ERROR");
}
