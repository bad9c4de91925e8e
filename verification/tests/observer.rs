use gamesense::agent::observer::{col_letter, frames_similar, lit_pixel_paint_list};

#[test]
fn col_letter_a_through_j() {
    assert_eq!(col_letter(0), 'A');
    assert_eq!(col_letter(9), 'J');
}

#[test]
fn identical_frames_are_similar() {
    let a = vec![1, 2, 3, 4, 5];
    assert!(frames_similar(&a, &a));
}

#[test]
fn different_length_frames_not_similar() {
    let a = vec![1, 2, 3];
    let b = vec![1, 2, 3, 4];
    assert!(!frames_similar(&a, &b));
}

#[test]
fn slightly_different_frames_are_similar() {
    let a: Vec<u8> = (0..1000).map(|i| (i % 256) as u8).collect();
    let mut b = a.clone();
    // Change 5 bytes out of 1000 (0.5% difference < 1% threshold)
    b[0] = 255;
    b[100] = 255;
    b[200] = 255;
    b[300] = 255;
    b[400] = 255;
    assert!(frames_similar(&a, &b));
}

#[test]
fn very_different_frames_not_similar() {
    let a = vec![0u8; 100];
    let b = vec![255u8; 100];
    assert!(!frames_similar(&a, &b));
}

#[test]
fn empty_frames_are_similar() {
    assert!(frames_similar(&[], &[]));
}

use gamesense::agent::observer::{
    capture_as_base64, capture_screen, cell_label, char_glyph, glyph_bit, grid_labels, grid_lines,
    grid_payload, screencap_args, BinaryOutput,
};

fn out(success: bool, stdout: &[u8], stderr: &str) -> Result<BinaryOutput, String> {
    Ok(BinaryOutput { success, stdout: stdout.to_vec(), stderr: stderr.to_string() })
}

#[test]
fn capture_reports_each_failure() {
    let e = capture_screen(Err("no adb".to_string())).unwrap_err();
    assert_eq!(e.code, "SCREEN_CAPTURE_FAILED");
    assert_eq!(e.message, "Failed to capture screen: no adb");
    let e = capture_screen(out(false, b"", "boom")).unwrap_err();
    assert_eq!(e.message, "Screencap failed: boom");
    let e = capture_screen(out(true, b"", "")).unwrap_err();
    assert_eq!(e.message, "Screencap returned empty data");
    assert_eq!(capture_screen(out(true, b"png", "")).unwrap(), b"png".to_vec());
    assert_eq!(screencap_args("d"), vec!["-s", "d", "exec-out", "screencap", "-p"]);
}

#[test]
fn screenshots_are_sent_as_standard_base64() {
    assert_eq!(capture_as_base64(out(true, b"abc", "")).unwrap(), "YWJj");
    assert_eq!(grid_payload(b"abc", None), "YWJj");
    assert_eq!(grid_payload(b"abc", Some(b"ab".to_vec())), "YWI=");
    assert_eq!(grid_payload(b"a", None), "YQ==");
    assert_eq!(grid_payload(b"", None), "");
    assert_eq!(grid_payload(&[0xFB, 0xFF], None), "+/8=");
}

#[test]
fn grid_lines_every_tenth_inside_the_picture() {
    assert_eq!(grid_lines(1080), vec![0, 108, 216, 324, 432, 540, 648, 756, 864, 972]);
    assert_eq!(grid_lines(1085), vec![0, 108, 216, 324, 432, 540, 648, 756, 864, 972, 1080]);
    assert_eq!(grid_lines(5), vec![0; 11]);
    assert!(grid_lines(0).is_empty());
}

#[test]
fn grid_labels_name_cells_and_centres() {
    assert_eq!(cell_label(0, 0), "A1 5,5");
    assert_eq!(cell_label(9, 9), "J10 95,95");
    assert_eq!(cell_label(5, 6), "F7 55,65");
    assert_eq!(cell_label(12, 20), "M21 125,205");
    let labels = grid_labels(1080, 2340);
    assert_eq!(labels.len(), 100);
    assert_eq!(labels[0].text, "A1 5,5");
    assert_eq!((labels[0].x, labels[0].y), (3, 3));
    assert_eq!(labels[23].text, "D3 35,25");
    assert_eq!((labels[23].x, labels[23].y), (3 * 108 + 3, 2 * 234 + 3));
}

#[test]
fn glyphs_and_their_bits() {
    assert_eq!(char_glyph('A'), [0x0E, 0x11, 0x11, 0x1F, 0x11, 0x11, 0x11]);
    assert_eq!(char_glyph(' '), [0; 7]);
    assert_eq!(char_glyph('z'), [0; 7]);
    assert!(glyph_bit(0x10, 0));
    assert!(!glyph_bit(0x10, 1));
    assert!(glyph_bit(0x01, 4));
}

#[test]
fn similarity_threshold_is_strictly_above_ninety_nine_percent() {
    let a = vec![0u8; 100];
    let mut b = a.clone();
    b[0] = 1;
    // 99 of 100 equal: exactly 99%, not similar
    assert!(!frames_similar(&a, &b));
    let a2 = vec![0u8; 1000];
    let mut b2 = a2.clone();
    for i in 0..9 {
        b2[i] = 1;
    }
    assert!(frames_similar(&a2, &b2));
}

#[test]
fn a_lit_glyph_pixel_paints_its_outline_then_itself() {
    let inside = lit_pixel_paint_list(5, 5, 100, 100);
    assert_eq!(inside.len(), 9);
    assert_eq!(inside[0], (4, 4, false));
    assert_eq!(inside[4], (6, 5, false));
    assert_eq!(inside[8], (5, 5, true));
    let corner = lit_pixel_paint_list(0, 0, 100, 100);
    assert_eq!(corner, vec![(1, 0, false), (0, 1, false), (1, 1, false), (0, 0, true)]);
    let edge = lit_pixel_paint_list(10, 10, 10, 10);
    assert_eq!(edge, vec![(9, 9, false)]);
}
