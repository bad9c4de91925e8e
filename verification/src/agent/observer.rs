// Screen observation: screenshot results, the labelled grid drawn over a
// screenshot, and the test for a screen that has stopped changing.
use vstd::prelude::*;

use crate::adb::command_builder::{push_str_copy, strs};
use crate::encoding::{base64_standard, encode_base64};
use crate::error::AppError;
use crate::text::{decimal, push_char, u64_to_string};

verus! {

/// Raw output of a command whose standard output is binary.
pub struct BinaryOutput {
    pub success: bool,
    pub stdout: Vec<u8>,
    /// Standard error, decoded as UTF-8 (invalid sequences replaced).
    pub stderr: String,
}

/// `adb -s <device> exec-out screencap -p`, without the executable.
pub fn screencap_args(device_id: &str) -> (r: Vec<String>)
    ensures
        strs(r@) == seq!["-s"@, device_id@, "exec-out"@, "screencap"@, "-p"@],
{
    let mut v: Vec<String> = Vec::new();
    push_str_copy(&mut v, "-s");
    push_str_copy(&mut v, device_id);
    push_str_copy(&mut v, "exec-out");
    push_str_copy(&mut v, "screencap");
    push_str_copy(&mut v, "-p");
    v
}

/// What a screenshot attempt gives: the PNG bytes, or why there are none.
/// `run` is the command's output, or the text of the error that kept it from
/// running.
pub open spec fn capture_result(r: Result<Vec<u8>, AppError>, run: Result<BinaryOutput, String>) -> bool {
    match run {
        Err(e) => r matches Err(err) && err.is(
            "SCREEN_CAPTURE_FAILED"@,
            "Failed to capture screen: "@ + e@,
            None,
        ),
        Ok(o) => if !o.success {
            r matches Err(err) && err.is("SCREEN_CAPTURE_FAILED"@, "Screencap failed: "@ + o.stderr@, None)
        } else if o.stdout@.len() == 0 {
            r matches Err(err) && err.is("SCREEN_CAPTURE_FAILED"@, "Screencap returned empty data"@, None)
        } else {
            r matches Ok(bytes) && bytes@ == o.stdout@
        },
    }
}

fn concat(a: &str, b: &str) -> (r: String)
    ensures
        r@ == a@ + b@,
{
    let mut s = String::new();
    s.append(a);
    s.append(b);
    s
}

/// Interprets a `screencap` run.
pub fn capture_screen(run: Result<BinaryOutput, String>) -> (r: Result<Vec<u8>, AppError>)
    ensures
        capture_result(r, run),
{
    match run {
        Err(e) => {
            let m = concat("Failed to capture screen: ", e.as_str());
            Err(AppError::new("SCREEN_CAPTURE_FAILED", m.as_str()))
        },
        Ok(o) => {
            if !o.success {
                let m = concat("Screencap failed: ", o.stderr.as_str());
                Err(AppError::new("SCREEN_CAPTURE_FAILED", m.as_str()))
            } else if o.stdout.len() == 0 {
                Err(AppError::new("SCREEN_CAPTURE_FAILED", "Screencap returned empty data"))
            } else {
                Ok(o.stdout)
            }
        },
    }
}

/// The screenshot of a `screencap` run as base64 text.
pub fn capture_as_base64(run: Result<BinaryOutput, String>) -> (r: Result<String, AppError>)
    ensures
        match r {
            Ok(s) => exists|bytes: Vec<u8>| capture_result(Ok(bytes), run) && s@ == base64_standard(bytes@),
            Err(e) => capture_result(Err(e), run),
        },
{
    let c = capture_screen(run);
    match c {
        Ok(bytes) => {
            let s = encode_base64(bytes.as_slice());
            assert(capture_result(Ok(bytes), run));
            Ok(s)
        },
        Err(e) => Err(e),
    }
}

/// The picture sent to the model: the screenshot with its grid where the grid
/// could be drawn, else the plain screenshot, base64-encoded.
pub fn grid_payload(screenshot: &[u8], with_grid: Option<Vec<u8>>) -> (r: String)
    ensures
        r@ == base64_standard(
            match with_grid {
                Some(g) => g@,
                None => screenshot@,
            },
        ),
{
    match with_grid {
        Some(g) => encode_base64(g.as_slice()),
        None => encode_base64(screenshot),
    }
}

// ---------------------------------------------------------------------------
// The 10 x 10 grid
// ---------------------------------------------------------------------------

/// Column letters: 0 is `A`, 9 is `J` (the index is taken as a byte).
pub fn col_letter(col: u32) -> (r: char)
    requires
        col % 256 < 191,
    ensures
        r as int == 65 + col % 256,
{
    let b: u8 = (col % 256) as u8;
    (65u8 + b) as char
}

/// Where the grid lines of one axis lie: every multiple of a tenth of the
/// extent, from 0 to 10 tenths, that falls inside the picture.
pub open spec fn grid_positions_from(i: nat, cell: nat, extent: nat) -> Seq<nat>
    decreases 11 - i,
{
    if i > 10 {
        Seq::empty()
    } else if i * cell < extent {
        seq![i * cell] + grid_positions_from(i + 1, cell, extent)
    } else {
        grid_positions_from(i + 1, cell, extent)
    }
}

pub open spec fn grid_positions(extent: nat) -> Seq<nat> {
    grid_positions_from(0, extent / 10, extent)
}

/// The coordinates at which grid lines are drawn across a picture of this
/// extent (columns for the width, rows for the height).
pub fn grid_lines(extent: u32) -> (r: Vec<u32>)
    ensures
        r@.map_values(|x: u32| x as nat) == grid_positions(extent as nat),
{
    let cell = extent / 10;
    let mut out: Vec<u32> = Vec::new();
    let mut i: u32 = 0;
    while i <= 10
        invariant
            i <= 11,
            cell == extent / 10,
            grid_positions(extent as nat) == out@.map_values(|x: u32| x as nat) + grid_positions_from(
                i as nat,
                cell as nat,
                extent as nat,
            ),
        decreases 11 - i,
    {
        assert(i * cell <= 10 * cell) by (nonlinear_arith)
            requires
                i <= 10,
        ;
        let p = i * cell;
        let ghost before = out@;
        if p < extent {
            out.push(p);
            assert(out@.map_values(|x: u32| x as nat) =~= before.map_values(|x: u32| x as nat).push(
                p as nat,
            ));
            assert(out@.map_values(|x: u32| x as nat) + grid_positions_from(
                (i + 1) as nat,
                cell as nat,
                extent as nat,
            ) =~= before.map_values(|x: u32| x as nat) + grid_positions_from(
                i as nat,
                cell as nat,
                extent as nat,
            ));
        }
        i = i + 1;
    }
    assert(out@.map_values(|x: u32| x as nat) + grid_positions_from(11, cell as nat, extent as nat)
        =~= out@.map_values(|x: u32| x as nat));
    out
}

/// The label of a cell: its column letter (the index taken as a byte) and row
/// number, then the centre of the cell in percent of width and height, as in
/// `A1 5,5`.
pub open spec fn cell_label_text(col: nat, row: nat) -> Seq<char> {
    seq![(65 + col % 256) as char] + decimal(row + 1) + " "@ + decimal(col * 10 + 5) + ","@
        + decimal(row * 10 + 5)
}

/// The label of a cell; the letter and the 32-bit centre figures must not
/// overflow.
pub fn cell_label(col: u32, row: u32) -> (r: String)
    requires
        col % 256 < 191,
        col * 10 + 5 <= u32::MAX,
        row * 10 + 5 <= u32::MAX,
    ensures
        r@ == cell_label_text(col as nat, row as nat),
{
    let mut s = String::new();
    push_char(&mut s, col_letter(col));
    let a = u64_to_string(row as u64 + 1);
    s.append(a.as_str());
    s.append(" ");
    let b = u64_to_string(col as u64 * 10 + 5);
    s.append(b.as_str());
    s.append(",");
    let c = u64_to_string(row as u64 * 10 + 5);
    s.append(c.as_str());
    s
}

/// One cell label and the top-left corner it is painted at.
pub struct GridLabel {
    pub text: String,
    pub x: u32,
    pub y: u32,
}

/// The labels of all hundred cells, row by row, each 3 pixels inside the
/// top-left corner of its cell.
pub fn grid_labels(width: u32, height: u32) -> (r: Vec<GridLabel>)
    ensures
        r.len() == 100,
        forall|row: int, col: int|
            0 <= row < 10 && 0 <= col < 10 ==> {
                let l = #[trigger] r@[row * 10 + col];
                &&& l.text@ == cell_label_text(col as nat, row as nat)
                &&& l.x == col * (width / 10) + 3
                &&& l.y == row * (height / 10) + 3
            },
{
    let cw = width / 10;
    let ch = height / 10;
    let mut out: Vec<GridLabel> = Vec::new();
    let mut row: u32 = 0;
    while row < 10
        invariant
            row <= 10,
            cw == width / 10,
            ch == height / 10,
            out.len() == row * 10,
            forall|r: int, c: int|
                0 <= r < row && 0 <= c < 10 ==> {
                    let l = #[trigger] out@[r * 10 + c];
                    &&& l.text@ == cell_label_text(c as nat, r as nat)
                    &&& l.x == c * (width / 10) + 3
                    &&& l.y == r * (height / 10) + 3
                },
        decreases 10 - row,
    {
        let mut col: u32 = 0;
        while col < 10
            invariant
                row < 10,
                col <= 10,
                cw == width / 10,
                ch == height / 10,
                out.len() == row * 10 + col,
                forall|r: int, c: int|
                    (0 <= r < row && 0 <= c < 10) || (r == row && 0 <= c < col) ==> {
                        let l = #[trigger] out@[r * 10 + c];
                        &&& l.text@ == cell_label_text(c as nat, r as nat)
                        &&& l.x == c * (width / 10) + 3
                        &&& l.y == r * (height / 10) + 3
                    },
            decreases 10 - col,
        {
            assert(col * cw <= 9 * (width / 10) && 9 * (width / 10) + 3 <= u32::MAX) by (nonlinear_arith)
                requires
                    col < 10,
                    cw == width / 10,
            ;
            assert(row * ch <= 9 * (height / 10) && 9 * (height / 10) + 3 <= u32::MAX) by (nonlinear_arith)
                requires
                    row < 10,
                    ch == height / 10,
            ;
            let text = cell_label(col, row);
            out.push(GridLabel { text, x: col * cw + 3, y: row * ch + 3 });
            col = col + 1;
        }
        row = row + 1;
    }
    out
}

/// The 5 x 7 bitmap of a label character: seven rows, top first, bit 4 the
/// leftmost pixel. Letters `A`-`J`, digits and `,` have a glyph; anything else
/// (a space too) is blank.
pub open spec fn glyph(ch: char) -> Seq<u8> {
    if ch == 'A' {
        seq![0x0E, 0x11, 0x11, 0x1F, 0x11, 0x11, 0x11]
    } else if ch == 'B' {
        seq![0x1E, 0x11, 0x11, 0x1E, 0x11, 0x11, 0x1E]
    } else if ch == 'C' {
        seq![0x0E, 0x11, 0x10, 0x10, 0x10, 0x11, 0x0E]
    } else if ch == 'D' {
        seq![0x1E, 0x09, 0x09, 0x09, 0x09, 0x09, 0x1E]
    } else if ch == 'E' {
        seq![0x1F, 0x10, 0x10, 0x1E, 0x10, 0x10, 0x1F]
    } else if ch == 'F' {
        seq![0x1F, 0x10, 0x10, 0x1E, 0x10, 0x10, 0x10]
    } else if ch == 'G' {
        seq![0x0E, 0x11, 0x10, 0x13, 0x11, 0x11, 0x0F]
    } else if ch == 'H' {
        seq![0x11, 0x11, 0x11, 0x1F, 0x11, 0x11, 0x11]
    } else if ch == 'I' {
        seq![0x1F, 0x04, 0x04, 0x04, 0x04, 0x04, 0x1F]
    } else if ch == 'J' {
        seq![0x1F, 0x02, 0x02, 0x02, 0x02, 0x12, 0x0C]
    } else if ch == '0' {
        seq![0x0E, 0x11, 0x13, 0x15, 0x19, 0x11, 0x0E]
    } else if ch == '1' {
        seq![0x04, 0x0C, 0x04, 0x04, 0x04, 0x04, 0x0E]
    } else if ch == '2' {
        seq![0x0E, 0x11, 0x01, 0x02, 0x04, 0x08, 0x1F]
    } else if ch == '3' {
        seq![0x1F, 0x02, 0x04, 0x02, 0x01, 0x11, 0x0E]
    } else if ch == '4' {
        seq![0x02, 0x06, 0x0A, 0x12, 0x1F, 0x02, 0x02]
    } else if ch == '5' {
        seq![0x1F, 0x10, 0x1E, 0x01, 0x01, 0x11, 0x0E]
    } else if ch == '6' {
        seq![0x06, 0x08, 0x10, 0x1E, 0x11, 0x11, 0x0E]
    } else if ch == '7' {
        seq![0x1F, 0x01, 0x02, 0x04, 0x08, 0x08, 0x08]
    } else if ch == '8' {
        seq![0x0E, 0x11, 0x11, 0x0E, 0x11, 0x11, 0x0E]
    } else if ch == '9' {
        seq![0x0E, 0x11, 0x11, 0x0F, 0x01, 0x02, 0x0C]
    } else if ch == ',' {
        seq![0x00, 0x00, 0x00, 0x00, 0x04, 0x04, 0x08]
    } else {
        seq![0u8, 0, 0, 0, 0, 0, 0]
    }
}

pub fn char_glyph(ch: char) -> (r: [u8; 7])
    ensures
        r@ == glyph(ch),
{
    let g: [u8; 7] = match ch {
        'A' => [0x0E, 0x11, 0x11, 0x1F, 0x11, 0x11, 0x11],
        'B' => [0x1E, 0x11, 0x11, 0x1E, 0x11, 0x11, 0x1E],
        'C' => [0x0E, 0x11, 0x10, 0x10, 0x10, 0x11, 0x0E],
        'D' => [0x1E, 0x09, 0x09, 0x09, 0x09, 0x09, 0x1E],
        'E' => [0x1F, 0x10, 0x10, 0x1E, 0x10, 0x10, 0x1F],
        'F' => [0x1F, 0x10, 0x10, 0x1E, 0x10, 0x10, 0x10],
        'G' => [0x0E, 0x11, 0x10, 0x13, 0x11, 0x11, 0x0F],
        'H' => [0x11, 0x11, 0x11, 0x1F, 0x11, 0x11, 0x11],
        'I' => [0x1F, 0x04, 0x04, 0x04, 0x04, 0x04, 0x1F],
        'J' => [0x1F, 0x02, 0x02, 0x02, 0x02, 0x12, 0x0C],
        '0' => [0x0E, 0x11, 0x13, 0x15, 0x19, 0x11, 0x0E],
        '1' => [0x04, 0x0C, 0x04, 0x04, 0x04, 0x04, 0x0E],
        '2' => [0x0E, 0x11, 0x01, 0x02, 0x04, 0x08, 0x1F],
        '3' => [0x1F, 0x02, 0x04, 0x02, 0x01, 0x11, 0x0E],
        '4' => [0x02, 0x06, 0x0A, 0x12, 0x1F, 0x02, 0x02],
        '5' => [0x1F, 0x10, 0x1E, 0x01, 0x01, 0x11, 0x0E],
        '6' => [0x06, 0x08, 0x10, 0x1E, 0x11, 0x11, 0x0E],
        '7' => [0x1F, 0x01, 0x02, 0x04, 0x08, 0x08, 0x08],
        '8' => [0x0E, 0x11, 0x11, 0x0E, 0x11, 0x11, 0x0E],
        '9' => [0x0E, 0x11, 0x11, 0x0F, 0x01, 0x02, 0x0C],
        ',' => [0x00, 0x00, 0x00, 0x00, 0x04, 0x04, 0x08],
        _ => [0u8; 7],
    };
    assert(g@ =~= glyph(ch));
    g
}

/// Whether pixel column `col` (0 leftmost, up to 4) of a glyph row is set.
pub fn glyph_bit(bits: u8, col: u32) -> (r: bool)
    requires
        col <= 4,
    ensures
        r == (bits & (1u8 << ((4 - col) as u8)) != 0),
{
    let shift: u8 = (4 - col) as u8;
    bits & (1u8 << shift) != 0
}

// ---------------------------------------------------------------------------
// Stable screen detection
// ---------------------------------------------------------------------------

/// How many of the first `n` positions hold equal bytes in `a` and `b`.
pub open spec fn matching_prefix(a: Seq<u8>, b: Seq<u8>, n: int) -> nat
    decreases n,
{
    if n <= 0 {
        0
    } else {
        matching_prefix(a, b, n - 1) + if a[n - 1] == b[n - 1] {
            1nat
        } else {
            0nat
        }
    }
}

/// Two screenshots show the same screen: they have the same length and more
/// than 99% of their bytes are equal position by position (two empty ones are
/// the same).
pub open spec fn similar(a: Seq<u8>, b: Seq<u8>) -> bool {
    &&& a.len() == b.len()
    &&& (a.len() == 0 || 100 * matching_prefix(a, b, a.len() as int) > 99 * a.len())
}

proof fn lemma_matching_symmetric(a: Seq<u8>, b: Seq<u8>, n: int)
    ensures
        matching_prefix(a, b, n) == matching_prefix(b, a, n),
    decreases n,
{
    if n > 0 {
        lemma_matching_symmetric(a, b, n - 1);
    }
}

/// Screen similarity does not depend on which screenshot came first.
pub proof fn law_similarity_is_symmetric(a: Seq<u8>, b: Seq<u8>)
    ensures
        similar(a, b) == similar(b, a),
{
    lemma_matching_symmetric(a, b, a.len() as int);
}

/// A screenshot is always similar to itself.
pub proof fn law_screen_is_similar_to_itself(a: Seq<u8>)
    ensures
        similar(a, a),
{
    lemma_matching_all(a, a.len() as int);
}

proof fn lemma_matching_all(a: Seq<u8>, n: int)
    requires
        0 <= n <= a.len(),
    ensures
        matching_prefix(a, a, n) == n,
    decreases n,
{
    if n > 0 {
        lemma_matching_all(a, n - 1);
    }
}

pub fn frames_similar(a: &[u8], b: &[u8]) -> (r: bool)
    ensures
        r == similar(a@, b@),
{
    if a.len() != b.len() {
        return false;
    }
    if a.len() == 0 {
        return true;
    }
    let mut matching: usize = 0;
    let mut i: usize = 0;
    while i < a.len()
        invariant
            a.len() == b.len(),
            i <= a.len(),
            matching == matching_prefix(a@, b@, i as int),
            matching <= i,
        decreases a.len() - i,
    {
        if a[i] == b[i] {
            matching = matching + 1;
        }
        i = i + 1;
    }
    100 * (matching as u128) > 99 * (a.len() as u128)
}

/// A pixel painted at `(x, y)` when it lies on a `w` x `h` image: white, or
/// black for the outline.
pub open spec fn paint_at(x: int, y: int, w: int, h: int, white: bool) -> Seq<(u32, u32, bool)> {
    if 0 <= x < w && 0 <= y < h {
        seq![(x as u32, y as u32, white)]
    } else {
        Seq::empty()
    }
}

/// What a lit pixel of a label glyph at `(px, py)` paints, in order: the eight
/// neighbours in black (row above left to right, then left and right, then the
/// row below), then the pixel itself in white; each only where it lies on the
/// image.
pub open spec fn lit_pixel_paint(px: int, py: int, w: int, h: int) -> Seq<(u32, u32, bool)> {
    paint_at(px - 1, py - 1, w, h, false) + paint_at(px, py - 1, w, h, false) + paint_at(
        px + 1,
        py - 1,
        w,
        h,
        false,
    ) + paint_at(px - 1, py, w, h, false) + paint_at(px + 1, py, w, h, false) + paint_at(
        px - 1,
        py + 1,
        w,
        h,
        false,
    ) + paint_at(px, py + 1, w, h, false) + paint_at(px + 1, py + 1, w, h, false) + paint_at(
        px,
        py,
        w,
        h,
        true,
    )
}

fn push_paint(v: &mut Vec<(u32, u32, bool)>, x: i64, y: i64, w: u32, h: u32, white: bool)
    ensures
        final(v)@ == old(v)@ + paint_at(x as int, y as int, w as int, h as int, white),
{
    if 0 <= x && x < w as i64 && 0 <= y && y < h as i64 {
        v.push((x as u32, y as u32, white));
        assert(v@ =~= old(v)@ + paint_at(x as int, y as int, w as int, h as int, white));
    } else {
        assert(v@ =~= old(v)@ + paint_at(x as int, y as int, w as int, h as int, white));
    }
}

/// The pixels that a lit glyph pixel at `(px, py)` paints on a `w` x `h`
/// image: its outline in black, then itself in white, where on the image.
pub fn lit_pixel_paint_list(px: u32, py: u32, w: u32, h: u32) -> (r: Vec<(u32, u32, bool)>)
    ensures
        r@ == lit_pixel_paint(px as int, py as int, w as int, h as int),
{
    let x = px as i64;
    let y = py as i64;
    let mut v: Vec<(u32, u32, bool)> = Vec::new();
    push_paint(&mut v, x - 1, y - 1, w, h, false);
    push_paint(&mut v, x, y - 1, w, h, false);
    push_paint(&mut v, x + 1, y - 1, w, h, false);
    push_paint(&mut v, x - 1, y, w, h, false);
    push_paint(&mut v, x + 1, y, w, h, false);
    push_paint(&mut v, x - 1, y + 1, w, h, false);
    push_paint(&mut v, x, y + 1, w, h, false);
    push_paint(&mut v, x + 1, y + 1, w, h, false);
    push_paint(&mut v, x, y, w, h, true);
    assert(v@ =~= lit_pixel_paint(px as int, py as int, w as int, h as int));
    v
}

} // verus!
