// Mapping agent actions to screen gestures.
use vstd::prelude::*;

use crate::adb::command_builder::strs;
use crate::adb::executor::CommandOutput;
use crate::command_utils::{error_with, outcome, run_outcome};
use crate::error::AppError;
use crate::text::{decimal, signed_decimal};

verus! {

/// Integer division rounding toward zero, as Rust's `/` does (positive divisor).
pub open spec fn div_trunc(a: int, b: int) -> int {
    if a >= 0 {
        a / b
    } else {
        -((-a) / b)
    }
}

/// The swipe gesture `(x1, y1, x2, y2)` for a `swipe_*` action on a screen of
/// width `w` and height `h`: from the center, half a third of the height each way.
pub open spec fn swipe_for(action: Seq<char>, w: u32, h: u32) -> Option<(i32, i32, i32, i32)> {
    let cx = div_trunc(w as i32 as int, 2);
    let cy = div_trunc(h as i32 as int, 2);
    let d = div_trunc(div_trunc(h as i32 as int, 3), 2);
    if action == "swipe_up"@ {
        Some((cx as i32, (cy + d) as i32, cx as i32, (cy - d) as i32))
    } else if action == "swipe_down"@ {
        Some((cx as i32, (cy - d) as i32, cx as i32, (cy + d) as i32))
    } else if action == "swipe_left"@ {
        Some(((cx + d) as i32, cy as i32, (cx - d) as i32, cy as i32))
    } else if action == "swipe_right"@ {
        Some(((cx - d) as i32, cy as i32, (cx + d) as i32, cy as i32))
    } else {
        None
    }
}

/// Maps an agent action string to swipe coordinates, `None` for anything but
/// the four `swipe_*` actions.
pub fn action_to_swipe(action: &str, screen_w: u32, screen_h: u32) -> (r: Option<(i32, i32, i32, i32)>)
    ensures
        r == swipe_for(action@, screen_w, screen_h),
{
    let w = screen_w as i32;
    let h = screen_h as i32;
    let cx = w / 2;
    let cy = h / 2;
    let dist = h / 3;
    let half = dist / 2;
    let a = crate::text::chars_of(action);
    if crate::text::chars_eq_str(&a, "swipe_up") {
        Some((cx, cy + half, cx, cy - half))
    } else if crate::text::chars_eq_str(&a, "swipe_down") {
        Some((cx, cy - half, cx, cy + half))
    } else if crate::text::chars_eq_str(&a, "swipe_left") {
        Some((cx + half, cy, cx - half, cy))
    } else if crate::text::chars_eq_str(&a, "swipe_right") {
        Some((cx - half, cy, cx + half, cy))
    } else {
        None
    }
}


/// Opposite swipes retrace each other: `swipe_down` runs `swipe_up` backwards,
/// and `swipe_right` runs `swipe_left` backwards, on every screen.
pub proof fn law_opposite_swipes_reverse(w: u32, h: u32)
    ensures
        swipe_for("swipe_up"@, w, h) matches Some(u) && swipe_for("swipe_down"@, w, h) == Some(
            (u.2, u.3, u.0, u.1),
        ),
        swipe_for("swipe_left"@, w, h) matches Some(l) && swipe_for("swipe_right"@, w, h) == Some(
            (l.2, l.3, l.0, l.1),
        ),
{
    reveal_strlit("swipe_up");
    reveal_strlit("swipe_down");
    reveal_strlit("swipe_left");
    reveal_strlit("swipe_right");
    assert("swipe_down"@ != "swipe_up"@ && "swipe_left"@ != "swipe_up"@ && "swipe_left"@
        != "swipe_down"@ && "swipe_right"@ != "swipe_up"@ && "swipe_right"@ != "swipe_down"@
        && "swipe_right"@ != "swipe_left"@) by {
        assert("swipe_down"@[6] != "swipe_up"@[6]);
        assert("swipe_left"@[6] != "swipe_up"@[6]);
        assert("swipe_left"@[6] != "swipe_down"@[6]);
        assert("swipe_right"@[6] != "swipe_up"@[6]);
        assert("swipe_right"@[6] != "swipe_down"@[6]);
        assert("swipe_right"@[6] != "swipe_left"@[6]);
    }
}

/// `adb -s <device> shell input tap <x> <y>` for a tap action, without the
/// executable.
pub fn tap_action_args(device_id: &str, x: i32, y: i32) -> (r: Vec<String>)
    ensures
        strs(r@) == seq![
            "-s"@,
            device_id@,
            "shell"@,
            "input"@,
            "tap"@,
            signed_decimal(x as int),
            signed_decimal(y as int),
        ],
{
    crate::commands::device_actions::input_tap_args(device_id, x, y)
}

/// The command of a swipe action (200 ms), or the error for an action that is
/// neither a tap nor one of the four swipes.
pub fn swipe_action_args(device_id: &str, action: &str, screen_w: u32, screen_h: u32) -> (r: Result<
    Vec<String>,
    AppError,
>)
    ensures
        match swipe_for(action@, screen_w, screen_h) {
            Some(g) => r matches Ok(v) && strs(v@) == seq![
                "-s"@,
                device_id@,
                "shell"@,
                "input"@,
                "swipe"@,
                signed_decimal(g.0 as int),
                signed_decimal(g.1 as int),
                signed_decimal(g.2 as int),
                signed_decimal(g.3 as int),
                decimal(200),
            ],
            None => r matches Err(e) && e.is("INVALID_ACTION"@, "Unknown action: "@ + action@, None),
        },
{
    match action_to_swipe(action, screen_w, screen_h) {
        Some((x1, y1, x2, y2)) => Ok(
            crate::commands::device_actions::input_swipe_args(device_id, x1, y1, x2, y2, 200),
        ),
        None => Err(error_with("INVALID_ACTION", "Unknown action: ", action)),
    }
}

/// The result of running a tap (`is_tap`) or swipe action.
pub fn action_result(is_tap: bool, run: Result<CommandOutput, String>) -> (r: Result<(), AppError>)
    ensures
        match r {
            Ok(_) => run matches Ok(o) && o.success,
            Err(e) => if is_tap {
                outcome(Err(e), run, "ACTION_EXECUTION_FAILED"@, "Failed to execute tap: "@, "Tap failed: "@)
            } else {
                outcome(
                    Err(e),
                    run,
                    "ACTION_EXECUTION_FAILED"@,
                    "Failed to execute swipe: "@,
                    "Swipe failed: "@,
                )
            },
        },
{
    let res = if is_tap {
        run_outcome(run, "ACTION_EXECUTION_FAILED", "Failed to execute tap: ", "Tap failed: ")
    } else {
        run_outcome(run, "ACTION_EXECUTION_FAILED", "Failed to execute swipe: ", "Swipe failed: ")
    };
    match res {
        Ok(_) => Ok(()),
        Err(e) => Err(e),
    }
}

} // verus!
