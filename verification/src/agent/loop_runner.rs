// The agent loop's decisions: its status machine, when it stops, and what a
// finished run is recorded as. Running the loop (screenshots, model calls,
// input) happens outside the library.
use vstd::prelude::*;

use crate::error::AppError;
use crate::text::{chars_eq_str, chars_of, decimal, u64_to_string};

verus! {

/// Where the agent is in its observe-think-act cycle, or how it ended.
#[derive(Debug, Clone, Copy, PartialEq, Eq, Structural)]
pub enum AgentStatus {
    Idle,
    Observing,
    Thinking,
    Acting,
    Waiting,
    Won,
    GameOver,
    Error,
    Stopped,
}

/// What a run is configured with.
pub struct AgentConfig {
    pub device_id: String,
    pub api_key: String,
    pub model: String,
    pub max_steps: u32,
    pub delay_between_moves: u64,
    pub screen_width: u32,
    pub screen_height: u32,
    /// Base URL of an OpenAI-compatible endpoint, if not the default one.
    pub base_url: Option<String>,
    /// Folder of the notes vault the sessions are logged to, if any.
    pub vault_path: Option<String>,
    /// The game's display name, used in prompts.
    pub game_name: String,
    /// The game's package id, naming its vault folder.
    pub game_id: String,
}

/// The game state the model reported.
pub struct GameState {
    pub score: u32,
    pub status: String,
}

/// A run is in progress.
pub open spec fn active(s: AgentStatus) -> bool {
    s == AgentStatus::Observing || s == AgentStatus::Thinking || s == AgentStatus::Acting || s
        == AgentStatus::Waiting
}

/// A run has ended.
pub open spec fn ended(s: AgentStatus) -> bool {
    s == AgentStatus::Won || s == AgentStatus::GameOver || s == AgentStatus::Error || s
        == AgentStatus::Stopped
}

pub fn is_active(s: AgentStatus) -> (r: bool)
    ensures
        r == active(s),
{
    match s {
        AgentStatus::Observing | AgentStatus::Thinking | AgentStatus::Acting | AgentStatus::Waiting => true,
        _ => false,
    }
}

/// Starting a run: refused while one is in progress; otherwise the run starts
/// observing.
pub fn start_agent(current: AgentStatus) -> (r: Result<AgentStatus, AppError>)
    ensures
        active(current) ==> (r matches Err(e) && e.is(
            "AGENT_ALREADY_RUNNING"@,
            "Agent is already running. Stop it before starting a new session."@,
            None,
        )),
        !active(current) ==> r == Ok::<AgentStatus, AppError>(AgentStatus::Observing),
{
    if is_active(current) {
        Err(AppError::new(
            "AGENT_ALREADY_RUNNING",
            "Agent is already running. Stop it before starting a new session.",
        ))
    } else {
        Ok(AgentStatus::Observing)
    }
}

/// The loop takes another step unless a stop was asked for or the step limit
/// is reached.
pub fn should_continue(stop_requested: bool, step: u32, max_steps: u32) -> (r: bool)
    ensures
        r == (!stop_requested && step < max_steps),
{
    !stop_requested && step < max_steps
}

/// The folder key of a game in the vault: its package id, or its name when no
/// id is given.
pub fn vault_game_key(game_name: &str, game_id: &str) -> (r: String)
    ensures
        r@ == if game_id@.len() == 0 {
            game_name@
        } else {
            game_id@
        },
{
    if game_id.is_empty() {
        game_name.to_string()
    } else {
        game_id.to_string()
    }
}

/// After this many repeated steps the run stops.
pub const MAX_STUCK_STEPS: u32 = 15;

/// Whether a run stuck for `stuck_count` steps stops, and with which message.
pub fn stuck_stop(stuck_count: u32) -> (r: Option<String>)
    ensures
        stuck_count >= MAX_STUCK_STEPS ==> (r matches Some(m) && m@ == "Stopped: no progress after "@ + decimal(
            stuck_count as nat,
        ) + " consecutive steps. Try a different game or check touch coordinates."@),
        stuck_count < MAX_STUCK_STEPS ==> r is None,
{
    if stuck_count >= MAX_STUCK_STEPS {
        let mut m = String::new();
        m.append("Stopped: no progress after ");
        let n = u64_to_string(stuck_count as u64);
        m.append(n.as_str());
        m.append(" consecutive steps. Try a different game or check touch coordinates.");
        Some(m)
    } else {
        None
    }
}

/// The game status of a step: the screen analysis's state when the model gave
/// a non-empty one, else the status of its game state.
pub fn game_status_of(screen_state: Option<&str>, fallback: &str) -> (r: String)
    ensures
        r@ == match screen_state {
            Some(s) => if s@.len() > 0 {
                s@
            } else {
                fallback@
            },
            None => fallback@,
        },
{
    match screen_state {
        Some(s) => {
            if !s.is_empty() {
                s.to_string()
            } else {
                fallback.to_string()
            }
        },
        None => fallback.to_string(),
    }
}

/// The status a step leads to: a finished game ends the run.
pub open spec fn status_after_step(game_status: Seq<char>) -> Option<AgentStatus> {
    if game_status == "game_over"@ {
        Some(AgentStatus::GameOver)
    } else if game_status == "won"@ {
        Some(AgentStatus::Won)
    } else {
        None
    }
}

/// `Some` of the ending status when the game is over or won, else `None`
/// (the move is then executed).
pub fn terminal_status(game_status: &str) -> (r: Option<AgentStatus>)
    ensures
        r == status_after_step(game_status@),
{
    let g = chars_of(game_status);
    if chars_eq_str(&g, "game_over") {
        Some(AgentStatus::GameOver)
    } else if chars_eq_str(&g, "won") {
        Some(AgentStatus::Won)
    } else {
        None
    }
}

/// The status a run ends with: a win, a lost game and an error stay; anything
/// else becomes `Stopped`.
pub open spec fn final_status_of(s: AgentStatus) -> AgentStatus {
    if s == AgentStatus::Won || s == AgentStatus::GameOver || s == AgentStatus::Error {
        s
    } else {
        AgentStatus::Stopped
    }
}

pub fn final_status(s: AgentStatus) -> (r: AgentStatus)
    ensures
        r == final_status_of(s),
{
    match s {
        AgentStatus::Won | AgentStatus::GameOver | AgentStatus::Error => s,
        _ => AgentStatus::Stopped,
    }
}

/// How a finished run is recorded: `won`, `game_over` or `stopped`.
pub open spec fn result_text(s: AgentStatus) -> Seq<char> {
    if s == AgentStatus::Won {
        "won"@
    } else if s == AgentStatus::GameOver {
        "game_over"@
    } else {
        "stopped"@
    }
}

pub fn result_str(s: AgentStatus) -> (r: &'static str)
    ensures
        r@ == result_text(s),
{
    match s {
        AgentStatus::Won => "won",
        AgentStatus::GameOver => "game_over",
        _ => "stopped",
    }
}

/// Every run ends in one of the four end states, and ending it again changes
/// nothing.
pub proof fn law_final_status_is_an_end(s: AgentStatus)
    ensures
        ended(final_status_of(s)),
        final_status_of(final_status_of(s)) == final_status_of(s),
{
}

/// A run that has ended never blocks the next one: whatever state the last
/// run finished in, starting again is accepted.
pub proof fn law_ended_run_allows_start(s: AgentStatus)
    ensures
        !active(final_status_of(s)),
        ended(s) ==> !active(s),
{
}


// ---------------------------------------------------------------------------
// One iteration of the loop, as a state machine
// ---------------------------------------------------------------------------

/// The loop's own state: its status, the moves made, the limit, and the error
/// it stopped with.
pub struct LoopState {
    pub status: AgentStatus,
    pub step: u32,
    pub max_steps: u32,
    pub error_message: Option<String>,
}

/// What happened outside since the last decision. Each event carries whether a
/// stop was asked for when it was checked.
pub enum AgentEvent {
    /// The top of an iteration.
    Begin { stop_requested: bool },
    /// The screenshot was taken, or the reason it could not be.
    Captured { stop_requested: bool, screenshot: Result<(), AppError> },
    /// The screen was read and the repeated steps counted.
    Assessed { stop_requested: bool, stuck_count: u32 },
    /// The model answered with a game status, failed with an error, or timed
    /// out (`Err(None)`).
    Answered { stop_requested: bool, reply: Result<String, Option<AppError>> },
    /// The move was executed, or the reason it failed.
    Acted { result: Result<(), AppError> },
    /// The pause after the move is over.
    Waited { stop_requested: bool },
}

/// What the loop does next.
#[derive(Debug, Clone, Copy, PartialEq, Eq, Structural)]
pub enum AgentAction {
    /// Take a screenshot.
    Capture,
    /// Read the accessibility tree and count the repeated steps.
    Assess,
    /// Build the prompt and ask the model.
    CallModel,
    /// Log the step and execute the move.
    Act,
    /// Pause between moves.
    Wait,
    /// Wait for the screen to settle, then begin the next iteration.
    Settle,
    /// The run is over.
    Finish,
}

/// The state is consistent: the moves made never exceed the limit, and a run
/// that is thinking or acting still has a move left.
pub open spec fn loop_wf(s: LoopState) -> bool {
    &&& s.step <= s.max_steps
    &&& (s.status == AgentStatus::Thinking || s.status == AgentStatus::Acting) ==> s.step
        < s.max_steps
}

/// The event is the one the loop waits for in its status: a screenshot comes
/// only in an iteration that was begun, so with a move left.
pub open spec fn expects(s: LoopState, e: AgentEvent) -> bool {
    match e {
        AgentEvent::Begin { .. } => !ended(s.status),
        AgentEvent::Captured { .. } => s.status == AgentStatus::Observing && s.step < s.max_steps,
        AgentEvent::Assessed { .. } => s.status == AgentStatus::Thinking,
        AgentEvent::Answered { .. } => s.status == AgentStatus::Thinking,
        AgentEvent::Acted { .. } => s.status == AgentStatus::Acting,
        AgentEvent::Waited { .. } => s.status == AgentStatus::Waiting,
    }
}

/// The state after the decision: status, moves made, error.
pub type LoopView = (AgentStatus, nat, Option<Seq<char>>);

pub open spec fn loop_view(s: LoopState) -> LoopView {
    (s.status, s.step as nat, crate::error::opt_view(s.error_message))
}

/// Ending the run as it stands.
pub open spec fn finished(s: LoopState) -> (LoopView, AgentAction) {
    ((final_status_of(s.status), s.step as nat, crate::error::opt_view(s.error_message)), AgentAction::Finish)
}

/// Ending the run with an error.
pub open spec fn failed(s: LoopState, message: Seq<char>) -> (LoopView, AgentAction) {
    ((AgentStatus::Error, s.step as nat, Some(message)), AgentAction::Finish)
}

/// The decision on one event.
pub open spec fn next_step(s: LoopState, e: AgentEvent) -> (LoopView, AgentAction) {
    let v = loop_view(s);
    match e {
        AgentEvent::Begin { stop_requested } => if stop_requested || s.step >= s.max_steps {
            finished(s)
        } else {
            ((AgentStatus::Observing, v.1, v.2), AgentAction::Capture)
        },
        AgentEvent::Captured { stop_requested, screenshot } => match screenshot {
            Err(m) => failed(s, "Screenshot failed: "@ + m.display_view()),
            Ok(_) => if stop_requested {
                finished(s)
            } else {
                ((AgentStatus::Thinking, v.1, v.2), AgentAction::Assess)
            },
        },
        AgentEvent::Assessed { stop_requested, stuck_count } => if stuck_count >= MAX_STUCK_STEPS {
            (
                (
                    AgentStatus::Stopped,
                    v.1,
                    Some(
                        "Stopped: no progress after "@ + decimal(stuck_count as nat)
                            + " consecutive steps. Try a different game or check touch coordinates."@,
                    ),
                ),
                AgentAction::Finish,
            )
        } else if stop_requested {
            finished(s)
        } else {
            (v, AgentAction::CallModel)
        },
        AgentEvent::Answered { stop_requested, reply } => if stop_requested {
            finished(s)
        } else {
            match reply {
                Err(Some(m)) => failed(s, "API failed: "@ + m.display_view()),
                Err(None) => failed(s, "API request timed out after 30s"@),
                Ok(g) => match status_after_step(g@) {
                    Some(end) => ((end, v.1, v.2), AgentAction::Finish),
                    None => ((AgentStatus::Acting, v.1, v.2), AgentAction::Act),
                },
            }
        },
        AgentEvent::Acted { result } => match result {
            Err(m) => failed(s, "Action failed: "@ + m.display_view()),
            Ok(_) => ((AgentStatus::Waiting, v.1 + 1, v.2), AgentAction::Wait),
        },
        AgentEvent::Waited { stop_requested } => if stop_requested {
            finished(s)
        } else {
            (v, AgentAction::Settle)
        },
    }
}

/// Whether the loop can take `e` in state `s`: the state is consistent and the
/// event is the one it waits for.
pub fn accepts(s: &LoopState, e: &AgentEvent) -> (r: bool)
    ensures
        r == (loop_wf(*s) && expects(*s, *e)),
{
    let ended_now = match s.status {
        AgentStatus::Won | AgentStatus::GameOver | AgentStatus::Error | AgentStatus::Stopped => true,
        _ => false,
    };
    let busy = match s.status {
        AgentStatus::Thinking | AgentStatus::Acting => true,
        _ => false,
    };
    let wf = s.step <= s.max_steps && (!busy || s.step < s.max_steps);
    let expected = match e {
        AgentEvent::Begin { .. } => !ended_now,
        AgentEvent::Captured { .. } => s.status == AgentStatus::Observing && s.step < s.max_steps,
        AgentEvent::Assessed { .. } => s.status == AgentStatus::Thinking,
        AgentEvent::Answered { .. } => s.status == AgentStatus::Thinking,
        AgentEvent::Acted { .. } => s.status == AgentStatus::Acting,
        AgentEvent::Waited { .. } => s.status == AgentStatus::Waiting,
    };
    wf && expected
}

fn prefixed(prefix: &str, m: &str) -> (r: Option<String>)
    ensures
        r matches Some(t) && t@ == prefix@ + m@,
{
    let mut t = String::new();
    t.append(prefix);
    t.append(m);
    Some(t)
}

fn finish(s: LoopState) -> (r: (LoopState, AgentAction))
    ensures
        (loop_view(r.0), r.1) == finished(s),
        r.0.max_steps == s.max_steps,
{
    let status = final_status(s.status);
    (LoopState { status, step: s.step, max_steps: s.max_steps, error_message: s.error_message }, AgentAction::Finish)
}

fn fail(s: LoopState, message: Option<String>) -> (r: (LoopState, AgentAction))
    requires
        message is Some,
    ensures
        (loop_view(r.0), r.1) == failed(s, message->0@),
        r.0.max_steps == s.max_steps,
{
    (LoopState { status: AgentStatus::Error, step: s.step, max_steps: s.max_steps, error_message: message }, AgentAction::Finish)
}

/// Decides what the loop does after an event.
pub fn agent_step(s: LoopState, e: AgentEvent) -> (r: (LoopState, AgentAction))
    requires
        loop_wf(s),
        expects(s, e),
    ensures
        (loop_view(r.0), r.1) == next_step(s, e),
        r.0.max_steps == s.max_steps,
        loop_wf(r.0),
{
    match e {
        AgentEvent::Begin { stop_requested } => {
            if stop_requested || s.step >= s.max_steps {
                finish(s)
            } else {
                (LoopState { status: AgentStatus::Observing, ..s }, AgentAction::Capture)
            }
        },
        AgentEvent::Captured { stop_requested, screenshot } => match screenshot {
            Err(m) => fail(s, prefixed("Screenshot failed: ", m.to_string().as_str())),
            Ok(_) => {
                if stop_requested {
                    finish(s)
                } else {
                    (LoopState { status: AgentStatus::Thinking, ..s }, AgentAction::Assess)
                }
            },
        },
        AgentEvent::Assessed { stop_requested, stuck_count } => {
            match stuck_stop(stuck_count) {
                Some(message) => (
                    LoopState { status: AgentStatus::Stopped, step: s.step, max_steps: s.max_steps, error_message: Some(message) },
                    AgentAction::Finish,
                ),
                None => {
                    if stop_requested {
                        finish(s)
                    } else {
                        (s, AgentAction::CallModel)
                    }
                },
            }
        },
        AgentEvent::Answered { stop_requested, reply } => {
            if stop_requested {
                finish(s)
            } else {
                match reply {
                    Err(Some(m)) => fail(s, prefixed("API failed: ", m.to_string().as_str())),
                    Err(None) => fail(s, Some("API request timed out after 30s".to_string())),
                    Ok(g) => match terminal_status(g.as_str()) {
                        Some(end) => (LoopState { status: end, ..s }, AgentAction::Finish),
                        None => (LoopState { status: AgentStatus::Acting, ..s }, AgentAction::Act),
                    },
                }
            }
        },
        AgentEvent::Acted { result } => match result {
            Err(m) => fail(s, prefixed("Action failed: ", m.to_string().as_str())),
            Ok(_) => (
                LoopState { status: AgentStatus::Waiting, step: s.step + 1, max_steps: s.max_steps, error_message: s.error_message },
                AgentAction::Wait,
            ),
        },
        AgentEvent::Waited { stop_requested } => {
            if stop_requested {
                finish(s)
            } else {
                (s, AgentAction::Settle)
            }
        },
    }
}

/// A run never makes more moves than its limit, and each decision makes at
/// most one.
pub proof fn law_moves_stay_within_limit(s: LoopState, e: AgentEvent, r: LoopState)
    requires
        loop_wf(s),
        expects(s, e),
        loop_view(r) == next_step(s, e).0,
    ensures
        r.step <= s.max_steps,
        s.step <= r.step <= s.step + 1,
{
}

/// Once the loop says the run is over, the run has ended, in one of the four
/// end states, and nothing is left to do.
pub proof fn law_finish_ends_the_run(s: LoopState, e: AgentEvent)
    requires
        loop_wf(s),
        expects(s, e),
    ensures
        next_step(s, e).1 == AgentAction::Finish ==> ended(next_step(s, e).0.0),
        next_step(s, e).1 != AgentAction::Finish ==> active(next_step(s, e).0.0),
{
}

/// Whether an event carries a stop request.
pub open spec fn asks_to_stop(e: AgentEvent) -> bool {
    match e {
        AgentEvent::Begin { stop_requested } => stop_requested,
        AgentEvent::Captured { stop_requested, .. } => stop_requested,
        AgentEvent::Assessed { stop_requested, .. } => stop_requested,
        AgentEvent::Answered { stop_requested, .. } => stop_requested,
        AgentEvent::Waited { stop_requested } => stop_requested,
        AgentEvent::Acted { .. } => false,
    }
}

/// A stop request is obeyed at once: whatever the event and whatever the model
/// answered, the loop finishes, the run has ended, and no move is made. A stop
/// while waiting for the model's answer leaves the run `Stopped`.
pub proof fn law_stop_request_ends_the_run(s: LoopState, e: AgentEvent)
    requires
        loop_wf(s),
        expects(s, e),
        asks_to_stop(e),
    ensures
        next_step(s, e).1 == AgentAction::Finish,
        next_step(s, e).1 != AgentAction::Act,
        ended(next_step(s, e).0.0),
        next_step(s, e).0.1 == s.step,
        e is Answered ==> next_step(s, e).0.0 == AgentStatus::Stopped,
{
}

/// A move is executed only on the model's answer, when no stop was asked, the
/// model did not fail, and the game it reported is neither won nor over.
pub proof fn law_moves_follow_a_live_answer(s: LoopState, e: AgentEvent)
    requires
        loop_wf(s),
        expects(s, e),
        next_step(s, e).1 == AgentAction::Act,
    ensures
        e matches AgentEvent::Answered { stop_requested, reply } && !stop_requested && (reply matches Ok(
            g,
        ) && g@ != "won"@ && g@ != "game_over"@),
        next_step(s, e).0.0 == AgentStatus::Acting,
        next_step(s, e).0.1 == s.step,
{
}

} // verus!
