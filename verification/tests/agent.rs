use gamesense::error::AppError;
use gamesense::adb::executor::{DeviceInfo, DeviceStatus};
use gamesense::adb::tracker::{devices_changed, heartbeat_interval_secs, should_refresh};
use gamesense::agent::executor::{action_result, action_to_swipe, swipe_action_args};
use gamesense::agent::loop_runner::{
    accepts, agent_step, final_status, game_status_of, result_str, should_continue, start_agent, stuck_stop,
    terminal_status, vault_game_key, AgentAction, AgentEvent, AgentStatus, LoopState,
};

fn dev(id: &str, status: DeviceStatus) -> DeviceInfo {
    DeviceInfo { id: id.to_string(), status, model: None, product: None }
}

#[test]
fn opposite_swipes_retrace_each_other() {
    for (w, h) in [(1080u32, 2340u32), (720, 1280), (1, 1), (0, 7)] {
        let (a, b, c, d) = action_to_swipe("swipe_up", w, h).unwrap();
        assert_eq!(action_to_swipe("swipe_down", w, h), Some((c, d, a, b)));
        let (a, b, c, d) = action_to_swipe("swipe_left", w, h).unwrap();
        assert_eq!(action_to_swipe("swipe_right", w, h), Some((c, d, a, b)));
    }
}

#[test]
fn swipe_actions_become_commands() {
    let args = swipe_action_args("d", "swipe_up", 1080, 2340).unwrap();
    assert_eq!(args, vec!["-s", "d", "shell", "input", "swipe", "540", "1560", "540", "780", "200"]);
    let e = swipe_action_args("d", "jump", 1080, 2340).unwrap_err();
    assert_eq!((e.code.as_str(), e.message.as_str()), ("INVALID_ACTION", "Unknown action: jump"));
    let e = action_result(true, Err("x".to_string())).unwrap_err();
    assert_eq!(e.message, "Failed to execute tap: x");
}

#[test]
fn start_is_refused_only_while_running() {
    for s in [AgentStatus::Observing, AgentStatus::Thinking, AgentStatus::Acting, AgentStatus::Waiting] {
        let e = start_agent(s).unwrap_err();
        assert_eq!(e.code, "AGENT_ALREADY_RUNNING");
    }
    for s in [AgentStatus::Idle, AgentStatus::Won, AgentStatus::GameOver, AgentStatus::Error, AgentStatus::Stopped] {
        assert_eq!(start_agent(s).unwrap(), AgentStatus::Observing);
    }
}

#[test]
fn runs_end_in_an_end_state() {
    assert_eq!(final_status(AgentStatus::Won), AgentStatus::Won);
    assert_eq!(final_status(AgentStatus::Error), AgentStatus::Error);
    assert_eq!(final_status(AgentStatus::Thinking), AgentStatus::Stopped);
    assert_eq!(final_status(AgentStatus::Idle), AgentStatus::Stopped);
    assert_eq!(result_str(AgentStatus::GameOver), "game_over");
    assert_eq!(result_str(AgentStatus::Error), "stopped");
    assert!(start_agent(final_status(AgentStatus::Acting)).is_ok());
}

#[test]
fn loop_decisions() {
    assert!(should_continue(false, 3, 10));
    assert!(!should_continue(false, 10, 10));
    assert!(!should_continue(true, 0, 10));
    assert_eq!(vault_game_key("Game", ""), "Game");
    assert_eq!(vault_game_key("Game", "com.game"), "com.game");
    assert_eq!(stuck_stop(14), None);
    assert_eq!(
        stuck_stop(15).as_deref(),
        Some("Stopped: no progress after 15 consecutive steps. Try a different game or check touch coordinates.")
    );
    assert_eq!(game_status_of(Some("won"), "playing"), "won");
    assert_eq!(game_status_of(Some(""), "playing"), "playing");
    assert_eq!(game_status_of(None, "menu"), "menu");
    assert_eq!(terminal_status("game_over"), Some(AgentStatus::GameOver));
    assert_eq!(terminal_status("won"), Some(AgentStatus::Won));
    assert_eq!(terminal_status("playing"), None);
}

#[test]
fn tracker_decisions() {
    let a = vec![dev("x", DeviceStatus::Device)];
    let b = vec![dev("x", DeviceStatus::Unauthorized)];
    assert!(!devices_changed(&a, &vec![dev("x", DeviceStatus::Device)]));
    assert!(devices_changed(&a, &b));
    assert!(devices_changed(&a, &vec![]));
    assert_eq!(heartbeat_interval_secs(&a), 10);
    assert_eq!(heartbeat_interval_secs(&b), 2);
    assert_eq!(heartbeat_interval_secs(&vec![dev("y", DeviceStatus::Unknown("recovery".to_string()))]), 2);
    assert!(should_refresh("R5CT\tdevice", 500));
    assert!(!should_refresh("R5CT\tdevice", 499));
    assert!(!should_refresh("   ", 10_000));
}

fn state(status: AgentStatus, step: u32, max_steps: u32) -> LoopState {
    LoopState { status, step, max_steps, error_message: None }
}

#[test]
fn loop_runs_one_move_per_iteration() {
    let (s, a) = agent_step(state(AgentStatus::Observing, 0, 2), AgentEvent::Begin { stop_requested: false });
    assert_eq!((s.status, a), (AgentStatus::Observing, AgentAction::Capture));
    let (s, a) = agent_step(s, AgentEvent::Captured { stop_requested: false, screenshot: Ok(()) });
    assert_eq!((s.status, a), (AgentStatus::Thinking, AgentAction::Assess));
    let (s, a) = agent_step(s, AgentEvent::Assessed { stop_requested: false, stuck_count: 3 });
    assert_eq!((s.status, a), (AgentStatus::Thinking, AgentAction::CallModel));
    let (s, a) = agent_step(s, AgentEvent::Answered { stop_requested: false, reply: Ok("playing".to_string()) });
    assert_eq!((s.status, a), (AgentStatus::Acting, AgentAction::Act));
    let (s, a) = agent_step(s, AgentEvent::Acted { result: Ok(()) });
    assert_eq!((s.status, s.step, a), (AgentStatus::Waiting, 1, AgentAction::Wait));
    let (s, a) = agent_step(s, AgentEvent::Waited { stop_requested: false });
    assert_eq!((s.status, a), (AgentStatus::Waiting, AgentAction::Settle));
    assert_eq!(s.step, 1);
}

#[test]
fn loop_stops_at_the_move_limit() {
    let (s, a) = agent_step(state(AgentStatus::Waiting, 2, 2), AgentEvent::Begin { stop_requested: false });
    assert_eq!((s.status, s.step, a), (AgentStatus::Stopped, 2, AgentAction::Finish));
    assert!(s.error_message.is_none());
}

#[test]
fn loop_ends_on_stop_requests_and_failures() {
    let (s, a) = agent_step(state(AgentStatus::Waiting, 1, 5), AgentEvent::Begin { stop_requested: true });
    assert_eq!((s.status, a), (AgentStatus::Stopped, AgentAction::Finish));

    let (s, a) = agent_step(
        state(AgentStatus::Observing, 1, 5),
        AgentEvent::Captured { stop_requested: false, screenshot: Err(AppError::new("ADB_ERROR", "no device")) },
    );
    assert_eq!((s.status, a), (AgentStatus::Error, AgentAction::Finish));
    assert_eq!(s.error_message.as_deref(), Some("Screenshot failed: [ADB_ERROR] no device"));

    let (s, _) = agent_step(
        state(AgentStatus::Thinking, 1, 5),
        AgentEvent::Answered { stop_requested: false, reply: Err(None) },
    );
    assert_eq!(s.error_message.as_deref(), Some("API request timed out after 30s"));

    let (s, _) = agent_step(
        state(AgentStatus::Thinking, 1, 5),
        AgentEvent::Answered { stop_requested: false, reply: Err(Some(AppError::new("OPENAI_API_ERROR", "boom"))) },
    );
    assert_eq!((s.status, s.error_message.as_deref()), (AgentStatus::Error, Some("API failed: [OPENAI_API_ERROR] boom")));

    let (s, _) = agent_step(state(AgentStatus::Acting, 1, 5), AgentEvent::Acted { result: Err(AppError::new("INVALID_ACTION", "tap")) });
    assert_eq!((s.status, s.step, s.error_message.as_deref()), (AgentStatus::Error, 1, Some("Action failed: [INVALID_ACTION] tap")));
}

#[test]
fn loop_ends_when_the_game_does() {
    let (s, a) = agent_step(
        state(AgentStatus::Thinking, 3, 5),
        AgentEvent::Answered { stop_requested: false, reply: Ok("won".to_string()) },
    );
    assert_eq!((s.status, a), (AgentStatus::Won, AgentAction::Finish));
    let (s, _) = agent_step(
        state(AgentStatus::Thinking, 3, 5),
        AgentEvent::Answered { stop_requested: false, reply: Ok("game_over".to_string()) },
    );
    assert_eq!(s.status, AgentStatus::GameOver);
    let (s, a) = agent_step(state(AgentStatus::Thinking, 3, 5), AgentEvent::Assessed { stop_requested: false, stuck_count: 15 });
    assert_eq!((s.status, a), (AgentStatus::Stopped, AgentAction::Finish));
    assert_eq!(
        s.error_message.as_deref(),
        Some("Stopped: no progress after 15 consecutive steps. Try a different game or check touch coordinates.")
    );
}

#[test]
fn loop_accepts_only_the_awaited_event() {
    let start = state(AgentStatus::Observing, 0, 0);
    assert!(accepts(&start, &AgentEvent::Begin { stop_requested: false }));
    assert!(!accepts(&start, &AgentEvent::Captured { stop_requested: false, screenshot: Ok(()) }));
    let (s, a) = agent_step(start, AgentEvent::Begin { stop_requested: false });
    assert_eq!((s.status, a), (AgentStatus::Stopped, AgentAction::Finish));
    assert!(!accepts(&s, &AgentEvent::Begin { stop_requested: false }));
    assert!(!accepts(&state(AgentStatus::Acting, 3, 3), &AgentEvent::Acted { result: Ok(()) }));
    assert!(accepts(&state(AgentStatus::Acting, 2, 3), &AgentEvent::Acted { result: Ok(()) }));
    assert!(!accepts(&state(AgentStatus::Waiting, 2, 3), &AgentEvent::Acted { result: Ok(()) }));
}
