use gamesense::agent::prompts::{build_game_prompt, stuck_run};


#[test]
fn prompt_contains_json_format() {
    let prompt = build_game_prompt("TestGame", &[], "", 0, None);
    assert!(prompt.contains("reasoning"));
    assert!(prompt.contains("action"));
    assert!(prompt.contains("swipe_up"));
    assert!(prompt.contains("tap:X%:Y%"));
    assert!(prompt.contains("screen_analysis"));
}

#[test]
fn prompt_mentions_tap_rules() {
    let prompt = build_game_prompt("TestGame", &[], "", 0, None);
    assert!(prompt.contains("Tap to ..."));
    assert!(prompt.contains("TUTORIAL FIRST"));
}

#[test]
fn prompt_contains_game_name() {
    let prompt = build_game_prompt("Subway Surfers", &[], "", 0, None);
    assert!(prompt.contains("Subway Surfers"));
    assert!(!prompt.contains("2048"));
}

#[test]
fn prompt_includes_tap_moves_separately() {
    let moves = vec!["tap:50%:50%".to_string(), "swipe_left".to_string()];
    let prompt = build_game_prompt("TestGame", &moves, "", 0, None);
    assert!(prompt.contains("TAP POSITIONS ALREADY TRIED"));
    assert!(prompt.contains("tap:50%:50%"));
    assert!(prompt.contains("OTHER RECENT MOVES"));
    assert!(prompt.contains("swipe_left"));
}

#[test]
fn prompt_without_moves_has_no_history() {
    let prompt = build_game_prompt("TestGame", &[], "", 0, None);
    assert!(!prompt.contains("TAP POSITIONS ALREADY TRIED"));
    assert!(!prompt.contains("OTHER RECENT MOVES"));
}

#[test]
fn prompt_includes_strategies_when_provided() {
    let strats = "- Prefer keeping 512 in bottom-left corner";
    let prompt = build_game_prompt("TestGame", &[], strats, 0, None);
    assert!(prompt.contains("LEARNED STRATEGIES"));
    assert!(prompt.contains("512"));
}

#[test]
fn prompt_omits_strategies_section_when_empty() {
    let prompt = build_game_prompt("TestGame", &[], "", 0, None);
    assert!(!prompt.contains("LEARNED STRATEGIES"));
}

#[test]
fn prompt_shows_stuck_warning_when_stuck() {
    let prompt = build_game_prompt("TestGame", &[], "", 3, None);
    assert!(prompt.contains("STUCK ALERT"));
    assert!(prompt.contains("3 actions"));
}

#[test]
fn prompt_no_stuck_warning_when_not_stuck() {
    let prompt = build_game_prompt("TestGame", &[], "", 1, None);
    assert!(!prompt.contains("STUCK ALERT"));
}







#[test]
fn prompt_includes_grid_reference() {
    let prompt = build_game_prompt("TestGame", &[], "", 0, None);
    assert!(prompt.contains("GRID REFERENCE"));
    assert!(prompt.contains("tap coordinates"));
    assert!(prompt.contains("10×10"));
}

#[test]
fn prompt_includes_ui_elements_when_provided() {
    let ui = "\"Start\" at 50%:80% (android.widget.Button)";
    let prompt = build_game_prompt("TestGame", &[], "", 0, Some(ui));
    assert!(prompt.contains("ACCESSIBILITY TREE"));
    assert!(prompt.contains("Start"));
    assert!(prompt.contains("50%:80%"));
}

#[test]
fn prompt_omits_ui_elements_section_when_none() {
    let prompt = build_game_prompt("TestGame", &[], "", 0, None);
    assert!(!prompt.contains("ACCESSIBILITY TREE"));
}

#[test]
fn stuck_run_counts_the_latest_similar_steps() {
    assert_eq!(stuck_run(&vec![]), 0);
    assert_eq!(stuck_run(&vec![true]), 0);
    assert_eq!(stuck_run(&vec![false, true]), 0);
    assert_eq!(stuck_run(&vec![true, true]), 2);
    assert_eq!(stuck_run(&vec![true, false, true, true, true]), 3);
    assert_eq!(stuck_run(&vec![true; 7]), 7);
}
