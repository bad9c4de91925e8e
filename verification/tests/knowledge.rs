use gamesense::agent::knowledge::{
    build_index_content, build_summarize_prompt, finalize_content, format_lesson_entry, game_tag,
    has_research_marker, initial_research_content, lesson_content, new_strategies_content,
    session_content, session_file_name, step_block, strategies_path, summary_block,
    count_markdown, lesson_to_record, updated_strategies, SessionSummary,
};

fn summary(result: &str, score: u32) -> SessionSummary {
    SessionSummary {
        result: result.to_string(),
        score,
        max_tile: 128,
        steps: 10,
        duration_seconds: 30,
        model: "m".to_string(),
    }
}

#[test]
fn build_summarize_prompt_includes_moves_and_result() {
    let moves = vec!["  Step 1: swipe_left (confidence 0.80) — merge".to_string()];
    let s = SessionSummary {
        result: "game_over".to_string(),
        score: 512,
        max_tile: 128,
        steps: 10,
        duration_seconds: 30,
        model: "m".to_string(),
    };
    let prompt = build_summarize_prompt(&s, &moves, "");
    assert!(prompt.contains("game_over"));
    assert!(prompt.contains("swipe_left"));
    assert!(prompt.contains("merge"));
}

#[test]
fn summarize_prompt_quotes_existing_strategies_only_when_present() {
    let s = summary("won", 2048);
    let without = build_summarize_prompt(&s, &vec![], "");
    assert!(!without.contains("Current knowledge base"));
    let with = build_summarize_prompt(&s, &vec!["a".to_string(), "b".to_string()], "- keep corners");
    assert!(with.contains("Current knowledge base (do not repeat existing rules, only add new insights):\n- keep corners\n"));
    assert!(with.contains("Last moves:\na\nb\n"));
    assert!(with.contains("Session result: won | Score: 2048 | Steps: 10 | Max tile: 128"));
}

#[test]
fn tag_lowercases_and_dashes_the_game_name() {
    assert_eq!(game_tag("Subway Surfers"), "gamesense/subway-surfers");
    assert_eq!(game_tag("2048"), "gamesense/2048");
}

#[test]
fn session_note_has_placeholders_and_step_log() {
    let c = session_content("2048", "2026-04-13", "2026-04-13 10:00", 1, "test-model");
    assert!(c.contains("gamesense/2048"));
    assert!(c.contains("result: pending"));
    assert!(c.contains("model: test-model"));
    assert!(c.contains("## Step Log"));
    assert!(c.starts_with("---\ntags:\n  - gamesense/2048\ngame: 2048\ndate: 2026-04-13\nrun: 1\n"));
    assert!(c.contains("# 2048 Session — 2026-04-13 10:00 (Run #1)"));
}

#[test]
fn session_file_name_pads_the_run_number() {
    assert_eq!(session_file_name("2026-04-13_10-00", 1), "2026-04-13_10-00_run-001.md");
    assert_eq!(session_file_name("s", 42), "s_run-042.md");
    assert_eq!(session_file_name("s", 1234), "s_run-1234.md");
}

#[test]
fn step_block_marks_the_final_move() {
    let b = step_block(1, false, "swipe_left", "0.90", 0, "Merge tiles left");
    assert_eq!(
        b,
        "### Step 1\n**Action:** `swipe_left` | **Confidence:** 0.90 | **Score:** 0\n\n> [!tip] Reasoning\n> Merge tiles left\n\n---\n\n"
    );
    let f = step_block(7, true, "tap:5%:5%", "1.00", 64, "a\nb");
    assert!(f.starts_with("### Step 7 ⚠️ Final Move\n"));
    assert!(f.contains("> [!danger] Reasoning\n> a\n> b\n"));
}

#[test]
fn finalize_fills_front_matter_and_summary() {
    let c = session_content("2048", "d", "dt", 1, "m");
    let s = SessionSummary {
        result: "game_over".to_string(),
        score: 1024,
        max_tile: 256,
        steps: 42,
        duration_seconds: 120,
        model: "m".to_string(),
    };
    let f = finalize_content(&c, &s);
    assert!(f.contains("result: game_over"));
    assert!(f.contains("score: 1024"));
    assert!(f.contains("max_tile: 256"));
    assert!(f.contains("steps: 42"));
    assert!(f.contains("duration_seconds: 120"));
    assert!(f.contains("## Summary\n**Result:** Game Over 💀 | **Score:** 1024 | **Max tile:** 256 | **Steps:** 42 | **Duration:** 2m 0s"));
    assert_eq!(
        summary_block(&s),
        "## Session Complete\n\n**Result:** Game Over 💀 | **Score:** 1024 | **Max tile:** 256 | **Steps:** 42 | **Duration:** 2m 0s\n\n"
    );
}

#[test]
fn lesson_fills_the_callout() {
    let c = session_content("2048", "d", "dt", 1, "m");
    let l = lesson_content(&c, "  First line.\nSecond line.  ");
    assert!(l.contains("> [!abstract] Session Lesson\n> First line.\n> Second line.\n"));
    assert!(!l.contains("filled in by LLM"));
}

#[test]
fn lesson_entry_names_run_score_and_result() {
    assert_eq!(
        format_lesson_entry(&summary("won", 4096), " Keep tiles in corner. ", 3, "2026-04-13"),
        "### 2026-04-13 Run #3 (Score: 4096 🏆)\nKeep tiles in corner.\n"
    );
    assert!(format_lesson_entry(&summary("game_over", 1), "x", 1, "d").contains("💀"));
    assert!(format_lesson_entry(&summary("stopped", 1), "x", 1, "d").contains("⏹️"));
}

#[test]
fn new_strategies_note_holds_the_first_lesson() {
    let entry = format_lesson_entry(&summary("game_over", 512), "Keep tiles in corner.", 1, "2026-04-13");
    let n = new_strategies_content("2048", "2026-04-13", 512, &entry);
    assert!(n.contains("2048 Knowledge Base"));
    assert!(n.contains("Keep tiles in corner."));
    assert!(n.contains("Session Lessons"));
    assert!(n.contains("sessions_analyzed: 1\nlast_updated: 2026-04-13\nbest_score: 512\n"));
    let t = new_strategies_content("Tetris", "d", 200, "e");
    assert!(t.contains("Tetris Knowledge Base"));
    assert!(t.contains("gamesense/tetris"));
}

#[test]
fn updating_strategies_counts_sessions_and_keeps_the_best_score() {
    let note = "---\ntags:\n  - gamesense/2048\ngame: 2048\nsessions_analyzed: 4\nlast_updated: 2026-01-01\nbest_score: 500\n---\n";
    let higher = updated_strategies(note, 900, "2026-04-13");
    assert!(higher.contains("sessions_analyzed: 5\n"));
    assert!(higher.contains("best_score: 900\n"));
    let lower = updated_strategies(note, 100, "2026-04-13");
    assert!(lower.contains("sessions_analyzed: 5\n"));
    assert!(lower.contains("best_score: 500\n"));
    assert!(lower.contains("last_updated: 2026-04-13\n"));
    assert!(!lower.contains("2026-01-01"));
    let undated = "sessions_analyzed: 1\nbest_score: 0\n";
    assert_eq!(updated_strategies(undated, 0, "d"), "sessions_analyzed: 2\nbest_score: 0\n");
    let bare = "no front matter\n";
    assert_eq!(updated_strategies(bare, 10, "d"), bare);
}

#[test]
fn research_note_and_marker() {
    let r = initial_research_content("Snake", "  Eat apples.  ", "2026-04-13");
    assert!(r.contains("pre_game_research: true\nresearched_on: 2026-04-13\n"));
    assert!(r.contains("## Game Mechanics\n\nEat apples.\n\n---"));
    assert!(has_research_marker(&r));
    assert!(!has_research_marker("# Snake Knowledge Base\n"));
}

#[test]
fn index_names_the_game_folder_and_tag() {
    let c = build_index_content("Snake", "gamesense/snake");
    assert!(c.contains("GameSense/Snake/sessions"));
    assert!(c.contains("gamesense/snake"));
    assert!(c.contains("All Sessions"));
}

#[test]
fn strategies_path_is_under_the_game_folder() {
    let p = strategies_path("/vault", "2048");
    let expected = std::path::Path::new("/vault").join("GameSense").join("2048").join("strategies.md");
    assert_eq!(p, expected.to_string_lossy());
}

#[test]
fn blank_or_missing_lessons_are_not_recorded() {
    assert_eq!(lesson_to_record(None), None);
    assert_eq!(lesson_to_record(Some("  \n ".to_string())), None);
    assert_eq!(lesson_to_record(Some(String::new())), None);
    assert_eq!(lesson_to_record(Some(" Merge left.\n".to_string())).as_deref(), Some(" Merge left.\n"));
}

#[test]
fn session_notes_are_counted_by_extension() {
    let exts = vec![Some("md".to_string()), None, Some("MD".to_string()), Some("md".to_string()), Some("txt".to_string())];
    assert_eq!(count_markdown(&exts), 2);
    assert_eq!(count_markdown(&vec![]), 0);
}
