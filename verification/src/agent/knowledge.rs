// The session notes kept in a notes vault: what each note says, how it is
// updated when a run ends, and where it lives. Reading and writing the files
// happens outside the library.
use vstd::prelude::*;


use crate::text::{chars_eq_str, chars_of, contains, lemma_contains_middle, contains_str, decimal, dv, first_line_where, first_where, lines, lowercase, parse_uint, parse_unsigned, replace_char, replace_char_chars, replace_first, replace_first_chars, split_str, split_str_chars, starts_with_test, string_of, text_lines, to_lowercase, trim, trimmed, trimmed_chars, u64_to_string, LineTest};

verus! {

/// The tag of a game's notes: `gamesense/` and the lowercased name with
/// spaces turned into dashes.
pub open spec fn game_tag_text(game: Seq<char>) -> Seq<char> {
    "gamesense/"@ + replace_char(lowercase(game), ' ', "-"@)
}

pub fn game_tag(game: &str) -> (r: String)
    ensures
        r@ == game_tag_text(game@),
{
    let low = to_lowercase(game);
    let lc = chars_of(low.as_str());
    let dash = chars_of("-");
    let replaced = replace_char_chars(&lc, ' ', &dash);
    let mut s = String::new();
    s.append("gamesense/");
    let rs = string_of(replaced.as_slice());
    s.append(rs.as_str());
    s
}

proof fn lemma_replace_char_removes(s: Seq<char>, c: char, to: Seq<char>)
    requires
        forall|i: int| 0 <= i < to.len() ==> to[i] != c,
    ensures
        forall|i: int| 0 <= i < replace_char(s, c, to).len() ==> replace_char(s, c, to)[i] != c,
    decreases s.len(),
{
    if s.len() > 0 {
        lemma_replace_char_removes(s.drop_last(), c, to);
        let a = replace_char(s.drop_last(), c, to);
        let b = if s.last() == c { to } else { seq![s.last()] };
        assert forall|i: int| 0 <= i < (a + b).len() implies (a + b)[i] != c by {
            if i >= a.len() {
                assert(b[i - a.len()] != c);
            }
        }
    }
}

/// A game's tag never holds a space, whatever the game is called.
pub proof fn law_tag_has_no_spaces(game: Seq<char>)
    ensures
        forall|i: int| 0 <= i < game_tag_text(game).len() ==> game_tag_text(game)[i] != ' ',
{
    reveal_strlit("gamesense/");
    reveal_strlit("-");
    let r = replace_char(lowercase(game), ' ', "-"@);
    lemma_replace_char_removes(lowercase(game), ' ', "-"@);
    assert forall|i: int| 0 <= i < game_tag_text(game).len() implies game_tag_text(game)[i] != ' ' by {
        if i >= "gamesense/"@.len() {
            assert(game_tag_text(game)[i] == r[i - "gamesense/"@.len()]);
        }
    }
}

// ---------------------------------------------------------------------------
// Where the notes live
// ---------------------------------------------------------------------------

/// What `Path::join` gives for a base path and a relative component, as text.
pub uninterp spec fn path_join(base: Seq<char>, part: Seq<char>) -> Seq<char>;

/// `Path::join`, read back as text: `part` appended to `base` after the
/// platform's separator. The contract names the result; the separator, which
/// depends on the platform the library is built for, is not stated.
#[verifier::external_body]
pub(crate) fn join_path(base: &str, part: &str) -> (r: String)
    ensures
        r@ == path_join(base@, part@),
{
    std::path::Path::new(base).join(part).to_string_lossy().into_owned()
}

/// The folder of a game's notes: `GameSense/<game>` in the vault.
pub open spec fn game_dir_path(vault: Seq<char>, game: Seq<char>) -> Seq<char> {
    path_join(path_join(vault, "GameSense"@), game)
}

pub fn game_dir(vault: &str, game: &str) -> (r: String)
    ensures
        r@ == game_dir_path(vault@, game@),
{
    let a = join_path(vault, "GameSense");
    join_path(a.as_str(), game)
}

/// The folder of a game's session notes.
pub fn sessions_dir(vault: &str, game: &str) -> (r: String)
    ensures
        r@ == path_join(game_dir_path(vault@, game@), "sessions"@),
{
    let d = game_dir(vault, game);
    join_path(d.as_str(), "sessions")
}

/// The strategies note of a game.
pub fn strategies_path(vault: &str, game: &str) -> (r: String)
    ensures
        r@ == path_join(game_dir_path(vault@, game@), "strategies.md"@),
{
    let d = game_dir(vault, game);
    join_path(d.as_str(), "strategies.md")
}

/// The base file listing a game's sessions.
pub fn index_path(vault: &str, game: &str) -> (r: String)
    ensures
        r@ == path_join(game_dir_path(vault@, game@), "index.base"@),
{
    let d = game_dir(vault, game);
    join_path(d.as_str(), "index.base")
}

/// Whether a strategies note already holds the research made before the first
/// run.
pub fn has_research_marker(content: &str) -> (r: bool)
    ensures
        r == (contains(content@, "## Game Mechanics"@) || contains(content@, "pre_game_research: true"@)),
{
    let c = chars_of(content);
    contains_str(&c, "## Game Mechanics") || contains_str(&c, "pre_game_research: true")
}

/// A note written by the research before the first run is recognized as
/// such, so the research is never repeated for that game.
pub proof fn law_research_note_is_recognized(game: Seq<char>, research: Seq<char>, date: Seq<char>)
    ensures
        contains(research_note(game, research, date), "pre_game_research: true"@),
{
    reveal_strlit("\npre_game_research: true\nresearched_on: ");
    reveal_strlit("pre_game_research: true");
    reveal_strlit("\n");
    reveal_strlit("\nresearched_on: ");
    let head = "---\ntags:\n  - "@ + game_tag_text(game) + "\ngame: "@ + game + "\n"@;
    let rest = "\nresearched_on: "@ + date
        + "\nsessions_analyzed: 0\nbest_score: 0\n---\n\n# "@ + game
        + " Knowledge Base\n\n## Game Mechanics\n\n"@ + trim(research)
        + "\n\n---\n\n## Session Lessons\n\n_(Will be filled in automatically after each session.)_\n"@;
    assert("\npre_game_research: true\nresearched_on: "@ =~= "\n"@ + "pre_game_research: true"@
        + "\nresearched_on: "@);
    assert(research_note(game, research, date) =~= head + "pre_game_research: true"@ + rest);
    lemma_contains_middle(head, "pre_game_research: true"@, rest);
}

/// At least three digits, zero-padded (`{:03}`).
pub open spec fn pad3(n: nat) -> Seq<char> {
    if n < 10 {
        "00"@ + decimal(n)
    } else if n < 100 {
        "0"@ + decimal(n)
    } else {
        decimal(n)
    }
}

/// The file name of a session note: its start stamp, then the zero-padded run
/// number.
pub fn session_file_name(stamp: &str, run: u32) -> (r: String)
    ensures
        r@ == stamp@ + "_run-"@ + pad3(run as nat) + ".md"@,
{
    let mut s = String::new();
    s.append(stamp);
    s.append("_run-");
    if run < 10 {
        s.append("00");
    } else if run < 100 {
        s.append("0");
    }
    let n = u64_to_string(run as u64);
    s.append(n.as_str());
    s.append(".md");
    s
}

/// The first strategies note of a game: its tag, name and research date in the
/// front matter, then the researched mechanics and an empty lesson section.
pub open spec fn research_note(game: Seq<char>, research: Seq<char>, date: Seq<char>) -> Seq<char> {
    "---\ntags:\n  - "@ + game_tag_text(game) + "\ngame: "@ + game + "\npre_game_research: true\nresearched_on: "@ + date + "\nsessions_analyzed: 0\nbest_score: 0\n---\n\n# "@ + game + " Knowledge Base\n\n## Game Mechanics\n\n"@ + trim(research) + "\n\n---\n\n## Session Lessons\n\n_(Will be filled in automatically after each session.)_\n"@
}

pub fn initial_research_content(game: &str, research: &str, date: &str) -> (r: String)
    ensures
        r@ == research_note(game@, research@, date@),
{
    let tag = game_tag(game);
    let r = trimmed(research);
    let mut s = String::new();
    s.append("---\ntags:\n  - ");
    s.append(tag.as_str());
    s.append("\ngame: ");
    s.append(game);
    s.append("\npre_game_research: true\nresearched_on: ");
    s.append(date);
    s.append("\nsessions_analyzed: 0\nbest_score: 0\n---\n\n# ");
    s.append(game);
    s.append(" Knowledge Base\n\n## Game Mechanics\n\n");
    s.append(r.as_str());
    s.append("\n\n---\n\n## Session Lessons\n\n_(Will be filled in automatically after each session.)_\n");
    s
}

/// A new session note: front matter with the run's placeholders, then the
/// title, the summary and lesson placeholders and the step log heading.
pub open spec fn session_note(game: Seq<char>, date: Seq<char>, date_time: Seq<char>, run: nat, model: Seq<char>) -> Seq<char> {
    "---\ntags:\n  - "@ + game_tag_text(game) + "\ngame: "@ + game + "\ndate: "@ + date + "\nrun: "@ + decimal(run) + "\nresult: pending\nscore: 0\nmax_tile: 0\nsteps: 0\nduration_seconds: 0\nmodel: "@ + model + "\n---\n\n# "@ + game + " Session — "@ + date_time + " (Run #"@ + decimal(run) + ")\n\n## Summary\n_(filled in after game ends)_\n\n> [!abstract] Session Lesson\n> _(filled in by LLM after game ends)_\n\n## Step Log\n\n"@
}

pub fn session_content(game: &str, date: &str, date_time: &str, run: u32, model: &str) -> (r: String)
    ensures
        r@ == session_note(game@, date@, date_time@, run as nat, model@),
{
    let tag = game_tag(game);
    let mut s = String::new();
    s.append("---\ntags:\n  - ");
    s.append(tag.as_str());
    s.append("\ngame: ");
    s.append(game);
    s.append("\ndate: ");
    s.append(date);
    s.append("\nrun: ");
    let t_run = u64_to_string(run as u64);
    s.append(t_run.as_str());
    s.append("\nresult: pending\nscore: 0\nmax_tile: 0\nsteps: 0\nduration_seconds: 0\nmodel: ");
    s.append(model);
    s.append("\n---\n\n# ");
    s.append(game);
    s.append(" Session — ");
    s.append(date_time);
    s.append(" (Run #");
    let t_run = u64_to_string(run as u64);
    s.append(t_run.as_str());
    s.append(")\n\n## Summary\n_(filled in after game ends)_\n\n> [!abstract] Session Lesson\n> _(filled in by LLM after game ends)_\n\n## Step Log\n\n");
    s
}

/// The base file that lists a game's sessions.
pub open spec fn index_text(game: Seq<char>, tag: Seq<char>) -> Seq<char> {
    "filters:\n  and:\n    - file.inFolder(\"GameSense/"@ + game + "/sessions\")\n    - file.hasTag(\""@ + tag + "\")\n\nformulas:\n  efficiency: 'if(steps, (score / steps).round(0), 0)'\n  result_icon: 'if(result == \"won\", \"🏆\", if(result == \"game_over\", \"💀\", \"⏹️\"))'\n  duration_min: 'if(duration_seconds, (duration_seconds / 60).round(1), \"\")'\n\nproperties:\n  formula.result_icon:\n    displayName: \"\"\n  formula.efficiency:\n    displayName: \"Score/Step\"\n  formula.duration_min:\n    displayName: \"Duration (min)\"\n\nviews:\n  - type: table\n    name: \"All Sessions\"\n    order:\n      - file.name\n      - formula.result_icon\n      - score\n      - max_tile\n      - steps\n      - formula.efficiency\n      - formula.duration_min\n      - model\n    summaries:\n      score: Max\n      formula.efficiency: Average\n    groupBy:\n      property: result\n      direction: ASC\n\n  - type: cards\n    name: \"Best Runs\"\n    filters:\n      and:\n        - 'score >= 4096'\n    order:\n      - file.name\n      - formula.result_icon\n      - score\n      - max_tile\n"@
}

pub fn build_index_content(game: &str, tag: &str) -> (r: String)
    ensures
        r@ == index_text(game@, tag@),
{
    let mut s = String::new();
    s.append("filters:\n  and:\n    - file.inFolder(\"GameSense/");
    s.append(game);
    s.append("/sessions\")\n    - file.hasTag(\"");
    s.append(tag);
    s.append("\")\n\nformulas:\n  efficiency: 'if(steps, (score / steps).round(0), 0)'\n  result_icon: 'if(result == \"won\", \"🏆\", if(result == \"game_over\", \"💀\", \"⏹️\"))'\n  duration_min: 'if(duration_seconds, (duration_seconds / 60).round(1), \"\")'\n\nproperties:\n  formula.result_icon:\n    displayName: \"\"\n  formula.efficiency:\n    displayName: \"Score/Step\"\n  formula.duration_min:\n    displayName: \"Duration (min)\"\n\nviews:\n  - type: table\n    name: \"All Sessions\"\n    order:\n      - file.name\n      - formula.result_icon\n      - score\n      - max_tile\n      - steps\n      - formula.efficiency\n      - formula.duration_min\n      - model\n    summaries:\n      score: Max\n      formula.efficiency: Average\n    groupBy:\n      property: result\n      direction: ASC\n\n  - type: cards\n    name: \"Best Runs\"\n    filters:\n      and:\n        - 'score >= 4096'\n    order:\n      - file.name\n      - formula.result_icon\n      - score\n      - max_tile\n");
    s
}

/// A strategies note started by the first lesson of a game.
pub open spec fn new_strategies_note(game: Seq<char>, date: Seq<char>, score: nat, entry: Seq<char>) -> Seq<char> {
    "---\ntags:\n  - "@ + game_tag_text(game) + "\ngame: "@ + game + "\nsessions_analyzed: 1\nlast_updated: "@ + date + "\nbest_score: "@ + decimal(score) + "\n---\n\n# "@ + game + " Knowledge Base\n\n## Core Strategy\n\n_(Builds up automatically through session lessons below.)_\n\n---\n\n## Session Lessons\n\n"@ + entry + "\n"@
}

pub fn new_strategies_content(game: &str, date: &str, score: u32, entry: &str) -> (r: String)
    ensures
        r@ == new_strategies_note(game@, date@, score as nat, entry@),
{
    let tag = game_tag(game);
    let mut s = String::new();
    s.append("---\ntags:\n  - ");
    s.append(tag.as_str());
    s.append("\ngame: ");
    s.append(game);
    s.append("\nsessions_analyzed: 1\nlast_updated: ");
    s.append(date);
    s.append("\nbest_score: ");
    let t_score = u64_to_string(score as u64);
    s.append(t_score.as_str());
    s.append("\n---\n\n# ");
    s.append(game);
    s.append(" Knowledge Base\n\n## Core Strategy\n\n_(Builds up automatically through session lessons below.)_\n\n---\n\n## Session Lessons\n\n");
    s.append(entry);
    s.append("\n");
    s
}

/// `str::replace` of one character by a text, on a string.
fn replace_char_str(s: &str, c: char, to: &str) -> (r: String)
    ensures
        r@ == replace_char(s@, c, to@),
{
    let v = chars_of(s);
    let t = chars_of(to);
    let out = replace_char_chars(&v, c, &t);
    string_of(out.as_slice())
}

/// `str::replacen(pat, to, 1)` on a string.
fn replace_first_str(s: &str, pat: &str, to: &str) -> (r: String)
    ensures
        r@ == replace_first(s@, pat@, to@),
{
    let v = chars_of(s);
    let p = chars_of(pat);
    let t = chars_of(to);
    let out = replace_first_chars(&v, &p, &t);
    string_of(out.as_slice())
}

fn concat(a: &str, b: &str) -> (r: String)
    ensures
        r@ == a@ + b@,
{
    let mut s = String::new();
    s.append(a);
    s.append(b);
    s
}

fn append_num(s: &mut String, n: u64)
    ensures
        final(s)@ == old(s)@ + decimal(n as nat),
{
    let t = u64_to_string(n);
    s.append(t.as_str());
}

// ---------------------------------------------------------------------------
// The step log
// ---------------------------------------------------------------------------

/// The log entry of one step. The confidence arrives already written out.
/// Reasoning lines are continued inside the callout.
pub open spec fn step_text(
    step: nat,
    is_final: bool,
    action: Seq<char>,
    confidence: Seq<char>,
    score: nat,
    reasoning: Seq<char>,
) -> Seq<char> {
    (if is_final {
        "### Step "@ + decimal(step) + " ⚠️ Final Move\n"@
    } else {
        "### Step "@ + decimal(step) + "\n"@
    }) + "**Action:** `"@ + action + "` | **Confidence:** "@ + confidence + " | **Score:** "@ + decimal(
        score,
    ) + "\n\n> [!"@ + (if is_final {
        "danger"@
    } else {
        "tip"@
    }) + "] Reasoning\n> "@ + replace_char(reasoning, '\n', "\n> "@) + "\n\n---\n\n"@
}

pub fn step_block(
    step: u32,
    is_final: bool,
    action: &str,
    confidence: &str,
    score: u32,
    reasoning: &str,
) -> (r: String)
    ensures
        r@ == step_text(step as nat, is_final, action@, confidence@, score as nat, reasoning@),
{
    let mut s = String::new();
    s.append("### Step ");
    append_num(&mut s, step as u64);
    if is_final {
        s.append(" ⚠️ Final Move\n");
    } else {
        s.append("\n");
    }
    s.append("**Action:** `");
    s.append(action);
    s.append("` | **Confidence:** ");
    s.append(confidence);
    s.append(" | **Score:** ");
    append_num(&mut s, score as u64);
    s.append("\n\n> [!");
    s.append(if is_final { "danger" } else { "tip" });
    s.append("] Reasoning\n> ");
    let r = replace_char_str(reasoning, '\n', "\n> ");
    s.append(r.as_str());
    s.append("\n\n---\n\n");
    s
}

// ---------------------------------------------------------------------------
// Finishing a session
// ---------------------------------------------------------------------------

/// What a finished run is summed up with.
pub struct SessionSummary {
    /// `won`, `game_over` or `stopped`.
    pub result: String,
    pub score: u32,
    pub max_tile: u32,
    pub steps: u32,
    pub duration_seconds: u64,
    pub model: String,
}

pub open spec fn result_label_text(result: Seq<char>) -> Seq<char> {
    if result == "won"@ {
        "Won 🏆"@
    } else if result == "game_over"@ {
        "Game Over 💀"@
    } else {
        "Stopped ⏹️"@
    }
}

pub fn result_label(result: &str) -> (r: &'static str)
    ensures
        r@ == result_label_text(result@),
{
    let c = chars_of(result);
    if crate::text::chars_eq_str(&c, "won") {
        "Won 🏆"
    } else if crate::text::chars_eq_str(&c, "game_over") {
        "Game Over 💀"
    } else {
        "Stopped ⏹️"
    }
}

/// The result line of a summary: result, score, best tile, steps and the
/// duration in minutes and seconds.
pub open spec fn summary_fields(s: SessionSummary) -> Seq<char> {
    "**Result:** "@ + result_label_text(s.result@) + " | **Score:** "@ + decimal(s.score as nat)
        + " | **Max tile:** "@ + decimal(s.max_tile as nat) + " | **Steps:** "@ + decimal(
        s.steps as nat,
    ) + " | **Duration:** "@ + decimal((s.duration_seconds / 60) as nat) + "m "@ + decimal(
        (s.duration_seconds % 60) as nat,
    ) + "s"@
}

fn summary_fields_exec(s: &SessionSummary) -> (r: String)
    ensures
        r@ == summary_fields(*s),
{
    let mut t = String::new();
    t.append("**Result:** ");
    t.append(result_label(s.result.as_str()));
    t.append(" | **Score:** ");
    append_num(&mut t, s.score as u64);
    t.append(" | **Max tile:** ");
    append_num(&mut t, s.max_tile as u64);
    t.append(" | **Steps:** ");
    append_num(&mut t, s.steps as u64);
    t.append(" | **Duration:** ");
    append_num(&mut t, s.duration_seconds / 60);
    t.append("m ");
    append_num(&mut t, s.duration_seconds % 60);
    t.append("s");
    t
}

/// The block appended to the step log when a run ends.
pub fn summary_block(s: &SessionSummary) -> (r: String)
    ensures
        r@ == "## Session Complete\n\n"@ + summary_fields(*s) + "\n\n"@,
{
    let f = summary_fields_exec(s);
    let mut t = String::new();
    t.append("## Session Complete\n\n");
    t.append(f.as_str());
    t.append("\n\n");
    t
}

/// A session note after its run ended: the first placeholder of each front
/// matter field replaced by the run's value, then the summary placeholder by
/// the result line.
pub open spec fn finalized_note(content: Seq<char>, s: SessionSummary) -> Seq<char> {
    let c1 = replace_first(content, "result: pending"@, "result: "@ + s.result@);
    let c2 = replace_first(c1, "score: 0"@, "score: "@ + decimal(s.score as nat));
    let c3 = replace_first(c2, "max_tile: 0"@, "max_tile: "@ + decimal(s.max_tile as nat));
    let c4 = replace_first(c3, "steps: 0"@, "steps: "@ + decimal(s.steps as nat));
    let c5 = replace_first(c4, "duration_seconds: 0"@, "duration_seconds: "@ + decimal(s.duration_seconds as nat));
    replace_first(c5, "## Summary\n_(filled in after game ends)_"@, "## Summary\n"@ + summary_fields(s))
}

pub fn finalize_content(content: &str, s: &SessionSummary) -> (r: String)
    ensures
        r@ == finalized_note(content@, *s),
{
    let t1 = concat("result: ", s.result.as_str());
    let c1 = replace_first_str(content, "result: pending", t1.as_str());
    let mut t2 = String::new();
    t2.append("score: ");
    append_num(&mut t2, s.score as u64);
    let c2 = replace_first_str(c1.as_str(), "score: 0", t2.as_str());
    let mut t3 = String::new();
    t3.append("max_tile: ");
    append_num(&mut t3, s.max_tile as u64);
    let c3 = replace_first_str(c2.as_str(), "max_tile: 0", t3.as_str());
    let mut t4 = String::new();
    t4.append("steps: ");
    append_num(&mut t4, s.steps as u64);
    let c4 = replace_first_str(c3.as_str(), "steps: 0", t4.as_str());
    let mut t5 = String::new();
    t5.append("duration_seconds: ");
    append_num(&mut t5, s.duration_seconds);
    let c5 = replace_first_str(c4.as_str(), "duration_seconds: 0", t5.as_str());
    let f = summary_fields_exec(s);
    let t6 = concat("## Summary\n", f.as_str());
    replace_first_str(c5.as_str(), "## Summary\n_(filled in after game ends)_", t6.as_str())
}

/// A session note with its lesson filled in: the placeholder of the lesson
/// callout replaced by the trimmed lesson, each line kept inside the callout.
pub open spec fn note_with_lesson(content: Seq<char>, lesson: Seq<char>) -> Seq<char> {
    replace_first(
        content,
        "> [!abstract] Session Lesson\n> _(filled in by LLM after game ends)_"@,
        "> [!abstract] Session Lesson\n> "@ + replace_char(trim(lesson), '\n', "\n> "@),
    )
}

pub fn lesson_content(content: &str, lesson: &str) -> (r: String)
    ensures
        r@ == note_with_lesson(content@, lesson@),
{
    let t = trimmed(lesson);
    let q = replace_char_str(t.as_str(), '\n', "\n> ");
    let to = concat("> [!abstract] Session Lesson\n> ", q.as_str());
    replace_first_str(
        content,
        "> [!abstract] Session Lesson\n> _(filled in by LLM after game ends)_",
        to.as_str(),
    )
}

pub open spec fn result_emoji(result: Seq<char>) -> Seq<char> {
    if result == "won"@ {
        "🏆"@
    } else if result == "game_over"@ {
        "💀"@
    } else {
        "⏹️"@
    }
}

/// The strategies entry of one lesson: date, run, score and result, then the
/// trimmed lesson.
pub open spec fn lesson_entry(s: SessionSummary, lesson: Seq<char>, run: nat, date: Seq<char>) -> Seq<char> {
    "### "@ + date + " Run #"@ + decimal(run) + " (Score: "@ + decimal(s.score as nat) + " "@
        + result_emoji(s.result@) + ")\n"@ + trim(lesson) + "\n"@
}

pub fn format_lesson_entry(s: &SessionSummary, lesson: &str, run_number: u32, date: &str) -> (r: String)
    ensures
        r@ == lesson_entry(*s, lesson@, run_number as nat, date@),
{
    let c = chars_of(s.result.as_str());
    let emoji = if crate::text::chars_eq_str(&c, "won") {
        "🏆"
    } else if crate::text::chars_eq_str(&c, "game_over") {
        "💀"
    } else {
        "⏹️"
    };
    let mut t = String::new();
    t.append("### ");
    t.append(date);
    t.append(" Run #");
    append_num(&mut t, run_number as u64);
    t.append(" (Score: ");
    append_num(&mut t, s.score as u64);
    t.append(" ");
    t.append(emoji);
    t.append(")\n");
    let l = trimmed(lesson);
    t.append(l.as_str());
    t.append("\n");
    t
}

/// The text appended to an existing strategies note for one lesson.
pub fn lesson_append_text(entry: &str) -> (r: String)
    ensures
        r@ == "\n"@ + entry@ + "\n"@,
{
    let mut t = String::new();
    t.append("\n");
    t.append(entry);
    t.append("\n");
    t
}

/// The number after the first `:` of a front matter line (and before any
/// second one), or 0.
pub open spec fn field_count(line: Seq<char>) -> nat {
    let ps = split_str(line, ":"@);
    if ps.len() > 1 {
        match parse_unsigned(trim(ps[1]), u32::MAX as int) {
            Some(v) => v as nat,
            None => 0,
        }
    } else {
        0
    }
}

fn field_count_exec(line: &Vec<char>) -> (r: u32)
    ensures
        r == field_count(line@),
{
    let colon = chars_of(":");
    proof {
        reveal_strlit(":");
    }
    let ps = split_str_chars(line, &colon);
    if ps.len() > 1 {
        assert(dv(ps@)[1] == ps@[1]@);
        let t = trimmed_chars(&ps[1]);
        match parse_uint(&t, u32::MAX as u64) {
            Some(v) => v as u32,
            None => 0,
        }
    } else {
        0
    }
}

/// One more session, wrapping at the 32-bit limit.
pub open spec fn next_count(n: nat) -> nat {
    if n >= u32::MAX {
        0
    } else {
        n + 1
    }
}

/// A strategies note after a lesson was appended: the session count raised by
/// one and the first `last_updated:` line set to the date, then the best score
/// raised when this run beat it. Each line is replaced where its text first
/// occurs in the note.
pub open spec fn updated_strategies_note(content: Seq<char>, score: nat, date: Seq<char>) -> Seq<char> {
    let ls = lines(content);
    let c2 = match first_where(ls, starts_with_test("sessions_analyzed:"@), 0) {
        Some(i) => {
            let c1 = replace_first(content, ls[i], "sessions_analyzed: "@ + decimal(next_count(field_count(ls[i]))));
            match first_where(ls, starts_with_test("last_updated:"@), 0) {
                Some(j) => replace_first(c1, ls[j], "last_updated: "@ + date),
                None => c1,
            }
        },
        None => content,
    };
    let ls2 = lines(c2);
    match first_where(ls2, starts_with_test("best_score:"@), 0) {
        Some(k) => if score > field_count(ls2[k]) {
            replace_first(c2, ls2[k], "best_score: "@ + decimal(score))
        } else {
            c2
        },
        None => c2,
    }
}

pub fn updated_strategies(content: &str, score: u32, date: &str) -> (r: String)
    ensures
        r@ == updated_strategies_note(content@, score as nat, date@),
{
    let ls = text_lines(content);
    let ghost d = dv(ls@);
    let sa = LineTest::StartsWith(chars_of("sessions_analyzed:"));
    let c2: String = match first_line_where(&ls, &sa) {
        Some(i) => {
            let line = &ls[i];
            assert(d[i as int] == line@);
            let old = field_count_exec(line);
            let next: u32 = if old == u32::MAX { 0 } else { old + 1 };
            let mut to1 = String::new();
            to1.append("sessions_analyzed: ");
            append_num(&mut to1, next as u64);
            let line_s = string_of(line.as_slice());
            let c1 = replace_first_str(content, line_s.as_str(), to1.as_str());
            let lt = LineTest::StartsWith(chars_of("last_updated:"));
            match first_line_where(&ls, &lt) {
                Some(j) => {
                    assert(d[j as int] == ls@[j as int]@);
                    let lu = string_of(ls[j].as_slice());
                    let to2 = concat("last_updated: ", date);
                    replace_first_str(c1.as_str(), lu.as_str(), to2.as_str())
                },
                None => c1,
            }
        },
        None => content.to_string(),
    };
    let ls2 = text_lines(c2.as_str());
    let bs = LineTest::StartsWith(chars_of("best_score:"));
    match first_line_where(&ls2, &bs) {
        Some(k) => {
            let line = &ls2[k];
            assert(dv(ls2@)[k as int] == line@);
            let old_best = field_count_exec(line);
            if score > old_best {
                let mut to = String::new();
                to.append("best_score: ");
                append_num(&mut to, score as u64);
                let line_s = string_of(line.as_slice());
                replace_first_str(c2.as_str(), line_s.as_str(), to.as_str())
            } else {
                c2
            }
        },
        None => c2,
    }
}

// ---------------------------------------------------------------------------
// The lesson prompt
// ---------------------------------------------------------------------------

fn join_strings(v: &Vec<String>, sep: &str) -> (r: String)
    ensures
        r@ == crate::commands::file_transfer::joined(crate::adb::command_builder::strs(v@), sep@),
{
    let ghost d = crate::adb::command_builder::strs(v@);
    let mut out = String::new();
    let mut k: usize = 0;
    while k < v.len()
        invariant
            k <= v.len(),
            d == crate::adb::command_builder::strs(v@),
            out@ == crate::commands::file_transfer::joined(d.take(k as int), sep@),
        decreases v.len() - k,
    {
        let ghost before = out@;
        if k > 0 {
            out.append(sep);
        }
        out.append(v[k].as_str());
        proof {
            let t = d.take(k + 1);
            assert(t.drop_last() =~= d.take(k as int));
            assert(t.last() == v@[k as int]@);
            if k == 0 {
                assert(t =~= seq![v@[0]@]);
            }
        }
        k = k + 1;
    }
    assert(d.take(v.len() as int) =~= d);
    out
}

/// The prompt that asks the model for the lesson of a finished run. The move
/// lines arrive already written out; the current strategies are quoted unless
/// there are none.
pub open spec fn summarize_prompt(s: SessionSummary, moves: Seq<Seq<char>>, existing: Seq<char>) -> Seq<char> {
    let section = if existing.len() == 0 {
        Seq::empty()
    } else {
        "\nCurrent knowledge base (do not repeat existing rules, only add new insights):\n"@ + existing
            + "\n"@
    };
    "You are analyzing a completed mobile game session to extract a lesson for future games.\n\nSession result: "@
        + s.result@ + " | Score: "@ + decimal(s.score as nat) + " | Steps: "@ + decimal(s.steps as nat)
        + " | Max tile: "@ + decimal(s.max_tile as nat) + "\n\nLast moves:\n"@
        + crate::commands::file_transfer::joined(moves, "\n"@) + "\n"@ + section
        + "\nWrite a short lesson (2-3 sentences) about what happened and one concrete rule to remember.Be specific — mention move directions, tile positions, or board patterns if relevant.\nOutput plain text only. No markdown headers. No bullet points."@
}

pub fn build_summarize_prompt(s: &SessionSummary, move_lines: &Vec<String>, existing: &str) -> (r: String)
    ensures
        r@ == summarize_prompt(*s, crate::adb::command_builder::strs(move_lines@), existing@),
{
    let mut p = String::new();
    p.append("You are analyzing a completed mobile game session to extract a lesson for future games.\n\nSession result: ");
    p.append(s.result.as_str());
    p.append(" | Score: ");
    append_num(&mut p, s.score as u64);
    p.append(" | Steps: ");
    append_num(&mut p, s.steps as u64);
    p.append(" | Max tile: ");
    append_num(&mut p, s.max_tile as u64);
    p.append("\n\nLast moves:\n");
    let moves = join_strings(move_lines, "\n");
    p.append(moves.as_str());
    p.append("\n");
    if !existing.is_empty() {
        p.append("\nCurrent knowledge base (do not repeat existing rules, only add new insights):\n");
        p.append(existing);
        p.append("\n");
    }
    p.append("\nWrite a short lesson (2-3 sentences) about what happened and one concrete rule to remember.Be specific — mention move directions, tile positions, or board patterns if relevant.\nOutput plain text only. No markdown headers. No bullet points.");
    p
}

/// The lesson to write after a run: nothing when the model call failed or
/// timed out (`None`) or its text is blank, else the text as it came.
pub fn lesson_to_record(reply: Option<String>) -> (r: Option<String>)
    ensures
        match reply {
            Some(t) => if trim(t@).len() > 0 {
                r matches Some(l) && l@ == t@
            } else {
                r is None
            },
            None => r is None,
        },
{
    match reply {
        Some(t) => {
            let tt = trimmed_chars(&chars_of(t.as_str()));
            if tt.len() > 0 {
                Some(t)
            } else {
                None
            }
        },
        None => None,
    }
}

/// How many of the extensions (as `Path::extension` gives them for the entries
/// of a folder) are `md`.
pub open spec fn md_count(exts: Seq<Option<String>>) -> nat
    decreases exts.len(),
{
    if exts.len() == 0 {
        0
    } else {
        md_count(exts.drop_last()) + (if exts.last() matches Some(e) && e@ == "md"@ {
            1nat
        } else {
            0nat
        })
    }
}

/// Counts the session notes of a folder, given the extension of each entry.
pub fn count_markdown(exts: &Vec<Option<String>>) -> (r: usize)
    ensures
        r == md_count(exts@),
{
    let mut n: usize = 0;
    let mut i: usize = 0;
    while i < exts.len()
        invariant
            i <= exts.len(),
            n == md_count(exts@.take(i as int)),
            n <= i,
        decreases exts.len() - i,
    {
        assert(exts@.take(i + 1).drop_last() =~= exts@.take(i as int));
        match &exts[i] {
            Some(e) => {
                if chars_eq_str(&chars_of(e.as_str()), "md") {
                    n = n + 1;
                }
            },
            None => {},
        }
        i = i + 1;
    }
    assert(exts@.take(exts.len() as int) =~= exts@);
    n
}

} // verus!
