// Prompts for the vision model: pre-game research and the per-step game prompt.
use vstd::prelude::*;

use crate::adb::command_builder::strs;
use crate::text::{
    chars_of, decimal, dv, split_str, split_str_chars, starts_with, starts_with_str, u64_to_string,
};

verus! {
pub open spec fn research_head() -> Seq<char> {
    "You are a mobile game expert. I am about to play the Android game called \""@
}
pub open spec fn research_tail() -> Seq<char> {
    "\".\n\nBased on your training knowledge, describe this game in the following structure:\n\n## How to Play\n- Core mechanic (what does the player DO each turn?)\n- Win condition\n- Lose/fail condition\n\n## Controls\n- What gestures are used? (tap, swipe, drag?)\n- How does the player interact with game elements?\n\n## Key Game Elements\n- What are the main objects/pieces on screen?\n- What do the visual indicators mean (colors, highlights, arrows)?\n\n## Strategy Tips\n- 3-5 concrete tips for playing well\n\nIf you don't recognize this exact game, describe what you can infer from the name and note your uncertainty. Write in plain text, no JSON. Be concise (under 300 words)."@
}
pub open spec fn game_head() -> Seq<char> {
    "You are a game-playing AI agent. You are looking at a screenshot of \""@
}
pub open spec fn game_body() -> Seq<char> {
    "\".\n\n## GRID REFERENCE\nThe screenshot has a 10×10 reference grid drawn over it.\nEach cell label shows: LETTER+NUMBER followed by the exact tap coordinates in percent.\nExample: \"F7 55,65\" means cell F7 — tap:55%%:65%% to hit its center.\nREAD THE NUMBERS PRINTED ON THE GRID — do not estimate or calculate coordinates yourself.\nFind the cell whose label is closest to the element you want to tap, then use those exact numbers.\n\n## STEP 1 — SCREEN ANALYSIS (do this first, every time)\nBefore choosing an action, list everything you observe:\na) TUTORIAL INDICATORS: Is there a hand icon, arrow, glowing highlight, or text like \"Tap to...\", \"Swipe to...\", \"Touch here\"? If yes, describe exactly which grid cell it points to.\nb) INTERACTIVE ELEMENTS: List all visible tappable things — buttons, columns, tiles, cells, icons — with grid cell position (e.g. \"column at C5\").\nc) GAME STATE: What is happening? Are you in a tutorial, main gameplay, menu, or game-over screen?\n\n## STEP 2 — ACTION SELECTION\nUse this priority order:\n1. TUTORIAL FIRST: If a hand/arrow/highlight points at something, tap that exact element.\nA \"Tap to ...\" banner means TAP — do NOT use drag or swipe regardless of past session lessons.\nA \"Swipe to...\" banner means SWIPE. The on-screen instruction is ALWAYS correct. Learned strategies NEVER override an explicit on-screen tutorial instruction.\n2. EXPLORE UNVISITED: If no tutorial indicator, tap an interactive element you haven't tried yet. Pick one far from your recent taps.\n3. SYSTEMATIC GRID: If you've tried obvious elements, tap the next untried grid cell,\nstarting A1 → J1 → A2 → J2 → ... (row by row, left to right).\n\nAVAILABLE ACTIONS:\n- tap:X%:Y% — tap at position (X% from left, Y% from top)\n- swipe_up / swipe_down / swipe_left / swipe_right — swipe from screen center\n\nCOORDINATE PRECISION RULES:\n- Use the grid cells to estimate coordinates. A cell center is more reliable than free-hand guessing.\n- NEVER tap the same coordinates (within 10%) more than twice in a row.\n- If a tap on an element fails once, try adjacent cells (one cell = 10%).\n- NEVER swipe when the tutorial says \"Tap\" — keep exploring tap positions.\n\n## RESPONSE FORMAT\nRespond with a single JSON object:\n{\n\"screen_analysis\": {\n\"tutorial_indicator\": \"description or null\",\n\"interactive_elements\": [\"element at grid cell X%:Y%\", ...],\n\"game_state\": \"tutorial | playing | menu | game_over | won\"\n},\n\"reasoning\": \"why you chose this specific action and which grid cell it maps to\",\n\"action\": \"tap:X%:Y% or swipe_*\",\n\"confidence\": 0.0\n}\n"@
}
pub open spec fn stuck_head() -> Seq<char> {
    "\n⚠️ STUCK ALERT: Your last "@
}
pub open spec fn stuck_tail() -> Seq<char> {
    " actions were in the same area with no visible change.\nYou MUST pick a completely different part of the screen this time.\nList all elements you have NOT tapped yet and choose one of those.\n"@
}
pub open spec fn ui_title() -> Seq<char> {
    "\n## ACCESSIBILITY TREE (PRECISE COORDINATES)\n"@
}
pub open spec fn ui_intro() -> Seq<char> {
    "The following clickable elements were extracted from the Android accessibility tree.\nTheir coordinates are pixel-precise — PREFER these over your own visual estimates:\n"@
}
pub open spec fn ui_outro() -> Seq<char> {
    "If the element you want to tap is listed above, use its exact tap:X%:Y% coordinates.\n"@
}
pub open spec fn strategies_title() -> Seq<char> {
    "\n## LEARNED STRATEGIES FROM PREVIOUS SESSIONS\n"@
}
pub open spec fn taps_title() -> Seq<char> {
    "\n## TAP POSITIONS ALREADY TRIED (do NOT repeat these)\n"@
}
pub open spec fn taps_outro() -> Seq<char> {
    "  → Try positions at least 15% away from all of the above.\n"@
}
pub open spec fn others_title() -> Seq<char> {
    "\n## OTHER RECENT MOVES\n"@
}

/// The research prompt for `game`.
pub open spec fn research_prompt(game: Seq<char>) -> Seq<char> {
    research_head() + game + research_tail()
}

/// Asks the model to recall what it knows about a game before the first session.
pub fn build_research_prompt(game_name: &str) -> (r: String)
    ensures
        r@ == research_prompt(game_name@),
{
    let mut s = String::new();
    s.append("You are a mobile game expert. I am about to play the Android game called \"");
    s.append(game_name);
    s.append("\".\n\nBased on your training knowledge, describe this game in the following structure:\n\n## How to Play\n- Core mechanic (what does the player DO each turn?)\n- Win condition\n- Lose/fail condition\n\n## Controls\n- What gestures are used? (tap, swipe, drag?)\n- How does the player interact with game elements?\n\n## Key Game Elements\n- What are the main objects/pieces on screen?\n- What do the visual indicators mean (colors, highlights, arrows)?\n\n## Strategy Tips\n- 3-5 concrete tips for playing well\n\nIf you don't recognize this exact game, describe what you can infer from the name and note your uncertainty. Write in plain text, no JSON. Be concise (under 300 words).");
    s
}

/// Items numbered from 1, one per line: `"  1. first\n  2. second\n"`.
pub open spec fn numbered(items: Seq<Seq<char>>) -> Seq<char>
    decreases items.len(),
{
    if items.len() == 0 {
        Seq::empty()
    } else {
        numbered(items.drop_last()) + "  "@ + decimal(items.len()) + ". "@ + items.last() + "\n"@
    }
}

/// Items as bullet lines: `"  • item\n"`.
pub open spec fn bullets(items: Seq<Seq<char>>) -> Seq<char>
    decreases items.len(),
{
    if items.len() == 0 {
        Seq::empty()
    } else {
        bullets(items.drop_last()) + "  • "@ + items.last() + "\n"@
    }
}

pub open spec fn is_tap(m: Seq<char>) -> bool {
    starts_with(m, "tap:"@)
}

pub open spec fn tap_moves(moves: Seq<Seq<char>>) -> Seq<Seq<char>> {
    moves.filter(|m: Seq<char>| is_tap(m))
}

pub open spec fn other_moves(moves: Seq<Seq<char>>) -> Seq<Seq<char>> {
    moves.filter(|m: Seq<char>| !is_tap(m))
}

pub open spec fn stuck_section(stuck_count: u32) -> Seq<char> {
    if stuck_count >= 3 {
        stuck_head() + decimal(stuck_count as nat) + stuck_tail()
    } else {
        Seq::empty()
    }
}

pub open spec fn ui_section(ui: Option<Seq<char>>) -> Seq<char> {
    match ui {
        Some(u) => ui_title() + ui_intro() + bullets(split_str(u, ", "@)) + ui_outro(),
        None => Seq::empty(),
    }
}

pub open spec fn strategies_section(strategies: Seq<char>) -> Seq<char> {
    if strategies.len() > 0 {
        strategies_title() + strategies + "\n"@
    } else {
        Seq::empty()
    }
}

pub open spec fn moves_section(moves: Seq<Seq<char>>) -> Seq<char> {
    let taps = tap_moves(moves);
    let others = other_moves(moves);
    (if taps.len() > 0 {
        taps_title() + numbered(taps) + taps_outro()
    } else {
        Seq::empty()
    }) + (if others.len() > 0 {
        others_title() + numbered(others)
    } else {
        Seq::empty()
    })
}

/// The per-step game prompt: the fixed instructions for `game`, then the stuck
/// alert (from 3 stuck steps on), the accessibility elements, the learned
/// strategies and the recent moves, each only when there is something to show.
pub open spec fn game_prompt(
    game: Seq<char>,
    moves: Seq<Seq<char>>,
    strategies: Seq<char>,
    stuck_count: u32,
    ui: Option<Seq<char>>,
) -> Seq<char> {
    game_head() + game + game_body() + stuck_section(stuck_count) + ui_section(ui)
        + strategies_section(strategies) + moves_section(moves)
}

/// Appends the numbered lines of `items` to `s`.
fn append_numbered(s: &mut String, items: &Vec<&String>)
    ensures
        final(s)@ == old(s)@ + numbered(Seq::new(items@.len(), |i: int| items@[i]@)),
{
    let ghost base = old(s)@;
    let ghost all = Seq::new(items@.len(), |i: int| items@[i]@);
    let mut i: usize = 0;
    proof {
        assert(all.take(0) =~= Seq::<Seq<char>>::empty());
    }
    while i < items.len()
        invariant
            i <= items.len(),
            all == Seq::new(items@.len(), |i: int| items@[i]@),
            s@ == base + numbered(all.take(i as int)),
        decreases items.len() - i,
    {
        s.append("  ");
        let n = u64_to_string(i as u64 + 1);
        s.append(n.as_str());
        s.append(". ");
        s.append(items[i].as_str());
        s.append("\n");
        proof {
            let t = all.take(i as int + 1);
            assert(t.drop_last() =~= all.take(i as int));
            assert(t.last() == items@[i as int]@);
            assert(t.len() == i + 1);
        }
        i = i + 1;
    }
    assert(all.take(items.len() as int) =~= all);
}

/// Appends the accessibility section for the elements listed in `ui`.
fn append_ui_section(prompt: &mut String, ui: &str)
    ensures
        final(prompt)@ == old(prompt)@ + ui_section(Some(ui@)),
{
    let ghost p1 = prompt@;
    prompt.append("\n## ACCESSIBILITY TREE (PRECISE COORDINATES)\n");
    prompt.append("The following clickable elements were extracted from the Android accessibility tree.\nTheir coordinates are pixel-precise — PREFER these over your own visual estimates:\n");
    let uc = chars_of(ui);
    let sep = chars_of(", ");
    proof {
        reveal_strlit(", ");
    }
    let elems = split_str_chars(&uc, &sep);
    let ghost es = dv(elems@);
    let ghost b0 = prompt@;
    let mut k: usize = 0;
    proof {
        assert(es.take(0) =~= Seq::<Seq<char>>::empty());
    }
    while k < elems.len()
        invariant
            k <= elems.len(),
            es == dv(elems@),
            prompt@ == b0 + bullets(es.take(k as int)),
        decreases elems.len() - k,
    {
        prompt.append("  • ");
        let e = crate::text::string_of(elems[k].as_slice());
        prompt.append(e.as_str());
        prompt.append("\n");
        proof {
            let t = es.take(k as int + 1);
            assert(t.drop_last() =~= es.take(k as int));
            assert(t.last() == elems@[k as int]@);
        }
        k = k + 1;
    }
    assert(es.take(elems.len() as int) =~= es);
    prompt.append("If the element you want to tap is listed above, use its exact tap:X%:Y% coordinates.\n");
    assert(prompt@ =~= p1 + ui_section(Some(ui@)));
}

/// Appends the sections listing the recent moves, taps and others apart.
fn append_moves_section(prompt: &mut String, recent_moves: &[String])
    ensures
        final(prompt)@ == old(prompt)@ + moves_section(strs(recent_moves@)),
{
    let ghost p3 = prompt@;
    let ghost moves = strs(recent_moves@);
    let ghost ft = |m: Seq<char>| is_tap(m);
    let ghost fo = |m: Seq<char>| !is_tap(m);
    let mut taps: Vec<&String> = Vec::new();
    let mut others: Vec<&String> = Vec::new();
    let mut i: usize = 0;
    proof {
        assert(moves.take(0).filter(ft) =~= Seq::<Seq<char>>::empty()) by {
            reveal(Seq::filter);
        }
        assert(moves.take(0).filter(fo) =~= Seq::<Seq<char>>::empty()) by {
            reveal(Seq::filter);
        }
    }
    while i < recent_moves.len()
        invariant
            i <= recent_moves.len(),
            moves == strs(recent_moves@),
            ft == (|m: Seq<char>| is_tap(m)),
            fo == (|m: Seq<char>| !is_tap(m)),
            Seq::new(taps@.len(), |j: int| taps@[j]@) == moves.take(i as int).filter(ft),
            Seq::new(others@.len(), |j: int| others@[j]@) == moves.take(i as int).filter(fo),
        decreases recent_moves.len() - i,
    {
        let m = &recent_moves[i];
        let mc = chars_of(m.as_str());
        proof {
            assert(moves.take(i as int + 1) =~= moves.take(i as int).push(m@));
            moves.take(i as int).lemma_filter_push(m@, ft);
            moves.take(i as int).lemma_filter_push(m@, fo);
        }
        let ghost tb = Seq::new(taps@.len(), |j: int| taps@[j]@);
        let ghost ob = Seq::new(others@.len(), |j: int| others@[j]@);
        if starts_with_str(&mc, "tap:") {
            taps.push(m);
            assert(Seq::new(taps@.len(), |j: int| taps@[j]@) =~= tb.push(m@));
        } else {
            others.push(m);
            assert(Seq::new(others@.len(), |j: int| others@[j]@) =~= ob.push(m@));
        }
        i = i + 1;
    }
    assert(moves.take(recent_moves.len() as int) =~= moves);
    if recent_moves.len() > 0 {
        if taps.len() > 0 {
            prompt.append("\n## TAP POSITIONS ALREADY TRIED (do NOT repeat these)\n");
            append_numbered(prompt, &taps);
            prompt.append("  → Try positions at least 15% away from all of the above.\n");
        }
        if others.len() > 0 {
            prompt.append("\n## OTHER RECENT MOVES\n");
            append_numbered(prompt, &others);
        }
        assert(prompt@ =~= p3 + moves_section(moves));
    } else {
        proof {
            assert(moves =~= Seq::<Seq<char>>::empty());
            assert(moves.filter(ft) =~= Seq::<Seq<char>>::empty()) by {
                reveal(Seq::filter);
            }
            assert(moves.filter(fo) =~= Seq::<Seq<char>>::empty()) by {
                reveal(Seq::filter);
            }
        }
        assert(prompt@ =~= p3 + moves_section(moves));
    }
}

/// Builds the game-playing prompt for one step.
///
/// `recent_moves` are the last moves of this session; `strategies_context` is
/// what earlier sessions learned; `stuck_count` counts consecutive similar
/// steps; `ui_elements` lists clickable elements from the accessibility tree,
/// separated by `", "`.
pub fn build_game_prompt(
    game_name: &str,
    recent_moves: &[String],
    strategies_context: &str,
    stuck_count: u32,
    ui_elements: Option<&str>,
) -> (r: String)
    ensures
        r@ == game_prompt(
            game_name@,
            strs(recent_moves@),
            strategies_context@,
            stuck_count,
            match ui_elements {
                Some(u) => Some(u@),
                None => None,
            },
        ),
{
    let mut prompt = String::new();
    prompt.append("You are a game-playing AI agent. You are looking at a screenshot of \"");
    prompt.append(game_name);
    prompt.append("\".\n\n## GRID REFERENCE\nThe screenshot has a 10×10 reference grid drawn over it.\nEach cell label shows: LETTER+NUMBER followed by the exact tap coordinates in percent.\nExample: \"F7 55,65\" means cell F7 — tap:55%%:65%% to hit its center.\nREAD THE NUMBERS PRINTED ON THE GRID — do not estimate or calculate coordinates yourself.\nFind the cell whose label is closest to the element you want to tap, then use those exact numbers.\n\n## STEP 1 — SCREEN ANALYSIS (do this first, every time)\nBefore choosing an action, list everything you observe:\na) TUTORIAL INDICATORS: Is there a hand icon, arrow, glowing highlight, or text like \"Tap to...\", \"Swipe to...\", \"Touch here\"? If yes, describe exactly which grid cell it points to.\nb) INTERACTIVE ELEMENTS: List all visible tappable things — buttons, columns, tiles, cells, icons — with grid cell position (e.g. \"column at C5\").\nc) GAME STATE: What is happening? Are you in a tutorial, main gameplay, menu, or game-over screen?\n\n## STEP 2 — ACTION SELECTION\nUse this priority order:\n1. TUTORIAL FIRST: If a hand/arrow/highlight points at something, tap that exact element.\nA \"Tap to ...\" banner means TAP — do NOT use drag or swipe regardless of past session lessons.\nA \"Swipe to...\" banner means SWIPE. The on-screen instruction is ALWAYS correct. Learned strategies NEVER override an explicit on-screen tutorial instruction.\n2. EXPLORE UNVISITED: If no tutorial indicator, tap an interactive element you haven't tried yet. Pick one far from your recent taps.\n3. SYSTEMATIC GRID: If you've tried obvious elements, tap the next untried grid cell,\nstarting A1 → J1 → A2 → J2 → ... (row by row, left to right).\n\nAVAILABLE ACTIONS:\n- tap:X%:Y% — tap at position (X% from left, Y% from top)\n- swipe_up / swipe_down / swipe_left / swipe_right — swipe from screen center\n\nCOORDINATE PRECISION RULES:\n- Use the grid cells to estimate coordinates. A cell center is more reliable than free-hand guessing.\n- NEVER tap the same coordinates (within 10%) more than twice in a row.\n- If a tap on an element fails once, try adjacent cells (one cell = 10%).\n- NEVER swipe when the tutorial says \"Tap\" — keep exploring tap positions.\n\n## RESPONSE FORMAT\nRespond with a single JSON object:\n{\n\"screen_analysis\": {\n\"tutorial_indicator\": \"description or null\",\n\"interactive_elements\": [\"element at grid cell X%:Y%\", ...],\n\"game_state\": \"tutorial | playing | menu | game_over | won\"\n},\n\"reasoning\": \"why you chose this specific action and which grid cell it maps to\",\n\"action\": \"tap:X%:Y% or swipe_*\",\n\"confidence\": 0.0\n}\n");
    let ghost p0 = prompt@;
    if stuck_count >= 3 {
        prompt.append("\n⚠️ STUCK ALERT: Your last ");
        let n = u64_to_string(stuck_count as u64);
        prompt.append(n.as_str());
        prompt.append(" actions were in the same area with no visible change.\nYou MUST pick a completely different part of the screen this time.\nList all elements you have NOT tapped yet and choose one of those.\n");
    }
    assert(prompt@ =~= p0 + stuck_section(stuck_count));
    let ghost p1 = prompt@;
    if let Some(ui) = ui_elements {
        append_ui_section(&mut prompt, ui);
    }
    assert(prompt@ =~= p1 + ui_section(match ui_elements {
        Some(u) => Some(u@),
        None => None,
    }));
    let ghost p2 = prompt@;
    let sc = chars_of(strategies_context);
    if sc.len() > 0 {
        prompt.append("\n## LEARNED STRATEGIES FROM PREVIOUS SESSIONS\n");
        prompt.append(strategies_context);
        prompt.append("\n");
    }
    assert(prompt@ =~= p2 + strategies_section(strategies_context@));
    append_moves_section(&mut prompt, recent_moves);
    prompt
}

/// How many flags right before index `k` are set, counting back from `k - 1`.
pub open spec fn run_before(s: Seq<bool>, k: int) -> nat
    decreases k,
{
    if k <= 0 || k > s.len() || !s[k - 1] {
        0
    } else {
        1 + run_before(s, k - 1)
    }
}

/// The stuck count for a history whose steps are flagged by whether each is
/// similar to the latest: the run of similar steps at the end (as a `u32`),
/// when the history has two steps or more and the run is two or longer; else 0.
pub open spec fn stuck_count_of(similar: Seq<bool>) -> u32 {
    let c = run_before(similar, similar.len() as int) as u32;
    if similar.len() < 2 {
        0
    } else if c >= 2 {
        c
    } else {
        0
    }
}

/// Counts the latest run of steps similar to the latest one; below two steps,
/// or a run shorter than two, it is 0.
pub fn stuck_run(similar: &Vec<bool>) -> (r: u32)
    ensures
        r == stuck_count_of(similar@),
{
    if similar.len() < 2 {
        return 0;
    }
    let mut k: usize = similar.len();
    let mut n: usize = 0;
    while k > 0 && similar[k - 1]
        invariant
            k <= similar.len(),
            n == similar.len() - k,
            run_before(similar@, similar.len() as int) == n + run_before(similar@, k as int),
        decreases k,
    {
        n = n + 1;
        k = k - 1;
    }
    let c = n as u32;
    if c >= 2 {
        c
    } else {
        0
    }
}

} // verus!
