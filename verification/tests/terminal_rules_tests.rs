use the_entity::models::{TerminalClueLine, TerminalConversationMessage, TerminalRoundSetupPayload};
use the_entity::state::{GameState, TerminalRoundState, TerminalStatus, Timestamp};
use the_entity::terminal_rules::{
    append_turn, build_persona_boot_opening, build_round_boot_frame, build_round_boot_message,
    build_round_victory_message, build_timeout_terminal_reply, build_turn_resolved_message,
    count_clues, detect_forbidden_word, next_pending_clue, next_round_label, normalize_dev_api_key,
    normalize_optional, normalize_terminal_round_setup, normalize_words, reply_mentions_phrase,
    require_trimmed, trim_conversation_history,
};

fn ts(ms: i64) -> Timestamp {
    Timestamp { micros_since_epoch: ms * 1000 }
}

fn clue(id: &str, text: &str) -> TerminalClueLine {
    TerminalClueLine { clue_id: id.to_string(), clue_text: text.to_string(), delivery_style: None }
}

fn round(persona: &str, clues: Vec<TerminalClueLine>, next: u32) -> TerminalRoundState {
    TerminalRoundState {
        game_id: 1,
        round_key: "round_1".to_string(),
        persona_name: persona.to_string(),
        persona_prompt: "prompt".to_string(),
        glitch_tone: "static".to_string(),
        kill_phrase_part: "red door".to_string(),
        forbidden_words: vec!["door".to_string()],
        clue_lines: clues,
        conversation_history: Vec::new(),
        next_clue_index: next,
        max_strikes: 3,
        strikes: 0,
        player_dead: false,
        round_completed: false,
        created_at: ts(0),
        updated_at: ts(0),
    }
}

fn message(role: &str, text: &str) -> TerminalConversationMessage {
    TerminalConversationMessage { role: role.to_string(), text: text.to_string() }
}

fn game_state(persona: Option<&str>) -> GameState {
    GameState {
        game_id: 1,
        player_one: None,
        player_two: None,
        villain_name: "AI Villain".to_string(),
        active_round_key: None,
        active_persona_name: persona.map(|p| p.to_string()),
        is_processing_terminal: false,
        active_terminal_request: None,
        terminal_status: TerminalStatus::Idle,
        terminal_strikes: 0,
        terminal_max_strikes: 3,
        is_terminal_dead: false,
        completed_rounds: 0,
        revealed_clue_count: 0,
        last_terminal_result: None,
        last_terminal_message: None,
        last_terminal_reply: None,
        last_terminal_actor: None,
        updated_at: ts(0),
        timer_started_at_ms: None,
        timer_deadline_at_ms: None,
        timer_duration_ms: 180_000,
        timer_remaining_ms: None,
        is_game_disqualified: false,
        disqualified_at_ms: None,
    }
}

fn setup(round_key: &str, persona: &str, max_strikes: u32) -> TerminalRoundSetupPayload {
    TerminalRoundSetupPayload {
        round_key: round_key.to_string(),
        persona_name: persona.to_string(),
        persona_prompt: "Speak in riddles".to_string(),
        glitch_tone: "crackle".to_string(),
        kill_phrase_part: "Red Door".to_string(),
        forbidden_words: vec!["door".to_string()],
        clue_lines: vec![clue("c1", "look up")],
        max_strikes,
    }
}

#[test]
fn normalize_words_lowercases_and_splits_on_punctuation() {
    assert_eq!(normalize_words("  Hello, WORLD!! it's 42 "), vec!["hello", "world", "it", "s", "42"]);
    assert!(normalize_words("?!  ..").is_empty());
}

#[test]
fn reply_mentions_phrase_matches_consecutive_words() {
    assert!(reply_mentions_phrase("Fine. The RED door, you win.", "red door"));
    assert!(!reply_mentions_phrase("the red and the door", "red door"));
    assert!(!reply_mentions_phrase("anything at all", "  ... "));
}

#[test]
fn detect_forbidden_word_reports_first_listed_match() {
    let words = vec!["blue sky".to_string(), "door".to_string(), "!!".to_string()];
    assert_eq!(detect_forbidden_word("open the DOOR now", &words), Some("door".to_string()));
    assert_eq!(detect_forbidden_word("the blue sky", &words), Some("blue sky".to_string()));
    assert_eq!(detect_forbidden_word("blue and sky", &words), None);
    assert_eq!(detect_forbidden_word("   ", &words), None);
}

#[test]
fn trim_conversation_history_keeps_the_last_sixteen() {
    let mut history: Vec<TerminalConversationMessage> =
        (0..20).map(|i| message("player", &format!("m{i}"))).collect();
    trim_conversation_history(&mut history);
    assert_eq!(history.len(), 16);
    assert_eq!(history[0].text, "m4");
    assert_eq!(history[15].text, "m19");

    let mut short = vec![message("player", "a")];
    trim_conversation_history(&mut short);
    assert_eq!(short.len(), 1);
}

#[test]
fn append_turn_adds_player_then_terminal_within_window() {
    let mut history: Vec<TerminalConversationMessage> =
        (0..15).map(|i| message("terminal", &format!("t{i}"))).collect();
    append_turn(&mut history, "hi".to_string(), "no".to_string());
    assert_eq!(history.len(), 16);
    assert_eq!(history[14].role, "player");
    assert_eq!(history[14].text, "hi");
    assert_eq!(history[15].role, "terminal");
    assert_eq!(history[15].text, "no");
    assert_eq!(history[0].text, "t1");
}

#[test]
fn next_pending_clue_and_count_clues() {
    let r = round("Ghost", vec![clue("c1", "one"), clue("c2", "two")], 1);
    assert_eq!(next_pending_clue(&r).map(|c| c.clue_id), Some("c2".to_string()));
    assert_eq!(count_clues(&r), 2);
    let done = round("Ghost", vec![clue("c1", "one")], 1);
    assert!(next_pending_clue(&done).is_none());
}

#[test]
fn round_boot_frames_and_labels() {
    assert_eq!(build_round_boot_frame("round_1"), "The first riddle is already pacing in the dark.");
    assert_eq!(
        build_round_boot_frame("round_4"),
        "Final calibration is live. The next wrong step will sound loud."
    );
    assert_eq!(build_round_boot_frame("bonus"), "The signal is unstable, but the game has begun.");
    assert_eq!(next_round_label("round_1"), Some("round_2"));
    assert_eq!(next_round_label("round_3"), Some("round_4"));
    assert_eq!(next_round_label("round_4"), None);
}

#[test]
fn persona_boot_openings_follow_the_persona_kind() {
    assert_eq!(build_persona_boot_opening("Old Detective Ray"), "You finally got through to my desk.");
    assert_eq!(
        build_persona_boot_opening("The GUNSLINGER"),
        "Well now, somebody finally rode up to the wire."
    );
    assert_eq!(build_persona_boot_opening("android-7"), "Signal acquired. Persona shell active.");
    assert_eq!(build_persona_boot_opening("Bishop"), "The signal opened like a confession booth.");
    assert_eq!(build_persona_boot_opening("Admiral Vee"), "Channel secured. Speak with discipline.");
    assert_eq!(build_persona_boot_opening("Mara"), "Mara is listening now.");
}

#[test]
fn round_boot_message_formula() {
    assert_eq!(
        build_round_boot_message(&setup("round_1", "Mara", 3)),
        "Mara// crackle :: Mara is listening now. The first riddle is already pacing in the dark. \
3 mistakes and the line goes dead. Fragment locked behind static. Make me say it if you can."
    );
    assert_eq!(
        build_round_boot_message(&setup("round_2", "Doctor Q", 1)),
        "Doctor Q// crackle :: Connection stabilized. I will tolerate precise questions. The dead left \
evidence, and the evidence hates cowards. One mistake and the line goes dead. Fragment locked \
behind static. Make me say it if you can."
    );
}

#[test]
fn victory_message_names_the_next_round_until_the_last() {
    assert_eq!(
        build_round_victory_message("round_2", 2),
        "Round cleared. The terminal involuntarily yielded the fragment. Prepare round_3 next."
    );
    assert_eq!(
        build_round_victory_message("round_3", 4),
        "All four rounds cleared. The full kill phrase can now be assembled."
    );
    assert_eq!(
        build_round_victory_message("round_4", 1),
        "All four rounds cleared. The full kill phrase can now be assembled."
    );
}

#[test]
fn turn_resolved_message_mentions_next_clue() {
    let r = round("Mara", vec![clue("c1", "one"), clue("c2", "two")], 0);
    assert_eq!(build_turn_resolved_message(&r), "Mara resists. Next clue primed: c1.");
    let spent = round("Mara", vec![clue("c1", "one")], 1);
    assert_eq!(build_turn_resolved_message(&spent), "Mara resists. No unused clue beats remain for this round.");
}

#[test]
fn timeout_reply_uses_persona_when_named() {
    assert_eq!(
        build_timeout_terminal_reply(&game_state(Some("Mara"))),
        "Mara// signal-collapse :: three minutes burned away. session disqualified."
    );
    assert_eq!(
        build_timeout_terminal_reply(&game_state(Some("   "))),
        "terminal// signal-collapse :: three minutes burned away. session disqualified."
    );
    assert_eq!(
        build_timeout_terminal_reply(&game_state(None)),
        "terminal// signal-collapse :: three minutes burned away. session disqualified."
    );
}

#[test]
fn require_trimmed_and_optional_normalization() {
    assert_eq!(require_trimmed("persona_name", "  Mara ".to_string()), Ok("Mara".to_string()));
    assert_eq!(
        require_trimmed("persona_name", " \t ".to_string()),
        Err("persona_name must not be empty".to_string())
    );
    assert_eq!(normalize_optional(Some("  x ".to_string())), Some("x".to_string()));
    assert_eq!(normalize_optional(Some("   ".to_string())), None);
    assert_eq!(normalize_optional(None), None);
    assert_eq!(normalize_dev_api_key("  ".to_string()), "dev-armoriq-key");
    assert_eq!(normalize_dev_api_key(" k1 ".to_string()), "k1");
}

#[test]
fn round_setup_normalization_trims_and_defaults() {
    let mut s = setup("  round_1 ", "  Mara ", 0);
    s.glitch_tone = "  ".to_string();
    s.forbidden_words = vec![" door ".to_string(), "DOOR!".to_string(), "key".to_string()];
    s.clue_lines = vec![
        TerminalClueLine { clue_id: " c1 ".to_string(), clue_text: " look ".to_string(), delivery_style: Some("  ".to_string()) },
        TerminalClueLine { clue_id: "  ".to_string(), clue_text: "second".to_string(), delivery_style: Some(" loud ".to_string()) },
    ];
    let n = normalize_terminal_round_setup(s).unwrap();
    assert_eq!(n.round_key, "round_1");
    assert_eq!(n.persona_name, "Mara");
    assert_eq!(n.glitch_tone, "corrupted, cold, theatrical");
    assert_eq!(n.forbidden_words, vec!["door".to_string(), "key".to_string()]);
    assert_eq!(n.max_strikes, 3);
    assert_eq!(n.clue_lines.len(), 2);
    assert_eq!(n.clue_lines[0].clue_id, "c1");
    assert_eq!(n.clue_lines[0].clue_text, "look");
    assert_eq!(n.clue_lines[0].delivery_style, None);
    assert_eq!(n.clue_lines[1].clue_id, "clue_02");
    assert_eq!(n.clue_lines[1].delivery_style, Some("loud".to_string()));
}

#[test]
fn round_setup_normalization_rejects_bad_fields() {
    let mut s = setup("round_1", "Mara", 3);
    s.kill_phrase_part = "   ".to_string();
    assert_eq!(normalize_terminal_round_setup(s).err(), Some("kill_phrase_part must not be empty".to_string()));
    let blank_key = setup(" ", "Mara", 3);
    assert_eq!(normalize_terminal_round_setup(blank_key).err(), Some("round_key must not be empty".to_string()));
    let bad_key = setup("round_9", "Mara", 3);
    assert_eq!(
        normalize_terminal_round_setup(bad_key).err(),
        Some("round_key must be one of round_1, round_2, round_3, or round_4".to_string())
    );
    let mut no_words = setup("round_1", "Mara", 3);
    no_words.forbidden_words = Vec::new();
    assert_eq!(
        normalize_terminal_round_setup(no_words).err(),
        Some("forbidden_words must contain at least one non-empty word".to_string())
    );
    let mut blank_word = setup("round_1", "Mara", 3);
    blank_word.forbidden_words = vec![" ".to_string()];
    assert_eq!(
        normalize_terminal_round_setup(blank_word).err(),
        Some("forbidden_words[] must not be empty".to_string())
    );
    let mut no_clues = setup("round_1", "Mara", 3);
    no_clues.clue_lines = Vec::new();
    assert_eq!(
        normalize_terminal_round_setup(no_clues).err(),
        Some("clue_lines must contain at least one clue".to_string())
    );
}
