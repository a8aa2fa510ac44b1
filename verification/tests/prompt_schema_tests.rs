use the_entity::content_http::{
    load_request_response_schema, round_generation_max_output_tokens,
    round_generation_temperature_millis, villain_tts_result,
};
use the_entity::json::quote_json;
use the_entity::models::{TerminalClueLine, TerminalConversationMessage};
use the_entity::prompts::{build_terminal_persona_prompt, get_requested_persona};
use the_entity::schemas::{
    gemini_terminal_response_schema, gemini_validator_response_schema, open_object_schema,
};
use the_entity::state::{
    Identity, RoundGenerationPhase, RoundGenerationRequest, TerminalRequest, TerminalRequestPhase,
    TerminalRoundState, Timestamp,
};

fn ts(ms: i64) -> Timestamp {
    Timestamp { micros_since_epoch: ms * 1000 }
}

fn generation(round_key: &str, phase: RoundGenerationPhase, schema: &str) -> RoundGenerationRequest {
    RoundGenerationRequest {
        request_id: 1,
        artifact_key: format!("ABCDEF::{round_key}"),
        room_id: "ABCDEF".to_string(),
        game_id: 10_003,
        round_key: round_key.to_string(),
        player_identity: Identity { high: 0, low: 1 },
        request_payload_json: "{}".to_string(),
        response_schema_json: schema.to_string(),
        phase,
        skeleton_payload_json: None,
        response_payload_json: None,
        hidden_answer_candidate: None,
        error_message: None,
        created_at: ts(0),
        updated_at: ts(0),
        retries: Some(0),
    }
}

fn terminal_request(input: &str) -> TerminalRequest {
    TerminalRequest {
        request_id: 4,
        game_id: 1,
        player_identity: Identity { high: 0, low: 2 },
        phase: TerminalRequestPhase::PendingGeminiValidator,
        player_input: input.to_string(),
        hidden_answer_snapshot: "red door".to_string(),
        round_key_snapshot: None,
        persona_name_snapshot: None,
        forbidden_words_snapshot: None,
        conversation_history_snapshot: None,
        queued_clue_id_snapshot: None,
        queued_clue_text_snapshot: None,
        armoriq_allowed: None,
        armoriq_block_reason: None,
        armoriq_raw_response: None,
        gemini_raw_response: None,
        validator_success: None,
        validator_reason: None,
        terminal_reply: None,
        spoke_kill_phrase: None,
        strike_count_after: None,
        created_at: ts(0),
        updated_at: ts(0),
        retries: None,
    }
}

fn persona_round(history: usize, next: u32) -> TerminalRoundState {
    TerminalRoundState {
        game_id: 1,
        round_key: "round_1".to_string(),
        persona_name: "Mara".to_string(),
        persona_prompt: "A drowned lighthouse keeper.".to_string(),
        glitch_tone: "brine".to_string(),
        kill_phrase_part: "red door".to_string(),
        forbidden_words: vec!["door".to_string(), "red".to_string()],
        clue_lines: vec![TerminalClueLine { clue_id: "c1".to_string(), clue_text: "count the lamps".to_string(), delivery_style: None }],
        conversation_history: (0..history)
            .map(|i| TerminalConversationMessage { role: "player".to_string(), text: format!("m{i}") })
            .collect(),
        next_clue_index: next,
        max_strikes: 3,
        strikes: 0,
        player_dead: false,
        round_completed: false,
        created_at: ts(0),
        updated_at: ts(0),
    }
}

#[test]
fn persona_prompt_carries_the_round_and_the_turn() {
    let prompt = build_terminal_persona_prompt(&terminal_request("who are you?"), &persona_round(0, 0));
    assert!(prompt.starts_with("Role & Objective:\nYou are the live terminal intelligence for a horror puzzle round.\n"));
    assert!(prompt.contains("\nPersona name:\nMara\n\nPersona instruction:\nA drowned lighthouse keeper.\n\nGlitch tone:\nbrine\n"));
    assert!(prompt.contains("\n2. Hidden kill-phrase fragment: red door\n"));
    assert!(prompt.contains("\n6. Forbidden hot words to avoid volunteering: door, red\n"));
    assert!(prompt.contains(
        "\nClue delivery:\nReveal exactly one clue beat in this reply.\nclue_id: c1\nclue_text: count the lamps\ndelivery_style: glitchy, ominous, indirect\n"
    ));
    assert!(prompt.contains("\nConversation so far:\nNo prior turns.\n\nLatest player input:\nwho are you?\n"));
    assert!(prompt.ends_with("Ensure the JSON string is fully closed and valid."));
}

#[test]
fn persona_prompt_shows_the_last_eight_turns() {
    let prompt = build_terminal_persona_prompt(&terminal_request("x"), &persona_round(10, 1));
    assert!(prompt.contains("\nConversation so far:\nplayer: m2\nplayer: m3\nplayer: m4\nplayer: m5\nplayer: m6\nplayer: m7\nplayer: m8\nplayer: m9\n\n"));
    assert!(!prompt.contains("player: m1\n"));
    assert!(prompt.contains("No unrevealed clues remain. Focus on persona pressure and evasive roleplay only."));
}

#[test]
fn requested_persona_is_found_under_any_spelling() {
    assert_eq!(get_requested_persona("{\"personaName\": \"  Vex \"}"), Ok("Vex".to_string()));
    assert_eq!(get_requested_persona("{\"requestedPersona\": \"A\", \"persona_name\": \"B\"}"), Ok("A".to_string()));
    let missing = Err("round_1 generation requires requested_persona in request_payload_json".to_string());
    assert_eq!(get_requested_persona("{\"requested_persona\": 3, \"persona_name\": \"B\"}"), missing);
    assert_eq!(get_requested_persona("{\"persona_name\": \"  \"}"), missing);
    assert_eq!(get_requested_persona("{}"), missing);
}

#[test]
fn fixed_schemas_read_as_written() {
    assert_eq!(
        gemini_terminal_response_schema(),
        "{\"type\":\"object\",\"additionalProperties\":false,\"properties\":{\"terminal_reply\":{\"type\":\"string\"},\
\"spoke_kill_phrase\":{\"type\":\"boolean\"}},\"required\":[\"terminal_reply\",\"spoke_kill_phrase\"]}"
    );
    assert_eq!(
        gemini_validator_response_schema(),
        "{\"type\":\"object\",\"additionalProperties\":false,\"properties\":{\"success\":{\"type\":\"boolean\"},\
\"reason\":{\"type\":\"string\"}},\"required\":[\"success\",\"reason\"]}"
    );
    assert_eq!(open_object_schema(), "{\"type\":\"object\",\"additionalProperties\":true}");
}

#[test]
fn json_strings_are_escaped() {
    assert_eq!(quote_json("a\"b\\c\nd\u{1}"), "\"a\\\"b\\\\c\\nd\\u0001\"");
    assert_eq!(quote_json("tab\there"), "\"tab\\there\"");
    assert_eq!(quote_json("é"), "\"é\"");
}

#[test]
fn generation_settings_per_round() {
    let skeleton = generation("round_1", RoundGenerationPhase::PendingGeminiSkeleton, "{}");
    let expansion = generation("round_1", RoundGenerationPhase::PendingGeminiExpansion, "{}");
    assert_eq!(round_generation_temperature_millis(&skeleton), 650);
    assert_eq!(round_generation_temperature_millis(&expansion), 780);
    assert_eq!(round_generation_max_output_tokens(&skeleton), 5600);
    assert_eq!(round_generation_max_output_tokens(&expansion), 8192);
    let r4 = generation("round_4", RoundGenerationPhase::PendingGeminiSkeleton, "{}");
    assert_eq!(round_generation_temperature_millis(&r4), 550);
    assert_eq!(round_generation_max_output_tokens(&r4), 1600);
    assert_eq!(round_generation_max_output_tokens(&generation("round_2", RoundGenerationPhase::PendingGeminiSkeleton, "{}")), 2200);
}

#[test]
fn stored_schemas_must_parse() {
    let ok = generation("round_2", RoundGenerationPhase::PendingGeminiSkeleton, "{\"type\":\"object\"}");
    assert_eq!(load_request_response_schema(&ok), Ok("{\"type\":\"object\"}".to_string()));
    let bad = generation("round_2", RoundGenerationPhase::PendingGeminiSkeleton, "{");
    assert!(load_request_response_schema(&bad)
        .err()
        .unwrap()
        .starts_with("failed to parse stored response schema for round round_2: "));
}

#[test]
fn speech_audio_is_carried_as_base64() {
    let cb = villain_tts_result(9, 200, b"Man".to_vec(), Some("audio/mpeg".to_string()), ts(4));
    assert_eq!(cb.response_body_base64, "TWFu");
    assert_eq!(cb.request_id, 9);
    assert_eq!(cb.status_code, 200);
    assert_eq!(cb.mime_type, Some("audio/mpeg".to_string()));
    assert_eq!(villain_tts_result(9, 200, vec![0xff, 0x00], None, ts(4)).response_body_base64, "/wA=");
    assert_eq!(villain_tts_result(9, 200, Vec::new(), None, ts(4)).response_body_base64, "");
}
