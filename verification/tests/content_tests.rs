use the_entity::content::{
    compose_round_one_final_payload, default_round_response_schema, extract_hidden_answer_candidate,
    extract_optional_round_key, format_round_artifact_key, format_villain_artifact_key,
    generate_clue_manual_for_room, generate_villain_speech_for_room, normalize_json_object,
    normalize_round_key, normalize_round_schema_json, parse_round_generation_result,
    repair_round_artifact_if_stale, select_speech_cue, speech_cues_json, start_round_generation,
    summarize_gemini_http_error,
};
use the_entity::models::{
    GeminiCandidate, GeminiContent, GeminiGenerateContentResponse, GeminiPart, VillainSpeechCue,
};
use the_entity::state::{
    GameRoom, GenerationStatus, Identity, RoomStatus, RoundContentArtifact, RoundGenerationPhase,
    Timestamp,
};

fn who(n: u128) -> Identity {
    Identity { high: 0, low: n }
}

fn ts(ms: i64) -> Timestamp {
    Timestamp { micros_since_epoch: ms * 1000 }
}

fn room(status: RoomStatus) -> GameRoom {
    GameRoom {
        room_id: "ABCDEF".to_string(),
        game_id: 10_003,
        host_identity: who(1),
        player_one: Some(who(1)),
        player_two: Some(who(2)),
        status,
        created_at: ts(0),
        updated_at: ts(0),
        terminated_at: None,
        timer_started_at_ms: None,
        timer_deadline_at_ms: None,
        timer_duration_ms: 180_000,
    }
}

fn cue(id: &str, text: &str) -> VillainSpeechCue {
    VillainSpeechCue {
        cue_id: id.to_string(),
        round_key: "round_1".to_string(),
        linked_clue_id: "c1".to_string(),
        trigger: "t".to_string(),
        delivery_style: "low".to_string(),
        speech_text: text.to_string(),
    }
}

fn envelope(text: &str) -> GeminiGenerateContentResponse {
    GeminiGenerateContentResponse {
        candidates: vec![GeminiCandidate {
            content: GeminiContent { role: Some("model".to_string()), parts: vec![GeminiPart { text: Some(text.to_string()) }] },
        }],
    }
}

#[test]
fn round_keys_are_trimmed_and_lowercased() {
    assert_eq!(normalize_round_key("  ROUND_3 "), Ok("round_3".to_string()));
    assert_eq!(
        normalize_round_key(" bonus "),
        Err("round_key must be one of round_1, round_2, round_3, or round_4; received  bonus ".to_string())
    );
}

#[test]
fn default_schemas_depend_on_the_round() {
    let r2 = default_round_response_schema("round_2").unwrap();
    assert!(r2.contains("\"type\""));
    assert!(r2.contains("object"));
    let r1 = default_round_response_schema("Round_1").unwrap();
    assert!(r1.len() > r2.len());
    assert!(default_round_response_schema("round_5").is_err());
}

#[test]
fn artifact_keys_join_room_and_scope() {
    assert_eq!(format_round_artifact_key("ABCDEF", "round_2"), "ABCDEF::round_2");
    assert_eq!(format_villain_artifact_key("ABCDEF", Some("round_4")), "ABCDEF::round_4");
    assert_eq!(format_villain_artifact_key("ABCDEF", None), "ABCDEF::general");
}

#[test]
fn json_objects_are_checked_and_made_compact() {
    assert_eq!(
        normalize_json_object("request_payload_json", " { \"b\": 1, \"a\": [1, 2] } ".to_string()),
        Ok("{\"a\":[1,2],\"b\":1}".to_string())
    );
    assert_eq!(
        normalize_json_object("request_payload_json", "  ".to_string()),
        Err("request_payload_json must not be empty".to_string())
    );
    assert_eq!(
        normalize_json_object("request_payload_json", "[1]".to_string()),
        Err("request_payload_json must be a JSON object".to_string())
    );
    assert!(normalize_json_object("request_payload_json", "{oops".to_string())
        .err()
        .unwrap()
        .starts_with("request_payload_json must be valid JSON: "));
}

#[test]
fn round_schemas_default_when_blank() {
    assert_eq!(normalize_round_schema_json("round_2", " [ 1 ] ".to_string()), Ok("[1]".to_string()));
    let blank = normalize_round_schema_json("round_3", "   ".to_string()).unwrap();
    assert!(blank.starts_with('{'));
    assert!(normalize_round_schema_json("round_2", "{".to_string())
        .err()
        .unwrap()
        .starts_with("response_schema_json must be valid JSON: "));
}

#[test]
fn optional_round_keys_in_payloads() {
    assert_eq!(extract_optional_round_key("{\"round_key\": \" Round_2 \"}"), Ok(Some("round_2".to_string())));
    assert_eq!(extract_optional_round_key("{\"scene\": \"x\"}"), Ok(None));
    assert_eq!(
        extract_optional_round_key("{\"round_key\": 2}"),
        Err("request_payload_json.round_key must be a string when provided".to_string())
    );
}

#[test]
fn hidden_answer_candidates_are_looked_up_in_order() {
    assert_eq!(
        extract_hidden_answer_candidate("{\"target_word\": \"lamp\", \"validation_answer\": \"  \", \"kill_phrase_3\": \" Ash \"}"),
        Some("Ash".to_string())
    );
    assert_eq!(extract_hidden_answer_candidate("{\"hidden_answer\": 5}"), None);
    assert_eq!(extract_hidden_answer_candidate("not json"), None);
}

#[test]
fn gemini_http_errors_are_summarized() {
    assert_eq!(
        summarize_gemini_http_error(429, "{\"error\": {\"message\": \"  quota hit \"}}"),
        "Gemini returned HTTP 429: quota hit"
    );
    assert_eq!(summarize_gemini_http_error(500, "  bad \n  gateway "), "Gemini returned HTTP 500: bad gateway");
    assert_eq!(summarize_gemini_http_error(503, "   "), "Gemini returned HTTP 503");
    let long = "x".repeat(300);
    assert_eq!(summarize_gemini_http_error(400, &long), format!("Gemini returned HTTP 400: {}...", "x".repeat(280)));
}

#[test]
fn round_one_payload_merges_skeleton_and_expansion() {
    let skeleton = "{\"persona_name\":\"P\",\"persona_paragraphs\":[\"a\"],\"target_word\":\"w\",\
\"forbidden_words\":[\"x\"],\"clues\":[],\"solution\":{\"s\":1},\"extra\":true}";
    let expansion = "{\"manual\":{\"m\":1},\"decoder_walkthrough\":[]}";
    assert_eq!(
        compose_round_one_final_payload(skeleton, expansion),
        Ok("{\"clues\":[],\"decoder_walkthrough\":[],\"forbidden_words\":[\"x\"],\"manual\":{\"m\":1},\
\"persona_name\":\"P\",\"persona_paragraphs\":[\"a\"],\"solution\":{\"s\":1},\"target_word\":\"w\"}"
            .to_string())
    );
    assert_eq!(
        compose_round_one_final_payload(skeleton, "{\"manual\":{}}"),
        Err("round 1 expansion payload is missing decoder_walkthrough".to_string())
    );
    assert_eq!(
        compose_round_one_final_payload("[]", expansion),
        Err("round 1 skeleton payload must be a JSON object".to_string())
    );
    assert_eq!(
        compose_round_one_final_payload("{\"persona_name\":\"P\"}", expansion),
        Err("round 1 skeleton is missing persona_paragraphs".to_string())
    );
}

#[test]
fn speech_cues_are_chosen_by_id_or_first() {
    let cues = vec![cue("a", "first"), cue("b", "second")];
    assert_eq!(select_speech_cue(&cues, Some(" b ")), Ok(("b".to_string(), "second".to_string())));
    assert_eq!(select_speech_cue(&cues, Some("zzz")), Ok(("a".to_string(), "first".to_string())));
    assert_eq!(select_speech_cue(&cues, None), Ok(("a".to_string(), "first".to_string())));
    assert_eq!(
        select_speech_cue(&Vec::new(), None),
        Err("villain speech response did not include any cues".to_string())
    );
    assert_eq!(
        speech_cues_json(&vec![cue("a", "say \"hi\"")]),
        "[{\"cue_id\":\"a\",\"round_key\":\"round_1\",\"linked_clue_id\":\"c1\",\"trigger\":\"t\",\"delivery_style\":\"low\",\"speech_text\":\"say \\\"hi\\\"\"}]"
    );
}

#[test]
fn round_generation_answers_are_read() {
    assert_eq!(parse_round_generation_result("{ \"a\" : 1 }", Err("unused".to_string())), Ok("{\"a\":1}".to_string()));
    let body = "{\"candidates\":[{\"finishReason\":\"STOP\",\"content\":{\"parts\":[{\"text\":\"{}\"}]}}]}";
    assert_eq!(
        parse_round_generation_result(body, Ok(envelope(" { \"k\" : [true] } "))),
        Ok("{\"k\":[true]}".to_string())
    );
    let cut = "{\"candidates\":[{\"finishReason\":\"MAX_TOKENS\"}]}";
    assert_eq!(
        parse_round_generation_result(cut, Ok(envelope("{\"k\":"))),
        Err("Gemini candidate incomplete (finishReason=MAX_TOKENS); retry generation with a smaller payload".to_string())
    );
}

#[test]
fn clue_manual_generation_starts_pending() {
    let started = generate_clue_manual_for_room(
        " abcdef ".to_string(), Some(room(RoomStatus::Ready)), "ROUND_2".to_string(),
        "{\"theme\": \"noir\"}".to_string(), "".to_string(), None, false, who(1), ts(9),
    )
    .unwrap();
    assert_eq!(started.request.artifact_key, "ABCDEF::round_2");
    assert_eq!(started.request.round_key, "round_2");
    assert_eq!(started.request.phase, RoundGenerationPhase::PendingGeminiSkeleton);
    assert_eq!(started.request.request_payload_json, "{\"theme\":\"noir\"}");
    assert_eq!(started.request.retries, Some(0));
    assert_eq!(started.artifact.status, GenerationStatus::PendingGemini);
    let mut artifact = started.artifact.clone();
    let job = start_round_generation(&mut artifact, &started.request, ts(9));
    assert_eq!(artifact.active_request_id, Some(started.request.request_id));
    assert_eq!(job.request_id, started.request.request_id);

    let busy = generate_clue_manual_for_room(
        "ABCDEF".to_string(), Some(room(RoomStatus::Ready)), "round_2".to_string(),
        "{}".to_string(), "".to_string(), Some(artifact.clone()), true, who(1), ts(10),
    );
    assert_eq!(busy.err(), Some("round content generation is already in progress for room ABCDEF round_2".to_string()));
    assert!(generate_clue_manual_for_room(
        "ABCDEF".to_string(), Some(room(RoomStatus::Ready)), "round_2".to_string(),
        "{}".to_string(), "".to_string(), Some(artifact), false, who(1), ts(10),
    )
    .is_ok());
}

#[test]
fn clue_manual_generation_refusals() {
    let closed = generate_clue_manual_for_room(
        "ABCDEF".to_string(), Some(room(RoomStatus::Terminated)), "round_2".to_string(),
        "{}".to_string(), "".to_string(), None, false, who(1), ts(9),
    );
    assert_eq!(closed.err(), Some("room ABCDEF has already been terminated".to_string()));
    let missing = generate_clue_manual_for_room(
        "abcdef".to_string(), None, "round_2".to_string(), "{}".to_string(), "".to_string(), None, false, who(1), ts(9),
    );
    assert_eq!(missing.err(), Some("room ABCDEF does not exist".to_string()));
    let blank_id = generate_clue_manual_for_room(
        "  ".to_string(), None, "round_2".to_string(), "{}".to_string(), "".to_string(), None, false, who(1), ts(9),
    );
    assert_eq!(blank_id.err(), Some("room_id must not be empty".to_string()));
    let not_object = generate_clue_manual_for_room(
        "ABCDEF".to_string(), Some(room(RoomStatus::Ready)), "round_2".to_string(), "3".to_string(), "".to_string(), None, false, who(1), ts(9),
    );
    assert_eq!(not_object.err(), Some("request_payload_json must be a JSON object".to_string()));
}

#[test]
fn villain_speech_generation_starts_and_refuses() {
    let started = generate_villain_speech_for_room(
        "abcdef".to_string(), Some(room(RoomStatus::Ready)), "{\"round_key\": \"Round_4\", \"scene\": \"end\"}".to_string(),
        None, false, who(2), ts(3),
    )
    .unwrap();
    assert_eq!(started.request.artifact_key, "ABCDEF::round_4");
    assert_eq!(started.request.round_key, Some("round_4".to_string()));
    assert_eq!(started.artifact.status, GenerationStatus::PendingGemini);
    let general = generate_villain_speech_for_room(
        "ABCDEF".to_string(), Some(room(RoomStatus::Ready)), "{}".to_string(), None, false, who(2), ts(3),
    )
    .unwrap();
    assert_eq!(general.request.artifact_key, "ABCDEF::general");
    let bad_round = generate_villain_speech_for_room(
        "ABCDEF".to_string(), Some(room(RoomStatus::Ready)), "{\"round_key\": 1}".to_string(), None, false, who(2), ts(3),
    );
    assert_eq!(bad_round.err(), Some("request_payload_json.round_key must be a string when provided".to_string()));
}

#[test]
fn stale_artifacts_are_released() {
    let mut artifact = RoundContentArtifact {
        artifact_key: "ABCDEF::round_2".to_string(),
        room_id: "ABCDEF".to_string(),
        game_id: 10_003,
        round_key: "round_2".to_string(),
        status: GenerationStatus::PendingGemini,
        request_payload_json: "{}".to_string(),
        response_payload_json: None,
        hidden_answer_candidate: None,
        active_request_id: Some(4),
        last_error: None,
        updated_at: ts(0),
    };
    assert!(!repair_round_artifact_if_stale(&mut artifact, true, ts(5)));
    assert_eq!(artifact.status, GenerationStatus::PendingGemini);
    assert!(repair_round_artifact_if_stale(&mut artifact, false, ts(5)));
    assert_eq!(artifact.status, GenerationStatus::Failed);
    assert_eq!(artifact.active_request_id, None);
    assert_eq!(
        artifact.last_error,
        Some("Recovered from a stale round content lock left by a missing request".to_string())
    );
}
