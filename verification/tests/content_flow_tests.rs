use the_entity::content::{
    _round_content_callback, _villain_tts_callback, apply_round_content, apply_villain_audio,
    apply_villain_speech, clear_round_artifact_for_unknown_request,
};
use the_entity::models::{VillainSpeechCue, VillainSpeechGeminiResponse, VillainSpeechGenerationPayload};
use the_entity::state::{
    GenerationStatus, Identity, RoundContentArtifact, RoundGenerationCallbackSchedule,
    RoundGenerationPhase, RoundGenerationRequest, Timestamp, VillainSpeechArtifact,
    VillainSpeechCallbackSchedule, VillainSpeechPhase, VillainSpeechRequest,
    VillainTtsCallbackSchedule, VoiceConfig,
};

fn ts(ms: i64) -> Timestamp {
    Timestamp { micros_since_epoch: ms * 1000 }
}

fn request(round_key: &str, phase: RoundGenerationPhase, skeleton: Option<&str>, retries: u32) -> RoundGenerationRequest {
    RoundGenerationRequest {
        request_id: 7,
        artifact_key: format!("ABCDEF::{round_key}"),
        room_id: "ABCDEF".to_string(),
        game_id: 10_003,
        round_key: round_key.to_string(),
        player_identity: Identity { high: 0, low: 1 },
        request_payload_json: "{}".to_string(),
        response_schema_json: "{}".to_string(),
        phase,
        skeleton_payload_json: skeleton.map(|s| s.to_string()),
        response_payload_json: None,
        hidden_answer_candidate: None,
        error_message: None,
        created_at: ts(0),
        updated_at: ts(0),
        retries: Some(retries),
    }
}

fn artifact(round_key: &str) -> RoundContentArtifact {
    RoundContentArtifact {
        artifact_key: format!("ABCDEF::{round_key}"),
        room_id: "ABCDEF".to_string(),
        game_id: 10_003,
        round_key: round_key.to_string(),
        status: GenerationStatus::PendingGemini,
        request_payload_json: "{}".to_string(),
        response_payload_json: None,
        hidden_answer_candidate: None,
        active_request_id: Some(7),
        last_error: None,
        updated_at: ts(0),
    }
}

fn callback(status: u16, body: &str) -> RoundGenerationCallbackSchedule {
    RoundGenerationCallbackSchedule {
        scheduled_id: 1,
        scheduled_at: ts(0),
        request_id: 7,
        status_code: status,
        response_body: body.to_string(),
        transport_error: None,
    }
}

fn speech_request(phase: VillainSpeechPhase, retries: u32) -> VillainSpeechRequest {
    VillainSpeechRequest {
        request_id: 9,
        artifact_key: "ABCDEF::general".to_string(),
        room_id: "ABCDEF".to_string(),
        game_id: 10_003,
        player_identity: Identity { high: 0, low: 2 },
        round_key: None,
        request_payload_json: "{}".to_string(),
        phase,
        speech_cues_json: None,
        selected_cue_id: None,
        selected_speech_text: None,
        audio_base64: None,
        mime_type: None,
        tts_provider: None,
        error_message: None,
        created_at: ts(0),
        updated_at: ts(0),
        retries: Some(retries),
    }
}

fn speech_artifact() -> VillainSpeechArtifact {
    VillainSpeechArtifact {
        artifact_key: "ABCDEF::general".to_string(),
        room_id: "ABCDEF".to_string(),
        game_id: 10_003,
        round_key: None,
        status: GenerationStatus::PendingGemini,
        request_payload_json: "{}".to_string(),
        speech_cues_json: None,
        selected_cue_id: None,
        selected_speech_text: None,
        audio_base64: None,
        mime_type: None,
        tts_provider: None,
        active_request_id: Some(9),
        last_error: None,
        updated_at: ts(0),
    }
}

fn speech_callback(status: u16) -> VillainSpeechCallbackSchedule {
    VillainSpeechCallbackSchedule {
        scheduled_id: 2,
        scheduled_at: ts(0),
        request_id: 9,
        status_code: status,
        response_body: "{}".to_string(),
        transport_error: None,
    }
}

fn payload(synthesize: Option<bool>, cue: Option<&str>) -> VillainSpeechGenerationPayload {
    VillainSpeechGenerationPayload {
        round_key: None,
        villain_name: Some("Hex".to_string()),
        scene: None,
        tone: None,
        voice_id: None,
        voice_model_id: None,
        selected_cue_id: cue.map(|c| c.to_string()),
        synthesize_audio: synthesize,
        game_package: None,
        round_output: None,
        clue_contexts: None,
        extra_fields: Vec::new(),
    }
}

fn cues() -> VillainSpeechGeminiResponse {
    let cue = |id: &str, text: &str| VillainSpeechCue {
        cue_id: id.to_string(),
        round_key: "round_1".to_string(),
        linked_clue_id: "c1".to_string(),
        trigger: "t".to_string(),
        delivery_style: "low".to_string(),
        speech_text: text.to_string(),
    };
    VillainSpeechGeminiResponse { speech_cues: vec![cue("a", "Run."), cue("b", "Hide.")] }
}

fn voice() -> Option<VoiceConfig> {
    Some(VoiceConfig {
        config_key: 1,
        elevenlabs_api_base_url: "https://api.elevenlabs.io".to_string(),
        elevenlabs_api_key: "k".to_string(),
        elevenlabs_default_voice_id: "v".to_string(),
        elevenlabs_default_model_id: "m".to_string(),
    })
}

#[test]
fn round_content_is_stored_with_its_hidden_answer() {
    let w = apply_round_content(
        request("round_2", RoundGenerationPhase::PendingGeminiSkeleton, None, 0),
        artifact("round_2"),
        &callback(200, "{ \"validation_code\": \" 4471 \", \"b\": 1 }"),
        Err("not an envelope".to_string()),
        ts(5),
    )
    .unwrap();
    let q = w.request.unwrap();
    assert_eq!(q.phase, RoundGenerationPhase::Succeeded);
    assert_eq!(q.response_payload_json, Some("{\"b\":1,\"validation_code\":\" 4471 \"}".to_string()));
    assert_eq!(q.hidden_answer_candidate, Some("4471".to_string()));
    assert!(w.job.is_none());
    assert_eq!(w.artifacts.len(), 1);
    assert_eq!(w.artifacts[0].status, GenerationStatus::Succeeded);
    assert_eq!(w.artifacts[0].active_request_id, None);
    assert_eq!(w.artifacts[0].hidden_answer_candidate, Some("4471".to_string()));
}

#[test]
fn round_one_runs_skeleton_then_expansion() {
    let skeleton = "{\"persona_name\":\"P\",\"persona_paragraphs\":[],\"target_word\":\"lamp\",\
\"forbidden_words\":[],\"clues\":[],\"solution\":{}}";
    let first = apply_round_content(
        request("round_1", RoundGenerationPhase::PendingGeminiSkeleton, None, 2),
        artifact("round_1"),
        &callback(200, skeleton),
        Err("not an envelope".to_string()),
        ts(5),
    )
    .unwrap();
    let q = first.request.unwrap();
    assert_eq!(q.phase, RoundGenerationPhase::PendingGeminiExpansion);
    assert_eq!(q.retries, Some(0));
    assert!(q.skeleton_payload_json.is_some());
    assert!(first.artifacts.is_empty());
    assert_eq!(first.job.map(|j| j.request_id), Some(7));

    let second = apply_round_content(
        q,
        artifact("round_1"),
        &callback(200, "{\"manual\":{},\"decoder_walkthrough\":[]}"),
        Err("not an envelope".to_string()),
        ts(6),
    )
    .unwrap();
    let done = second.request.unwrap();
    assert_eq!(done.phase, RoundGenerationPhase::Succeeded);
    assert_eq!(done.hidden_answer_candidate, Some("lamp".to_string()));
    assert_eq!(
        done.response_payload_json,
        Some("{\"clues\":[],\"decoder_walkthrough\":[],\"forbidden_words\":[],\"manual\":{},\"persona_name\":\"P\",\
\"persona_paragraphs\":[],\"solution\":{},\"target_word\":\"lamp\"}".to_string())
    );
}

#[test]
fn round_content_failures_and_retries() {
    let retry = apply_round_content(
        request("round_3", RoundGenerationPhase::PendingGeminiSkeleton, None, 1),
        artifact("round_3"),
        &callback(429, ""),
        Err("x".to_string()),
        ts(5),
    )
    .unwrap();
    assert_eq!(retry.request.unwrap().retries, Some(2));
    assert!(retry.job.is_some());
    let failed = apply_round_content(
        request("round_3", RoundGenerationPhase::PendingGeminiSkeleton, None, 3),
        artifact("round_3"),
        &callback(429, "{\"error\":{\"message\":\"slow down\"}}"),
        Err("x".to_string()),
        ts(5),
    )
    .unwrap();
    assert!(failed.job.is_none());
    let q = failed.request.unwrap();
    assert_eq!(q.phase, RoundGenerationPhase::Failed);
    assert_eq!(q.error_message, Some("Gemini returned HTTP 429: slow down".to_string()));
    assert_eq!(failed.artifacts[0].status, GenerationStatus::Failed);
    assert_eq!(failed.artifacts[0].last_error, Some("Gemini returned HTTP 429: slow down".to_string()));
    let broken = apply_round_content(
        request("round_3", RoundGenerationPhase::PendingGeminiSkeleton, None, 0),
        artifact("round_3"),
        &callback(200, "{oops"),
        Err("x".to_string()),
        ts(5),
    )
    .unwrap();
    assert!(broken.request.unwrap().error_message.unwrap().starts_with("Invalid round content JSON: "));
}

#[test]
fn round_content_callback_is_scheduler_only_and_clears_orphans() {
    let refused = _round_content_callback(false, callback(200, "{}"), None, None, Vec::new(), Err("x".to_string()), ts(1));
    assert_eq!(refused.err(), Some("_round_content_callback may only be invoked by the scheduler".to_string()));
    let w = _round_content_callback(true, callback(200, "{}"), None, None, vec![artifact("round_2")], Err("x".to_string()), ts(1))
        .unwrap();
    assert_eq!(w.artifacts.len(), 1);
    assert_eq!(w.artifacts[0].status, GenerationStatus::Failed);
    assert_eq!(
        w.artifacts[0].last_error,
        Some("round content callback arrived after the request row was removed".to_string())
    );
    let mut other = artifact("round_4");
    other.active_request_id = Some(99);
    assert!(clear_round_artifact_for_unknown_request(vec![other], 7, "gone", ts(2)).is_empty());
}

#[test]
fn villain_speech_without_audio_succeeds_at_once() {
    let w = apply_villain_speech(
        speech_request(VillainSpeechPhase::PendingGemini, 0),
        speech_artifact(),
        &speech_callback(200),
        Ok(cues()),
        Ok(payload(None, Some("b"))),
        &voice(),
        ts(5),
    )
    .unwrap();
    let q = w.request.unwrap();
    assert_eq!(q.phase, VillainSpeechPhase::Succeeded);
    assert_eq!(q.selected_cue_id, Some("b".to_string()));
    assert_eq!(q.selected_speech_text, Some("Hide.".to_string()));
    assert_eq!(q.tts_provider, Some("none".to_string()));
    assert!(w.tts_job.is_none());
    assert_eq!(w.artifacts[0].status, GenerationStatus::Succeeded);
    assert_eq!(w.artifacts[0].active_request_id, None);
}

#[test]
fn villain_speech_requests_audio_only_when_voice_is_configured() {
    let asked = apply_villain_speech(
        speech_request(VillainSpeechPhase::PendingGemini, 2),
        speech_artifact(),
        &speech_callback(200),
        Ok(cues()),
        Ok(payload(Some(true), None)),
        &voice(),
        ts(5),
    )
    .unwrap();
    assert_eq!(asked.request.as_ref().unwrap().phase, VillainSpeechPhase::PendingTts);
    assert_eq!(asked.request.unwrap().retries, Some(0));
    assert_eq!(asked.tts_job.map(|j| j.request_id), Some(9));
    assert_eq!(asked.artifacts[0].status, GenerationStatus::PendingTts);
    let unconfigured = apply_villain_speech(
        speech_request(VillainSpeechPhase::PendingGemini, 0),
        speech_artifact(),
        &speech_callback(200),
        Ok(cues()),
        Ok(payload(Some(true), None)),
        &None,
        ts(5),
    )
    .unwrap();
    assert!(unconfigured.tts_job.is_none());
    assert_eq!(unconfigured.request.unwrap().tts_provider, Some("disabled".to_string()));
}

#[test]
fn villain_speech_failures() {
    let empty = apply_villain_speech(
        speech_request(VillainSpeechPhase::PendingGemini, 0),
        speech_artifact(),
        &speech_callback(200),
        Ok(VillainSpeechGeminiResponse { speech_cues: Vec::new() }),
        Ok(payload(None, None)),
        &None,
        ts(5),
    )
    .unwrap();
    assert_eq!(empty.request.unwrap().error_message, Some("villain speech generation returned no speech cues".to_string()));
    let invalid = apply_villain_speech(
        speech_request(VillainSpeechPhase::PendingGemini, 0),
        speech_artifact(),
        &speech_callback(200),
        Err("eof".to_string()),
        Ok(payload(None, None)),
        &None,
        ts(5),
    )
    .unwrap();
    assert_eq!(invalid.request.unwrap().error_message, Some("Invalid villain speech JSON: eof".to_string()));
    let http = apply_villain_speech(
        speech_request(VillainSpeechPhase::PendingGemini, 0),
        speech_artifact(),
        &speech_callback(503),
        Err("eof".to_string()),
        Ok(payload(None, None)),
        &None,
        ts(5),
    )
    .unwrap();
    assert_eq!(http.request.unwrap().error_message, Some("Gemini returned HTTP 503".to_string()));
    let bad_payload = apply_villain_speech(
        speech_request(VillainSpeechPhase::PendingGemini, 0),
        speech_artifact(),
        &speech_callback(200),
        Ok(cues()),
        Err("bad".to_string()),
        &None,
        ts(5),
    );
    assert_eq!(bad_payload.err(), Some("invalid villain speech payload JSON: bad".to_string()));
}

#[test]
fn villain_audio_is_stored_or_reported() {
    let tts = |status: u16| VillainTtsCallbackSchedule {
        scheduled_id: 3,
        scheduled_at: ts(0),
        request_id: 9,
        status_code: status,
        response_body_base64: "TWFu".to_string(),
        mime_type: Some("audio/mpeg".to_string()),
        transport_error: None,
    };
    let mut waiting = speech_artifact();
    waiting.status = GenerationStatus::PendingTts;
    let ok = apply_villain_audio(speech_request(VillainSpeechPhase::PendingTts, 0), waiting.clone(), &tts(200), ts(6));
    let q = ok.request.unwrap();
    assert_eq!(q.phase, VillainSpeechPhase::Succeeded);
    assert_eq!(q.audio_base64, Some("TWFu".to_string()));
    assert_eq!(q.tts_provider, Some("elevenlabs".to_string()));
    assert_eq!(ok.artifacts[0].mime_type, Some("audio/mpeg".to_string()));
    let retry = apply_villain_audio(speech_request(VillainSpeechPhase::PendingTts, 0), waiting.clone(), &tts(429), ts(6));
    assert_eq!(retry.request.unwrap().retries, Some(1));
    assert!(retry.tts_job.is_some());
    let failed = apply_villain_audio(speech_request(VillainSpeechPhase::PendingTts, 3), waiting, &tts(500), ts(6));
    assert_eq!(failed.request.unwrap().error_message, Some("ElevenLabs returned HTTP 500".to_string()));
    let refused = _villain_tts_callback(false, tts(200), None, None, Vec::new(), ts(6));
    assert_eq!(refused.err(), Some("_villain_tts_callback may only be invoked by the scheduler".to_string()));
}
