//! The outbound hops of content generation: the Gemini calls for round packages and villain
//! speech, the ElevenLabs call for villain audio, and the rows that hand their results back.
use vstd::prelude::*;

use crate::config::{strip_trailing, without_trailing_slashes};
use crate::content::round_key_of;
use crate::http::{gemini_generate_url, gemini_url, header_views, json_post, require_non_empty, GeminiCall, HttpCall};
use crate::json::{json_parse_error, json_quoted, json_syntax_error, push_json_string};
use crate::models::VillainSpeechGenerationPayload;
use crate::prompts::{build_round_generation_prompt, build_villain_speech_prompt, round_generation_prompt, villain_prompt};
use crate::schemas::{
    expansion_schema_json, round_one_expansion_response_schema, round_one_skeleton_response_schema,
    skeleton_schema_json, villain_speech_response_schema, villain_speech_schema_json,
};
use crate::state::{
    RoundGenerationCallbackSchedule, RoundGenerationPhase, RoundGenerationRequest, ServerConfig,
    Timestamp, VillainSpeechCallbackSchedule, VillainSpeechPhase, VillainSpeechRequest,
    VillainTtsCallbackSchedule, VoiceConfig, ACTIVE_SERVER_CONFIG_KEY, ACTIVE_VOICE_CONFIG_KEY,
};
use crate::text::{cat, cat3, decimal, str_eq, trim, u64_to_decimal};

verus! {

broadcast use vstd::string::group_string_axioms;

// ---------------------------------------------------------------------------------------------
// Settings
// ---------------------------------------------------------------------------------------------

pub open spec fn missing_server_config_for_content() -> Seq<char> {
    "ServerConfig row "@ + decimal(ACTIVE_SERVER_CONFIG_KEY as nat)
        + " is missing; configure Gemini integrations before generating content"@
}

pub open spec fn missing_voice_config() -> Seq<char> {
    "VoiceConfig row "@ + decimal(ACTIVE_VOICE_CONFIG_KEY as nat)
        + " is missing; configure ElevenLabs before synthesizing villain audio"@
}

/// The stored server configuration, which content generation needs.
pub fn load_server_config(config: Option<ServerConfig>) -> (r: Result<ServerConfig, String>)
    ensures
        config matches Some(c) ==> r == Ok::<ServerConfig, String>(c),
        config is None ==> (r matches Err(e) && e@ == missing_server_config_for_content()),
{
    match config {
        Some(c) => Ok(c),
        None => {
            let key = u64_to_decimal(ACTIVE_SERVER_CONFIG_KEY as u64);
            Err(cat3("ServerConfig row ", key.as_str(), " is missing; configure Gemini integrations before generating content"))
        },
    }
}

/// The stored ElevenLabs settings, which villain audio needs.
pub fn load_voice_config(config: Option<VoiceConfig>) -> (r: Result<VoiceConfig, String>)
    ensures
        config matches Some(c) ==> r == Ok::<VoiceConfig, String>(c),
        config is None ==> (r matches Err(e) && e@ == missing_voice_config()),
{
    match config {
        Some(c) => Ok(c),
        None => {
            let key = u64_to_decimal(ACTIVE_VOICE_CONFIG_KEY as u64);
            Err(cat3("VoiceConfig row ", key.as_str(), " is missing; configure ElevenLabs before synthesizing villain audio"))
        },
    }
}

// ---------------------------------------------------------------------------------------------
// Round content calls
// ---------------------------------------------------------------------------------------------

/// The schema a round generation answer must follow: the stage schemas of round 1, the schema
/// stored with the request otherwise (none for an unknown round).
pub open spec fn round_schema(request: RoundGenerationRequest) -> Result<Option<Seq<char>>, Seq<char>> {
    let k = request.round_key@;
    if k == "round_1"@ && request.phase == RoundGenerationPhase::PendingGeminiSkeleton {
        Ok(Some(skeleton_schema_json()))
    } else if k == "round_1"@ && request.phase == RoundGenerationPhase::PendingGeminiExpansion {
        Ok(Some(expansion_schema_json()))
    } else if k == "round_1"@ || k == "round_2"@ || k == "round_3"@ || k == "round_4"@ {
        match stored_schema(request) {
            Ok(s) => Ok(Some(s)),
            Err(m) => Err(m),
        }
    } else {
        Ok(None)
    }
}

/// The schema stored with a request, which must be valid JSON.
pub open spec fn stored_schema(request: RoundGenerationRequest) -> Result<Seq<char>, Seq<char>> {
    match json_syntax_error(request.response_schema_json@) {
        Some(e) => Err("failed to parse stored response schema for round "@ + request.round_key@ + ": "@ + e),
        None => Ok(request.response_schema_json@),
    }
}

pub fn load_request_response_schema(request: &RoundGenerationRequest) -> (r: Result<String, String>)
    ensures
        stored_schema(*request) matches Ok(s) ==> (r matches Ok(t) && t@ == s),
        stored_schema(*request) matches Err(m) ==> (r matches Err(e) && e@ == m),
{
    match json_parse_error(request.response_schema_json.as_str()) {
        Some(err) => {
            let mut m = cat("failed to parse stored response schema for round ", request.round_key.as_str());
            m.append(": ");
            m.append(err.as_str());
            Err(m)
        },
        None => Ok(request.response_schema_json.clone()),
    }
}

pub fn round_generation_response_schema(request: &RoundGenerationRequest) -> (r: Result<Option<String>, String>)
    ensures
        round_schema(*request) matches Ok(o) ==> (r matches Ok(t) && crate::text::opt_view(t) == o),
        round_schema(*request) matches Err(m) ==> (r matches Err(e) && e@ == m),
{
    let k = request.round_key.as_str();
    if str_eq(k, "round_1") && request.phase == RoundGenerationPhase::PendingGeminiSkeleton {
        return Ok(Some(round_one_skeleton_response_schema()));
    }
    if str_eq(k, "round_1") && request.phase == RoundGenerationPhase::PendingGeminiExpansion {
        return Ok(Some(round_one_expansion_response_schema()));
    }
    if str_eq(k, "round_1") || str_eq(k, "round_2") || str_eq(k, "round_3") || str_eq(k, "round_4") {
        let s = load_request_response_schema(request)?;
        return Ok(Some(s));
    }
    Ok(None)
}

/// The sampling temperature of a round generation call, in thousandths.
pub open spec fn round_temperature_millis(request: RoundGenerationRequest) -> u32 {
    let k = request.round_key@;
    if k == "round_1"@ {
        if request.phase == RoundGenerationPhase::PendingGeminiSkeleton {
            650
        } else {
            780
        }
    } else if k == "round_2"@ {
        800
    } else if k == "round_3"@ {
        750
    } else if k == "round_4"@ {
        550
    } else {
        700
    }
}

pub fn round_generation_temperature_millis(request: &RoundGenerationRequest) -> (r: u32)
    ensures
        r == round_temperature_millis(*request),
{
    let k = request.round_key.as_str();
    if str_eq(k, "round_1") {
        if request.phase == RoundGenerationPhase::PendingGeminiSkeleton {
            650
        } else {
            780
        }
    } else if str_eq(k, "round_2") {
        800
    } else if str_eq(k, "round_3") {
        750
    } else if str_eq(k, "round_4") {
        550
    } else {
        700
    }
}

/// The output budget of a round generation call.
pub open spec fn round_max_tokens(request: RoundGenerationRequest) -> u32 {
    let k = request.round_key@;
    if k == "round_1"@ {
        if request.phase == RoundGenerationPhase::PendingGeminiSkeleton {
            5600
        } else {
            8192
        }
    } else if k == "round_2"@ || k == "round_3"@ {
        2200
    } else if k == "round_4"@ {
        1600
    } else {
        1800
    }
}

pub fn round_generation_max_output_tokens(request: &RoundGenerationRequest) -> (r: u32)
    ensures
        r == round_max_tokens(*request),
{
    let k = request.round_key.as_str();
    if str_eq(k, "round_1") {
        if request.phase == RoundGenerationPhase::PendingGeminiSkeleton {
            5600
        } else {
            8192
        }
    } else if str_eq(k, "round_2") || str_eq(k, "round_3") {
        2200
    } else if str_eq(k, "round_4") {
        1600
    } else {
        1800
    }
}

/// Why a Gemini content call cannot be made with these settings and this model.
pub open spec fn content_settings_error(config: ServerConfig, model_label: Seq<char>, model: Seq<char>) -> Option<Seq<char>> {
    if trim(config.gemini_api_base_url@).len() == 0 {
        Some("ServerConfig.gemini_api_base_url"@ + " must not be empty"@)
    } else if trim(config.gemini_api_key@).len() == 0 {
        Some("ServerConfig.gemini_api_key"@ + " must not be empty"@)
    } else if trim(model).len() == 0 {
        Some(model_label + " must not be empty"@)
    } else {
        None
    }
}

/// Why the Gemini call of a round generation request cannot be built, if it cannot.
pub open spec fn round_content_error(config: ServerConfig, request: RoundGenerationRequest) -> Option<Seq<char>> {
    match content_settings_error(
        config,
        "ServerConfig.gemini_clue_generator_model"@,
        config.gemini_clue_generator_model@,
    ) {
        Some(m) => Some(m),
        None => match round_generation_prompt(request) {
            Err(m) => Some(m),
            Ok(_) => match round_schema(request) {
                Err(m) => Some(m),
                Ok(_) => None,
            },
        },
    }
}

/// The Gemini call of a round generation request (which can be built).
pub open spec fn round_content_call(config: ServerConfig, request: RoundGenerationRequest, call: GeminiCall) -> bool {
    &&& call.url@ == gemini_url(config.gemini_api_base_url@, config.gemini_clue_generator_model@, config.gemini_api_key@)
    &&& call.prompt@ == round_generation_prompt(request)->Ok_0
    &&& crate::text::opt_view(call.response_schema) == round_schema(request)->Ok_0
    &&& call.max_output_tokens == round_max_tokens(request)
    &&& call.temperature_millis == round_temperature_millis(request)
}

/// Builds the Gemini call of a round generation request with the clue generator model.
pub fn build_round_content_http_request(config: &ServerConfig, request: &RoundGenerationRequest) -> (r: Result<GeminiCall, String>)
    ensures
        round_content_error(*config, *request) matches Some(m) ==> (r matches Err(e) && e@ == m),
        round_content_error(*config, *request) is None ==> (r matches Ok(call) && round_content_call(*config, *request, call)),
{
    require_non_empty("ServerConfig.gemini_api_base_url", config.gemini_api_base_url.as_str())?;
    require_non_empty("ServerConfig.gemini_api_key", config.gemini_api_key.as_str())?;
    require_non_empty("ServerConfig.gemini_clue_generator_model", config.gemini_clue_generator_model.as_str())?;
    let prompt = build_round_generation_prompt(request)?;
    let max_output_tokens = round_generation_max_output_tokens(request);
    let response_schema = round_generation_response_schema(request)?;
    let url = gemini_generate_url(
        config.gemini_api_base_url.as_str(),
        config.gemini_clue_generator_model.as_str(),
        config.gemini_api_key.as_str(),
    );
    Ok(
        GeminiCall {
            url,
            prompt,
            response_schema,
            max_output_tokens,
            temperature_millis: round_generation_temperature_millis(request),
        },
    )
}

/// Builds the Gemini call of round generation request `request_id` (the row found, if any).
pub fn prepare_round_content_http_request(request_id: u64, request: Option<RoundGenerationRequest>, config: Option<ServerConfig>) -> (r: Result<(u64, GeminiCall), String>)
    ensures
        request is None ==> (r matches Err(e) && e@ == "round generation request "@ + decimal(request_id as nat)
            + " no longer exists"@),
        request matches Some(q) ==> (config is None ==> (r matches Err(e) && e@ == missing_server_config_for_content())),
        request matches Some(q) ==> (config matches Some(c) ==> match round_content_error(c, q) {
            Some(m) => r matches Err(e) && e@ == m,
            None => r matches Ok(p) && p.0 == q.request_id && round_content_call(c, q, p.1),
        }),
{
    let request = match request {
        Some(q) => q,
        None => {
            let id = u64_to_decimal(request_id);
            return Err(cat3("round generation request ", id.as_str(), " no longer exists"));
        },
    };
    let config = load_server_config(config)?;
    let call = build_round_content_http_request(&config, &request)?;
    Ok((request.request_id, call))
}

// ---------------------------------------------------------------------------------------------
// Villain speech and audio calls
// ---------------------------------------------------------------------------------------------

/// Why a villain speech call cannot be made, if it cannot.
pub open spec fn villain_speech_call_error(config: ServerConfig, payload: Result<VillainSpeechGenerationPayload, String>) -> Option<Seq<char>> {
    match content_settings_error(config, "ServerConfig.gemini_villain_model"@, config.gemini_villain_model@) {
        Some(m) => Some(m),
        None => match payload {
            Err(e) => Some("invalid villain speech payload JSON: "@ + e@),
            Ok(_) => None,
        },
    }
}

/// Builds the Gemini call of a villain speech request with the villain model. `payload` is the
/// request's payload read as a speech payload (or the error reading it).
pub fn build_villain_speech_http_request(
    config: &ServerConfig,
    request: &VillainSpeechRequest,
    payload: Result<VillainSpeechGenerationPayload, String>,
) -> (r: Result<GeminiCall, String>)
    ensures
        villain_speech_call_error(*config, payload) matches Some(m) ==> (r matches Err(e) && e@ == m),
        villain_speech_call_error(*config, payload) is None ==> (r matches Ok(call) && {
            &&& call.url@ == gemini_url(config.gemini_api_base_url@, config.gemini_villain_model@, config.gemini_api_key@)
            &&& call.prompt@ == villain_prompt(payload->Ok_0, request.request_payload_json@)
            &&& call.response_schema matches Some(s) && s@ == villain_speech_schema_json()
            &&& call.max_output_tokens == 2048
            &&& call.temperature_millis == 600
        }),
{
    require_non_empty("ServerConfig.gemini_api_base_url", config.gemini_api_base_url.as_str())?;
    require_non_empty("ServerConfig.gemini_api_key", config.gemini_api_key.as_str())?;
    require_non_empty("ServerConfig.gemini_villain_model", config.gemini_villain_model.as_str())?;
    let payload = match payload {
        Ok(p) => p,
        Err(e) => {
            return Err(cat("invalid villain speech payload JSON: ", e.as_str()));
        },
    };
    let prompt = build_villain_speech_prompt(&payload, request.request_payload_json.as_str());
    let url = gemini_generate_url(
        config.gemini_api_base_url.as_str(),
        config.gemini_villain_model.as_str(),
        config.gemini_api_key.as_str(),
    );
    Ok(
        GeminiCall {
            url,
            prompt,
            response_schema: Some(villain_speech_response_schema()),
            max_output_tokens: 2048,
            temperature_millis: 600,
        },
    )
}

/// Builds the Gemini call of villain speech request `request_id` (the row found, if any).
pub fn prepare_villain_speech_http_request(
    request_id: u64,
    request: Option<VillainSpeechRequest>,
    config: Option<ServerConfig>,
    payload: Result<VillainSpeechGenerationPayload, String>,
) -> (r: Result<(u64, GeminiCall), String>)
    ensures
        request is None ==> (r matches Err(e) && e@ == "villain speech request "@ + decimal(request_id as nat)
            + " no longer exists"@),
        request matches Some(q) ==> (config is None ==> (r matches Err(e) && e@ == missing_server_config_for_content())),
        request matches Some(q) ==> (config matches Some(c) ==> (villain_speech_call_error(c, payload) matches Some(
            m,
        ) ==> (r matches Err(e) && e@ == m))),
        request matches Some(q) ==> (config matches Some(c) ==> (villain_speech_call_error(c, payload) is None ==> (
        r matches Ok(p) && p.0 == q.request_id && {
            &&& p.1.url@ == gemini_url(c.gemini_api_base_url@, c.gemini_villain_model@, c.gemini_api_key@)
            &&& p.1.prompt@ == villain_prompt(payload->Ok_0, q.request_payload_json@)
            &&& p.1.response_schema matches Some(s) && s@ == villain_speech_schema_json()
            &&& p.1.max_output_tokens == 2048
            &&& p.1.temperature_millis == 600
        }))),
{
    let request = match request {
        Some(q) => q,
        None => {
            let id = u64_to_decimal(request_id);
            return Err(cat3("villain speech request ", id.as_str(), " no longer exists"));
        },
    };
    let config = load_server_config(config)?;
    let call = build_villain_speech_http_request(&config, &request, payload)?;
    Ok((request.request_id, call))
}

/// A voice setting from the payload when it is set and not blank (kept as given), else the
/// default.
pub open spec fn voice_setting(value: Option<String>, default: String) -> Seq<char> {
    match value {
        Some(v) => if trim(v@).len() > 0 {
            v@
        } else {
            default@
        },
        None => default@,
    }
}

/// The ElevenLabs call of a villain speech request, or why it cannot be built: the voice and
/// model come from the payload or the defaults, and the text is the selected speech.
pub open spec fn tts_target(config: VoiceConfig, request: VillainSpeechRequest, payload: Result<VillainSpeechGenerationPayload, String>) -> Result<(Seq<char>, Seq<char>), Seq<char>> {
    match payload {
        Err(e) => Err("invalid villain speech payload JSON: "@ + e@),
        Ok(p) => {
            let voice_id = voice_setting(p.voice_id, config.elevenlabs_default_voice_id);
            let model_id = voice_setting(p.voice_model_id, config.elevenlabs_default_model_id);
            if trim(config.elevenlabs_api_base_url@).len() == 0 {
                Err("VoiceConfig.elevenlabs_api_base_url"@ + " must not be empty"@)
            } else if trim(config.elevenlabs_api_key@).len() == 0 {
                Err("VoiceConfig.elevenlabs_api_key"@ + " must not be empty"@)
            } else if trim(voice_id).len() == 0 {
                Err("Voice voice_id"@ + " must not be empty"@)
            } else if trim(model_id).len() == 0 {
                Err("Voice model_id"@ + " must not be empty"@)
            } else {
                match request.selected_speech_text {
                    Some(t) => if trim(t@).len() > 0 {
                        Ok(
                            (
                                strip_trailing(config.elevenlabs_api_base_url@, '/') + "/text-to-speech/"@
                                    + voice_id,
                                "{\"model_id\":"@ + json_quoted(model_id) + ",\"text\":"@ + json_quoted(t@) + "}"@,
                            ),
                        )
                    } else {
                        Err("selected villain speech text is missing for TTS"@)
                    },
                    None => Err("selected villain speech text is missing for TTS"@),
                }
            }
        },
    }
}

fn voice_setting_text(value: &Option<String>, default: &String) -> (r: String)
    ensures
        r@ == voice_setting(*value, *default),
{
    match value {
        Some(v) => {
            if crate::text::is_blank(v.as_str()) {
                default.clone()
            } else {
                v.clone()
            }
        },
        None => default.clone(),
    }
}

/// Builds the ElevenLabs text-to-speech request for the selected villain speech.
pub fn build_villain_tts_http_request(
    config: &VoiceConfig,
    request: &VillainSpeechRequest,
    payload: Result<VillainSpeechGenerationPayload, String>,
) -> (r: Result<HttpCall, String>)
    ensures
        tts_target(*config, *request, payload) matches Err(m) ==> (r matches Err(e) && e@ == m),
        tts_target(*config, *request, payload) matches Ok(t) ==> (r matches Ok(call) && json_post(
            call,
            t.0,
            seq![("Accept"@, "audio/mpeg"@), ("xi-api-key"@, config.elevenlabs_api_key@)],
            t.1,
        )),
{
    let payload = match payload {
        Ok(p) => p,
        Err(e) => {
            return Err(cat("invalid villain speech payload JSON: ", e.as_str()));
        },
    };
    require_non_empty("VoiceConfig.elevenlabs_api_base_url", config.elevenlabs_api_base_url.as_str())?;
    require_non_empty("VoiceConfig.elevenlabs_api_key", config.elevenlabs_api_key.as_str())?;
    let voice_id = voice_setting_text(&payload.voice_id, &config.elevenlabs_default_voice_id);
    require_non_empty("Voice voice_id", voice_id.as_str())?;
    let model_id = voice_setting_text(&payload.voice_model_id, &config.elevenlabs_default_model_id);
    require_non_empty("Voice model_id", model_id.as_str())?;
    let text = match &request.selected_speech_text {
        Some(t) => {
            if crate::text::is_blank(t.as_str()) {
                return Err("selected villain speech text is missing for TTS".to_string());
            }
            t.clone()
        },
        None => {
            return Err("selected villain speech text is missing for TTS".to_string());
        },
    };
    let mut url = without_trailing_slashes(config.elevenlabs_api_base_url.as_str());
    url.append("/text-to-speech/");
    url.append(voice_id.as_str());
    let mut body = "{\"model_id\":".to_string();
    push_json_string(&mut body, model_id.as_str());
    body.append(",\"text\":");
    push_json_string(&mut body, text.as_str());
    body.append("}");
    let mut extra: Vec<(String, String)> = Vec::new();
    extra.push(("Accept".to_string(), "audio/mpeg".to_string()));
    extra.push(("xi-api-key".to_string(), config.elevenlabs_api_key.clone()));
    assert(header_views(extra@) =~= seq![("Accept"@, "audio/mpeg"@), ("xi-api-key"@, config.elevenlabs_api_key@)]);
    Ok(crate::http::post_json(url, extra, body))
}

/// Builds the ElevenLabs call of villain speech request `request_id` (the row found, if any),
/// which must be waiting on audio.
pub fn prepare_villain_tts_http_request(
    request_id: u64,
    request: Option<VillainSpeechRequest>,
    voice_config: Option<VoiceConfig>,
    payload: Result<VillainSpeechGenerationPayload, String>,
) -> (r: Result<(u64, HttpCall), String>)
    ensures
        request is None ==> (r matches Err(e) && e@ == "villain speech request "@ + decimal(request_id as nat)
            + " no longer exists"@),
        request matches Some(q) ==> (q.phase != VillainSpeechPhase::PendingTts ==> (r matches Err(e) && e@
            == "villain speech request "@ + decimal(request_id as nat) + " is not ready for TTS"@)),
        request matches Some(q) ==> (q.phase == VillainSpeechPhase::PendingTts ==> match voice_config {
            None => r matches Err(e) && e@ == missing_voice_config(),
            Some(c) => match tts_target(c, q, payload) {
                Err(m) => r matches Err(e) && e@ == m,
                Ok(t) => r matches Ok(p) && p.0 == q.request_id && json_post(
                    p.1,
                    t.0,
                    seq![("Accept"@, "audio/mpeg"@), ("xi-api-key"@, c.elevenlabs_api_key@)],
                    t.1,
                ),
            },
        }),
{
    let request = match request {
        Some(q) => q,
        None => {
            let id = u64_to_decimal(request_id);
            return Err(cat3("villain speech request ", id.as_str(), " no longer exists"));
        },
    };
    if request.phase != VillainSpeechPhase::PendingTts {
        let id = u64_to_decimal(request_id);
        return Err(cat3("villain speech request ", id.as_str(), " is not ready for TTS"));
    }
    let config = load_voice_config(voice_config)?;
    let call = build_villain_tts_http_request(&config, &request, payload)?;
    Ok((request.request_id, call))
}

// ---------------------------------------------------------------------------------------------
// Handing results back
// ---------------------------------------------------------------------------------------------

/// The callback row carrying a round generation result back.
pub fn enqueue_round_content_callback(request_id: u64, status_code: u16, response_body: String, transport_error: Option<String>, now: Timestamp) -> (r: RoundGenerationCallbackSchedule)
    ensures
        r == (RoundGenerationCallbackSchedule { scheduled_id: 0, scheduled_at: now, request_id, status_code, response_body, transport_error }),
{
    RoundGenerationCallbackSchedule { scheduled_id: 0, scheduled_at: now, request_id, status_code, response_body, transport_error }
}

/// The callback row carrying a villain speech result back.
pub fn enqueue_villain_speech_callback(request_id: u64, status_code: u16, response_body: String, transport_error: Option<String>, now: Timestamp) -> (r: VillainSpeechCallbackSchedule)
    ensures
        r == (VillainSpeechCallbackSchedule { scheduled_id: 0, scheduled_at: now, request_id, status_code, response_body, transport_error }),
{
    VillainSpeechCallbackSchedule { scheduled_id: 0, scheduled_at: now, request_id, status_code, response_body, transport_error }
}

/// The callback row carrying a villain audio result back.
pub fn enqueue_villain_tts_callback(
    request_id: u64,
    status_code: u16,
    response_body_base64: String,
    mime_type: Option<String>,
    transport_error: Option<String>,
    now: Timestamp,
) -> (r: VillainTtsCallbackSchedule)
    ensures
        r == (VillainTtsCallbackSchedule {
            scheduled_id: 0,
            scheduled_at: now,
            request_id,
            status_code,
            response_body_base64,
            mime_type,
            transport_error,
        }),
{
    VillainTtsCallbackSchedule {
        scheduled_id: 0,
        scheduled_at: now,
        request_id,
        status_code,
        response_body_base64,
        mime_type,
        transport_error,
    }
}

/// The standard base64 text of some bytes.
pub uninterp spec fn base64_standard(bytes: Seq<u8>) -> Seq<char>;

/// Encodes bytes with `base64::engine::general_purpose::STANDARD` (`Engine::encode`), the
/// standard alphabet with padding. The text is named, not described.
#[verifier::external_body]
fn encode_base64(bytes: &Vec<u8>) -> (r: String)
    ensures
        r@ == base64_standard(bytes@),
{
    base64::Engine::encode(&base64::engine::general_purpose::STANDARD, bytes)
}

/// The callback row for an ElevenLabs answer: the audio bytes in base64 with the answer's
/// content type.
pub fn villain_tts_result(request_id: u64, status_code: u16, body: Vec<u8>, mime_type: Option<String>, now: Timestamp) -> (r: VillainTtsCallbackSchedule)
    ensures
        r.scheduled_id == 0,
        r.scheduled_at == now,
        r.request_id == request_id,
        r.status_code == status_code,
        r.response_body_base64@ == base64_standard(body@),
        r.mime_type == mime_type,
        r.transport_error is None,
{
    let encoded = encode_base64(&body);
    enqueue_villain_tts_callback(request_id, status_code, encoded, mime_type, None, now)
}

} // verus!
