//! Room-scoped content generation: clue/manual packages for each round (round 1 in two
//! stages, a skeleton and then its expansion) and villain speech with optional synthesized audio,
//! as transitions over the request and artifact tables.
use vstd::prelude::*;

use crate::json::{
    json_array, json_array_at, json_compact, json_compact_at, json_has, json_has_at, json_object, json_object_at,
    json_parse_error, json_str, json_str_at, json_syntax_error,
};
use crate::json::{json_quoted, push_json_string};
use crate::http::{extract_gemini_text, gemini_text};
use crate::models::{
    GeminiGenerateContentResponse, VillainSpeechCue, VillainSpeechGeminiResponse,
    VillainSpeechGenerationPayload,
};
use crate::room::{
    load_room, normalize_room_id, normalized_room_id, room_missing_message, room_terminated_message,
};
use crate::schemas::{final_schema_json, open_object_schema, open_object_schema_json, round_one_final_response_schema};
use crate::state::{
    copy_opt_string, has_text, is_active, same_request, GameRoom, GenerationStatus, Identity,
    RoomStatus, RoundContentArtifact, RoundGenerationPhase, RoundGenerationRequest,
    RoundGenerationCallbackSchedule, RoundGenerationRequestSchedule, Timestamp, VillainSpeechArtifact, VillainSpeechPhase,
    VillainSpeechCallbackSchedule, VillainSpeechRequest, VillainSpeechRequestSchedule,
    VillainTtsCallbackSchedule, VillainTtsRequestSchedule, VoiceConfig,
};
use crate::terminal_rules::is_round_key;
use vstd::utf8::encode_utf8;
use crate::text::{
    ascii_lower_seq, ascii_lowercase_str, cat, cat3, char_vec, decimal, join_strings, join_with,
    split_words, str_eq, string_from_range, trim, trim_str, u64_to_decimal, views, words,
};

verus! {

broadcast use vstd::string::group_string_axioms;

// ---------------------------------------------------------------------------------------------
// Round keys, artifact keys and room checks
// ---------------------------------------------------------------------------------------------

/// A round key as given, trimmed and ASCII lower-cased.
pub open spec fn round_key_of(raw: Seq<char>) -> Seq<char> {
    ascii_lower_seq(trim(raw))
}

pub open spec fn bad_round_key_message(raw: Seq<char>) -> Seq<char> {
    "round_key must be one of round_1, round_2, round_3, or round_4; received "@ + raw
}

/// The round key, trimmed and lower-cased; only the four rounds are accepted.
pub fn normalize_round_key(round_key: &str) -> (r: Result<String, String>)
    ensures
        is_round_key(round_key_of(round_key@)) ==> (r matches Ok(k) && k@ == round_key_of(round_key@)),
        !is_round_key(round_key_of(round_key@)) ==> (r matches Err(e) && e@ == bad_round_key_message(
            round_key@,
        )),
{
    let trimmed = trim_str(round_key);
    let normalized = ascii_lowercase_str(trimmed.as_str());
    let n = normalized.as_str();
    if str_eq(n, "round_1") || str_eq(n, "round_2") || str_eq(n, "round_3") || str_eq(n, "round_4") {
        Ok(normalized)
    } else {
        Err(cat("round_key must be one of round_1, round_2, round_3, or round_4; received ", round_key))
    }
}

/// The response schema a round uses when the client gives none: the full round 1 package
/// schema, or any object for the later rounds.
pub fn default_round_response_schema(round_key: &str) -> (r: Result<String, String>)
    ensures
        !is_round_key(round_key_of(round_key@)) ==> (r matches Err(e) && e@ == bad_round_key_message(
            round_key@,
        )),
        round_key_of(round_key@) == "round_1"@ ==> (r matches Ok(s) && s@ == final_schema_json()),
        is_round_key(round_key_of(round_key@)) && round_key_of(round_key@) != "round_1"@ ==> (r matches Ok(
            s,
        ) && s@ == open_object_schema_json()),
{
    let key = normalize_round_key(round_key)?;
    if str_eq(key.as_str(), "round_1") {
        Ok(round_one_final_response_schema())
    } else {
        Ok(open_object_schema())
    }
}

/// The key of a room's round content artifact.
pub fn format_round_artifact_key(room_id: &str, round_key: &str) -> (r: String)
    ensures
        r@ == room_id@ + "::"@ + round_key@,
{
    cat3(room_id, "::", round_key)
}

/// The key of a room's villain speech artifact: per round, or `general`.
pub fn format_villain_artifact_key(room_id: &str, round_key: Option<&str>) -> (r: String)
    ensures
        round_key matches Some(k) ==> r@ == room_id@ + "::"@ + k@,
        round_key is None ==> r@ == room_id@ + "::"@ + "general"@,
{
    match round_key {
        Some(k) => cat3(room_id, "::", k),
        None => cat3(room_id, "::", "general"),
    }
}

/// Content is generated only for rooms that still run.
pub fn ensure_room_is_active(room: &GameRoom) -> (r: Result<(), String>)
    ensures
        room.status != RoomStatus::Terminated ==> r is Ok,
        room.status == RoomStatus::Terminated ==> (r matches Err(e) && e@ == room_terminated_message(
            room.room_id@,
        )),
{
    if room.status == RoomStatus::Terminated {
        Err(cat3("room ", room.room_id.as_str(), " has already been terminated"))
    } else {
        Ok(())
    }
}

/// Who may generate content: anyone who knows the id of a room that still runs (the room id
/// is the capability).
pub fn ensure_generation_room_access(room: &GameRoom) -> (r: Result<(), String>)
    ensures
        room.status != RoomStatus::Terminated ==> r is Ok,
        room.status == RoomStatus::Terminated ==> (r matches Err(e) && e@ == room_terminated_message(
            room.room_id@,
        )),
{
    if room.status == RoomStatus::Terminated {
        return Err(cat3("room ", room.room_id.as_str(), " has already been terminated"));
    }
    Ok(())
}

/// Only the host or Player 1 of the room.
pub fn ensure_host_or_player_one(sender: Identity, room: &GameRoom) -> (r: Result<(), String>)
    ensures
        (room.host_identity == sender || room.player_one == Some(sender)) ==> r is Ok,
        !(room.host_identity == sender || room.player_one == Some(sender)) ==> (r matches Err(e) && e@
            == "only the room host or Player 1 may generate clue/manual content"@),
{
    if room.host_identity == sender || crate::state::same_identity(room.player_one, sender) {
        return Ok(());
    }
    Err("only the room host or Player 1 may generate clue/manual content".to_string())
}

/// Only the host or one of the two players of the room.
pub fn ensure_room_participant(sender: Identity, room: &GameRoom) -> (r: Result<(), String>)
    ensures
        (room.host_identity == sender || room.player_one == Some(sender) || room.player_two == Some(sender))
            ==> r is Ok,
        !(room.host_identity == sender || room.player_one == Some(sender) || room.player_two == Some(
            sender,
        )) ==> (r matches Err(e) && e@ == "only a room participant may generate villain speech"@),
{
    if room.host_identity == sender || crate::state::same_identity(room.player_one, sender)
        || crate::state::same_identity(room.player_two, sender) {
        return Ok(());
    }
    Err("only a room participant may generate villain speech".to_string())
}

// ---------------------------------------------------------------------------------------------
// JSON inputs
// ---------------------------------------------------------------------------------------------

/// What `normalize_json_object` gives: the compact text of a JSON object, or why the input
/// is refused.
pub open spec fn json_object_text(label: Seq<char>, raw: Seq<char>) -> Result<Seq<char>, Seq<char>> {
    let t = trim(raw);
    if t.len() == 0 {
        Err(label + " must not be empty"@)
    } else if json_syntax_error(t) is Some {
        Err(label + " must be valid JSON: "@ + json_syntax_error(t)->0)
    } else if !json_object(t, ""@) {
        Err(label + " must be a JSON object"@)
    } else {
        match json_compact_at(t, ""@) {
            Some(c) => Ok(c),
            None => Err("failed to normalize "@ + label),
        }
    }
}

/// Checks a JSON object given by a client and returns its compact text.
pub fn normalize_json_object(label: &str, raw_json: String) -> (r: Result<String, String>)
    ensures
        json_object_text(label@, raw_json@) matches Ok(c) ==> (r matches Ok(s) && s@ == c),
        json_object_text(label@, raw_json@) matches Err(m) ==> (r matches Err(e) && e@ == m),
{
    let trimmed = trim_str(raw_json.as_str());
    if trimmed.as_str().is_empty() {
        return Err(cat(label, " must not be empty"));
    }
    if let Some(err) = json_parse_error(trimmed.as_str()) {
        return Err(cat3(label, " must be valid JSON: ", err.as_str()));
    }
    if !json_object_at(trimmed.as_str(), "") {
        return Err(cat(label, " must be a JSON object"));
    }
    proof {
        reveal_strlit("");
    }
    match json_compact(trimmed.as_str(), "") {
        Some(c) => Ok(c),
        None => Err(cat("failed to normalize ", label)),
    }
}

/// What `normalize_round_schema_json` gives: the compact text of the schema stored with a
/// round request (the given one, or the round's default when none is given), or why it is
/// refused.
pub open spec fn schema_text(round_key: Seq<char>, raw: Seq<char>) -> Result<Seq<char>, Seq<char>> {
    let t = trim(raw);
    if t.len() == 0 {
        if !is_round_key(round_key_of(round_key)) {
            Err(bad_round_key_message(round_key))
        } else {
            let d = if round_key_of(round_key) == "round_1"@ {
                final_schema_json()
            } else {
                open_object_schema_json()
            };
            match json_compact_at(d, ""@) {
                Some(c) => Ok(c),
                None => Err("failed to serialize default round schema"@),
            }
        }
    } else if json_syntax_error(t) is Some {
        Err("response_schema_json must be valid JSON: "@ + json_syntax_error(t)->0)
    } else {
        match json_compact_at(t, ""@) {
            Some(c) => Ok(c),
            None => Err("failed to normalize response_schema_json"@),
        }
    }
}

/// The response schema stored with a round request, as compact JSON.
pub fn normalize_round_schema_json(round_key: &str, raw_schema_json: String) -> (r: Result<String, String>)
    ensures
        schema_text(round_key@, raw_schema_json@) matches Ok(c) ==> (r matches Ok(s) && s@ == c),
        schema_text(round_key@, raw_schema_json@) matches Err(m) ==> (r matches Err(e) && e@ == m),
{
    let trimmed = trim_str(raw_schema_json.as_str());
    if trimmed.as_str().is_empty() {
        let schema = default_round_response_schema(round_key)?;
        return match json_compact(schema.as_str(), "") {
            Some(c) => Ok(c),
            None => Err("failed to serialize default round schema".to_string()),
        };
    }
    if let Some(err) = json_parse_error(trimmed.as_str()) {
        return Err(cat("response_schema_json must be valid JSON: ", err.as_str()));
    }
    proof {
        reveal_strlit("");
    }
    match json_compact(trimmed.as_str(), "") {
        Some(c) => Ok(c),
        None => Err("failed to normalize response_schema_json".to_string()),
    }
}

/// The round a villain speech payload names in its `round_key` member, normalized, if it
/// names one.
pub open spec fn optional_round_key(payload: Seq<char>) -> Result<Option<Seq<char>>, Seq<char>> {
    if !json_has(payload, "/round_key"@) {
        Ok(None)
    } else {
        match json_str(payload, "/round_key"@) {
            None => Err("request_payload_json.round_key must be a string when provided"@),
            Some(k) => if is_round_key(round_key_of(k)) {
                Ok(Some(round_key_of(k)))
            } else {
                Err(bad_round_key_message(k))
            },
        }
    }
}

pub fn extract_optional_round_key(payload_json: &str) -> (r: Result<Option<String>, String>)
    ensures
        optional_round_key(payload_json@) matches Ok(k) ==> (r matches Ok(o) && crate::text::opt_view(o) == k),
        optional_round_key(payload_json@) matches Err(m) ==> (r matches Err(e) && e@ == m),
{
    if !json_has_at(payload_json, "/round_key") {
        return Ok(None);
    }
    match json_str_at(payload_json, "/round_key") {
        Some(k) => {
            let n = normalize_round_key(k.as_str())?;
            Ok(Some(n))
        },
        None => Err("request_payload_json.round_key must be a string when provided".to_string()),
    }
}

/// The trimmed string member `key` of a JSON object, when it is a non-blank string.
pub open spec fn candidate_at(value: Seq<char>, key: Seq<char>) -> Option<Seq<char>> {
    match json_str(value, "/"@ + key) {
        Some(s) => if trim(s).len() > 0 {
            Some(trim(s))
        } else {
            None
        },
        None => None,
    }
}

/// The hidden answer a generated package proposes: the first non-blank one of its
/// `hidden_answer`, `validation_answer`, `kill_phrase_3`, `target_word`, `validation_code` and
/// `validation_cipher` members.
pub open spec fn hidden_candidate(value: Seq<char>) -> Option<Seq<char>> {
    if candidate_at(value, "hidden_answer"@) is Some {
        candidate_at(value, "hidden_answer"@)
    } else if candidate_at(value, "validation_answer"@) is Some {
        candidate_at(value, "validation_answer"@)
    } else if candidate_at(value, "kill_phrase_3"@) is Some {
        candidate_at(value, "kill_phrase_3"@)
    } else if candidate_at(value, "target_word"@) is Some {
        candidate_at(value, "target_word"@)
    } else if candidate_at(value, "validation_code"@) is Some {
        candidate_at(value, "validation_code"@)
    } else {
        candidate_at(value, "validation_cipher"@)
    }
}

fn candidate_member(value: &str, key: &str) -> (r: Option<String>)
    ensures
        crate::text::opt_view(r) == candidate_at(value@, key@),
{
    let pointer = cat("/", key);
    match json_str_at(value, pointer.as_str()) {
        Some(s) => {
            let t = trim_str(s.as_str());
            if t.as_str().is_empty() {
                None
            } else {
                Some(t)
            }
        },
        None => None,
    }
}

pub fn extract_hidden_answer_candidate(response_json: &str) -> (r: Option<String>)
    ensures
        crate::text::opt_view(r) == hidden_candidate(response_json@),
{
    let c = candidate_member(response_json, "hidden_answer");
    if c.is_some() {
        return c;
    }
    let c = candidate_member(response_json, "validation_answer");
    if c.is_some() {
        return c;
    }
    let c = candidate_member(response_json, "kill_phrase_3");
    if c.is_some() {
        return c;
    }
    let c = candidate_member(response_json, "target_word");
    if c.is_some() {
        return c;
    }
    let c = candidate_member(response_json, "validation_code");
    if c.is_some() {
        return c;
    }
    candidate_member(response_json, "validation_cipher")
}

// ---------------------------------------------------------------------------------------------
// Gemini errors and the round 1 package
// ---------------------------------------------------------------------------------------------

/// The message of a Gemini error body (`error.message`), trimmed, when it is a non-blank string.
pub open spec fn gemini_error_message(body: Seq<char>) -> Option<Seq<char>> {
    if json_object(body, "/error"@) {
        match json_str(body, "/error/message"@) {
            Some(m) => if trim(m).len() > 0 {
                Some(trim(m))
            } else {
                None
            },
            None => None,
        }
    } else {
        None
    }
}

/// A body with its whitespace runs collapsed to single spaces, cut to 280 characters.
pub open spec fn body_snippet(body: Seq<char>) -> Option<Seq<char>> {
    let compact = trim(join_with(words(body), " "@));
    if compact.len() == 0 {
        None
    } else if compact.len() > 280 {
        Some(compact.take(280) + "..."@)
    } else {
        Some(compact)
    }
}

/// The error recorded when Gemini answers a generation request with a non-200 status.
pub open spec fn gemini_http_error(status_code: u16, body: Seq<char>) -> Seq<char> {
    let snippet = match gemini_error_message(body) {
        Some(m) => Some(m),
        None => body_snippet(body),
    };
    match snippet {
        Some(m) => "Gemini returned HTTP "@ + decimal(status_code as nat) + ": "@ + m,
        None => "Gemini returned HTTP "@ + decimal(status_code as nat),
    }
}

pub fn summarize_gemini_http_error(status_code: u16, response_body: &str) -> (r: String)
    ensures
        r@ == gemini_http_error(status_code, response_body@),
{
    let from_error = if json_object_at(response_body, "/error") {
        match json_str_at(response_body, "/error/message") {
            Some(m) => {
                let t = trim_str(m.as_str());
                if t.as_str().is_empty() {
                    None
                } else {
                    Some(t)
                }
            },
            None => None,
        }
    } else {
        None
    };
    let snippet = match from_error {
        Some(m) => Some(m),
        None => {
            let ws = split_words(response_body);
            let joined = join_strings(&ws, " ");
            let compact = trim_str(joined.as_str());
            let chars = char_vec(compact.as_str());
            if chars.len() == 0 {
                None
            } else if chars.len() > 280 {
                let head = string_from_range(&chars, 0, 280);
                Some(head.concat("..."))
            } else {
                Some(compact)
            }
        },
    };
    let code = u64_to_decimal(status_code as u64);
    match snippet {
        Some(m) => {
            let mut r = cat("Gemini returned HTTP ", code.as_str());
            r.append(": ");
            r.append(m.as_str());
            r
        },
        None => cat("Gemini returned HTTP ", code.as_str()),
    }
}

/// The finished round 1 package: the skeleton's persona, paragraphs, target word, forbidden
/// words, clues and solution with the expansion's manual and decoder walkthrough, as compact
/// JSON with its members in serde_json's (sorted) order. `None` fields name what is missing.
pub open spec fn round_one_package(skeleton: Seq<char>, expansion: Seq<char>) -> Result<Seq<char>, Seq<char>> {
    if json_syntax_error(skeleton) is Some {
        Err("invalid stored round 1 skeleton JSON: "@ + json_syntax_error(skeleton)->0)
    } else if !json_object(skeleton, ""@) {
        Err("round 1 skeleton payload must be a JSON object"@)
    } else if !json_object(expansion, ""@) {
        Err("round 1 expansion payload must be a JSON object"@)
    } else if json_compact_at(expansion, "/manual"@) is None {
        Err("round 1 expansion payload is missing manual"@)
    } else if json_compact_at(expansion, "/decoder_walkthrough"@) is None {
        Err("round 1 expansion payload is missing decoder_walkthrough"@)
    } else if json_compact_at(skeleton, "/persona_name"@) is None {
        Err("round 1 skeleton is missing persona_name"@)
    } else if json_compact_at(skeleton, "/persona_paragraphs"@) is None {
        Err("round 1 skeleton is missing persona_paragraphs"@)
    } else if json_compact_at(skeleton, "/target_word"@) is None {
        Err("round 1 skeleton is missing target_word"@)
    } else if json_compact_at(skeleton, "/forbidden_words"@) is None {
        Err("round 1 skeleton is missing forbidden_words"@)
    } else if json_compact_at(skeleton, "/clues"@) is None {
        Err("round 1 skeleton is missing clues"@)
    } else if json_compact_at(skeleton, "/solution"@) is None {
        Err("round 1 skeleton is missing solution"@)
    } else {
        Ok(
            "{\"clues\":"@ + json_compact_at(skeleton, "/clues"@)->0 + ",\"decoder_walkthrough\":"@
                + json_compact_at(expansion, "/decoder_walkthrough"@)->0 + ",\"forbidden_words\":"@
                + json_compact_at(skeleton, "/forbidden_words"@)->0 + ",\"manual\":"@ + json_compact_at(
                expansion,
                "/manual"@,
            )->0 + ",\"persona_name\":"@ + json_compact_at(skeleton, "/persona_name"@)->0
                + ",\"persona_paragraphs\":"@ + json_compact_at(skeleton, "/persona_paragraphs"@)->0
                + ",\"solution\":"@ + json_compact_at(skeleton, "/solution"@)->0 + ",\"target_word\":"@
                + json_compact_at(skeleton, "/target_word"@)->0 + "}"@,
        )
    }
}

/// Merges the round 1 skeleton (stored JSON text) with the expansion answer (compact JSON).
pub fn compose_round_one_final_payload(skeleton_json: &str, expansion_json: &str) -> (r: Result<String, String>)
    ensures
        round_one_package(skeleton_json@, expansion_json@) matches Ok(p) ==> (r matches Ok(s) && s@ == p),
        round_one_package(skeleton_json@, expansion_json@) matches Err(m) ==> (r matches Err(e) && e@ == m),
{
    if let Some(err) = json_parse_error(skeleton_json) {
        return Err(cat("invalid stored round 1 skeleton JSON: ", err.as_str()));
    }
    if !json_object_at(skeleton_json, "") {
        return Err("round 1 skeleton payload must be a JSON object".to_string());
    }
    if !json_object_at(expansion_json, "") {
        return Err("round 1 expansion payload must be a JSON object".to_string());
    }
    let manual = match json_compact(expansion_json, "/manual") {
        Some(v) => v,
        None => {
            return Err("round 1 expansion payload is missing manual".to_string());
        },
    };
    let walkthrough = match json_compact(expansion_json, "/decoder_walkthrough") {
        Some(v) => v,
        None => {
            return Err("round 1 expansion payload is missing decoder_walkthrough".to_string());
        },
    };
    let persona_name = match json_compact(skeleton_json, "/persona_name") {
        Some(v) => v,
        None => {
            return Err("round 1 skeleton is missing persona_name".to_string());
        },
    };
    let persona_paragraphs = match json_compact(skeleton_json, "/persona_paragraphs") {
        Some(v) => v,
        None => {
            return Err("round 1 skeleton is missing persona_paragraphs".to_string());
        },
    };
    let target_word = match json_compact(skeleton_json, "/target_word") {
        Some(v) => v,
        None => {
            return Err("round 1 skeleton is missing target_word".to_string());
        },
    };
    let forbidden_words = match json_compact(skeleton_json, "/forbidden_words") {
        Some(v) => v,
        None => {
            return Err("round 1 skeleton is missing forbidden_words".to_string());
        },
    };
    let clues = match json_compact(skeleton_json, "/clues") {
        Some(v) => v,
        None => {
            return Err("round 1 skeleton is missing clues".to_string());
        },
    };
    let solution = match json_compact(skeleton_json, "/solution") {
        Some(v) => v,
        None => {
            return Err("round 1 skeleton is missing solution".to_string());
        },
    };
    let mut r = "{\"clues\":".to_string();
    r.append(clues.as_str());
    r.append(",\"decoder_walkthrough\":");
    r.append(walkthrough.as_str());
    r.append(",\"forbidden_words\":");
    r.append(forbidden_words.as_str());
    r.append(",\"manual\":");
    r.append(manual.as_str());
    r.append(",\"persona_name\":");
    r.append(persona_name.as_str());
    r.append(",\"persona_paragraphs\":");
    r.append(persona_paragraphs.as_str());
    r.append(",\"solution\":");
    r.append(solution.as_str());
    r.append(",\"target_word\":");
    r.append(target_word.as_str());
    r.append("}");
    Ok(r)
}

// ---------------------------------------------------------------------------------------------
// Villain speech cues
// ---------------------------------------------------------------------------------------------

/// The position of the first cue with the id `id`.
pub open spec fn cue_position(cues: Seq<VillainSpeechCue>, id: Seq<char>) -> Option<int>
    decreases cues.len(),
{
    if cues.len() == 0 {
        None
    } else if cues.last().cue_id@ == id && cue_position(cues.drop_last(), id) is None {
        Some(cues.len() - 1)
    } else {
        cue_position(cues.drop_last(), id)
    }
}

/// The cue played: the requested one (trimmed, when not blank) if a cue has that id, else the
/// first cue.
pub open spec fn chosen_cue(cues: Seq<VillainSpeechCue>, requested: Option<Seq<char>>) -> Option<int> {
    let wanted = match requested {
        Some(q) => if trim(q).len() > 0 {
            cue_position(cues, trim(q))
        } else {
            None
        },
        None => None,
    };
    match wanted {
        Some(i) => Some(i),
        None => if cues.len() > 0 {
            Some(0)
        } else {
            None
        },
    }
}

proof fn lemma_cue_position_bounds(cues: Seq<VillainSpeechCue>, id: Seq<char>)
    ensures
        cue_position(cues, id) matches Some(i) ==> 0 <= i < cues.len() && cues[i].cue_id@ == id,
    decreases cues.len(),
{
    if cues.len() > 0 {
        lemma_cue_position_bounds(cues.drop_last(), id);
    }
}

/// The id and text of the cue to play (see `chosen_cue`).
#[verifier::loop_isolation(false)]
pub fn select_speech_cue(cues: &Vec<VillainSpeechCue>, requested_cue_id: Option<&str>) -> (r: Result<(String, String), String>)
    ensures
        ({
            let requested = match requested_cue_id {
                Some(q) => Some(q@),
                None => None,
            };
            match chosen_cue(cues@, requested) {
                Some(i) => r matches Ok(p) && 0 <= i < cues@.len() && p.0 == cues@[i].cue_id && p.1
                    == cues@[i].speech_text,
                None => r matches Err(e) && e@ == "villain speech response did not include any cues"@,
            }
        }),
{
    if let Some(q) = requested_cue_id {
        let wanted = trim_str(q);
        if !wanted.as_str().is_empty() {
            let ghost w = wanted@;
            let mut i: usize = 0;
            assert(cues@.take(0) =~= Seq::<VillainSpeechCue>::empty());
            while i < cues.len()
                invariant
                    i <= cues.len(),
                    w == wanted@,
                    cue_position(cues@.take(i as int), w) is None,
                decreases cues.len() - i,
            {
                proof {
                    assert(cues@.take(i + 1).drop_last() =~= cues@.take(i as int));
                    assert(cues@.take(i + 1).last() == cues@[i as int]);
                }
                if str_eq(cues[i].cue_id.as_str(), wanted.as_str()) {
                    proof {
                        lemma_cue_position_prefix(cues@, w, i as int);
                    }
                    return Ok((cues[i].cue_id.clone(), cues[i].speech_text.clone()));
                }
                i = i + 1;
            }
            proof {
                assert(cues@.take(cues.len() as int) =~= cues@);
            }
        }
    }
    if cues.len() == 0 {
        return Err("villain speech response did not include any cues".to_string());
    }
    proof {
        if let Some(q) = requested_cue_id {
            lemma_cue_position_bounds(cues@, trim(q@));
        }
    }
    Ok((cues[0].cue_id.clone(), cues[0].speech_text.clone()))
}

/// When the first `i` cues lack `id` and cue `i` has it, `i` is its position.
proof fn lemma_cue_position_prefix(cues: Seq<VillainSpeechCue>, id: Seq<char>, i: int)
    requires
        0 <= i < cues.len(),
        cue_position(cues.take(i), id) is None,
        cues[i].cue_id@ == id,
    ensures
        cue_position(cues, id) == Some(i),
    decreases cues.len(),
{
    if i == cues.len() - 1 {
        assert(cues.drop_last() =~= cues.take(i));
    } else {
        assert(cues.drop_last().take(i) =~= cues.take(i));
        lemma_cue_position_prefix(cues.drop_last(), id, i);
    }
}

/// A speech cue as a JSON object, its members in declaration order.
pub open spec fn cue_json(c: VillainSpeechCue) -> Seq<char> {
    "{\"cue_id\":"@ + json_quoted(c.cue_id@) + ",\"round_key\":"@ + json_quoted(c.round_key@)
        + ",\"linked_clue_id\":"@ + json_quoted(c.linked_clue_id@) + ",\"trigger\":"@ + json_quoted(
        c.trigger@,
    ) + ",\"delivery_style\":"@ + json_quoted(c.delivery_style@) + ",\"speech_text\":"@ + json_quoted(
        c.speech_text@,
    ) + "}"@
}

/// Speech cues as a JSON array.
pub open spec fn cues_json(cues: Seq<VillainSpeechCue>) -> Seq<char> {
    "["@ + join_with(cues.map_values(|c: VillainSpeechCue| cue_json(c)), ","@) + "]"@
}

fn push_cue_json(out: &mut String, c: &VillainSpeechCue)
    ensures
        final(out)@ == old(out)@ + cue_json(*c),
{
    out.append("{\"cue_id\":");
    push_json_string(out, c.cue_id.as_str());
    out.append(",\"round_key\":");
    push_json_string(out, c.round_key.as_str());
    out.append(",\"linked_clue_id\":");
    push_json_string(out, c.linked_clue_id.as_str());
    out.append(",\"trigger\":");
    push_json_string(out, c.trigger.as_str());
    out.append(",\"delivery_style\":");
    push_json_string(out, c.delivery_style.as_str());
    out.append(",\"speech_text\":");
    push_json_string(out, c.speech_text.as_str());
    out.append("}");
}

/// The JSON text stored for a set of speech cues.
pub fn speech_cues_json(cues: &Vec<VillainSpeechCue>) -> (r: String)
    ensures
        r@ == cues_json(cues@),
{
    let ghost items = cues@.map_values(|c: VillainSpeechCue| cue_json(c));
    let mut body = String::new();
    let mut i: usize = 0;
    while i < cues.len()
        invariant
            i <= cues.len(),
            items == cues@.map_values(|c: VillainSpeechCue| cue_json(c)),
            body@ == join_with(items.take(i as int), ","@),
        decreases cues.len() - i,
    {
        if i > 0 {
            body.append(",");
        }
        push_cue_json(&mut body, &cues[i]);
        proof {
            assert(items.take(i + 1).drop_last() =~= items.take(i as int));
            assert(items.take(i + 1).last() == cue_json(cues@[i as int]));
            if i == 0 {
                assert(items.take(1) =~= seq![items[0]]);
            }
        }
        i = i + 1;
    }
    assert(items.take(cues.len() as int) =~= items);
    let mut r = "[".to_string();
    r.append(body.as_str());
    r.append("]");
    r
}

// ---------------------------------------------------------------------------------------------
// Artifacts
// ---------------------------------------------------------------------------------------------

/// A generation waiting on Gemini or on speech synthesis.
pub open spec fn is_pending(status: GenerationStatus) -> bool {
    status == GenerationStatus::PendingGemini || status == GenerationStatus::PendingTts
}

fn pending(status: GenerationStatus) -> (r: bool)
    ensures
        r == is_pending(status),
{
    status == GenerationStatus::PendingGemini || status == GenerationStatus::PendingTts
}

/// Releases a round content artifact locked by a request that no longer exists
/// (`active_request_exists` tells whether the request it waits on still exists). Returns
/// whether it changed.
pub fn repair_round_artifact_if_stale(artifact: &mut RoundContentArtifact, active_request_exists: bool, now: Timestamp) -> (changed: bool)
    ensures
        changed == (is_pending(old(artifact).status) && !active_request_exists),
        !changed ==> *final(artifact) == *old(artifact),
        changed ==> *final(artifact) == (RoundContentArtifact {
            status: GenerationStatus::Failed,
            active_request_id: None,
            last_error: final(artifact).last_error,
            updated_at: now,
            ..*old(artifact)
        }) && has_text(
            final(artifact).last_error,
            "Recovered from a stale round content lock left by a missing request"@,
        ),
{
    if pending(artifact.status) && !active_request_exists {
        artifact.status = GenerationStatus::Failed;
        artifact.active_request_id = None;
        artifact.last_error = Some(
            "Recovered from a stale round content lock left by a missing request".to_string(),
        );
        artifact.updated_at = now;
        true
    } else {
        false
    }
}

/// Releases a villain speech artifact locked by a request that no longer exists.
pub fn repair_villain_artifact_if_stale(artifact: &mut VillainSpeechArtifact, active_request_exists: bool, now: Timestamp) -> (changed: bool)
    ensures
        changed == (is_pending(old(artifact).status) && !active_request_exists),
        !changed ==> *final(artifact) == *old(artifact),
        changed ==> *final(artifact) == (VillainSpeechArtifact {
            status: GenerationStatus::Failed,
            active_request_id: None,
            last_error: final(artifact).last_error,
            updated_at: now,
            ..*old(artifact)
        }) && has_text(
            final(artifact).last_error,
            "Recovered from a stale villain speech lock left by a missing request"@,
        ),
{
    if pending(artifact.status) && !active_request_exists {
        artifact.status = GenerationStatus::Failed;
        artifact.active_request_id = None;
        artifact.last_error = Some(
            "Recovered from a stale villain speech lock left by a missing request".to_string(),
        );
        artifact.updated_at = now;
        true
    } else {
        false
    }
}

/// A round content artifact failed by its request `request_id` with `message`.
pub open spec fn failed_round_artifact(old: RoundContentArtifact, new: RoundContentArtifact, request_id: u64, message: Seq<char>, now: Timestamp) -> bool {
    &&& new == RoundContentArtifact {
        status: GenerationStatus::Failed,
        active_request_id: if is_active(old.active_request_id, request_id) {
            None
        } else {
            old.active_request_id
        },
        last_error: new.last_error,
        updated_at: now,
        ..old
    }
    &&& has_text(new.last_error, message)
}

pub fn fail_round_artifact(artifact: &mut RoundContentArtifact, request_id: u64, message: String, now: Timestamp)
    ensures
        failed_round_artifact(*old(artifact), *final(artifact), request_id, message@, now),
{
    artifact.status = GenerationStatus::Failed;
    if same_request(artifact.active_request_id, request_id) {
        artifact.active_request_id = None;
    }
    artifact.last_error = Some(message);
    artifact.updated_at = now;
}

/// A villain speech artifact failed by its request `request_id` with `message`.
pub open spec fn failed_villain_artifact(old: VillainSpeechArtifact, new: VillainSpeechArtifact, request_id: u64, message: Seq<char>, now: Timestamp) -> bool {
    &&& new == VillainSpeechArtifact {
        status: GenerationStatus::Failed,
        active_request_id: if is_active(old.active_request_id, request_id) {
            None
        } else {
            old.active_request_id
        },
        last_error: new.last_error,
        updated_at: now,
        ..old
    }
    &&& has_text(new.last_error, message)
}

pub fn fail_villain_artifact(artifact: &mut VillainSpeechArtifact, request_id: u64, message: String, now: Timestamp)
    ensures
        failed_villain_artifact(*old(artifact), *final(artifact), request_id, message@, now),
{
    artifact.status = GenerationStatus::Failed;
    if same_request(artifact.active_request_id, request_id) {
        artifact.active_request_id = None;
    }
    artifact.last_error = Some(message);
    artifact.updated_at = now;
}

/// The round content artifacts, in order, that wait on `request_id`.
pub open spec fn round_artifacts_waiting_on(artifacts: Seq<RoundContentArtifact>, request_id: u64) -> Seq<RoundContentArtifact>
    decreases artifacts.len(),
{
    if artifacts.len() == 0 {
        Seq::empty()
    } else if is_active(artifacts.last().active_request_id, request_id) {
        round_artifacts_waiting_on(artifacts.drop_last(), request_id).push(artifacts.last())
    } else {
        round_artifacts_waiting_on(artifacts.drop_last(), request_id)
    }
}

/// The villain speech artifacts, in order, that wait on `request_id`.
pub open spec fn villain_artifacts_waiting_on(artifacts: Seq<VillainSpeechArtifact>, request_id: u64) -> Seq<VillainSpeechArtifact>
    decreases artifacts.len(),
{
    if artifacts.len() == 0 {
        Seq::empty()
    } else if is_active(artifacts.last().active_request_id, request_id) {
        villain_artifacts_waiting_on(artifacts.drop_last(), request_id).push(artifacts.last())
    } else {
        villain_artifacts_waiting_on(artifacts.drop_last(), request_id)
    }
}

/// An artifact released from a request whose row is gone: failed, with `message`.
pub open spec fn cleared_round_artifact(old: RoundContentArtifact, new: RoundContentArtifact, message: Seq<char>, now: Timestamp) -> bool {
    &&& new == RoundContentArtifact {
        status: GenerationStatus::Failed,
        active_request_id: None,
        last_error: new.last_error,
        updated_at: now,
        ..old
    }
    &&& has_text(new.last_error, message)
}

pub open spec fn cleared_villain_artifact(old: VillainSpeechArtifact, new: VillainSpeechArtifact, message: Seq<char>, now: Timestamp) -> bool {
    &&& new == VillainSpeechArtifact {
        status: GenerationStatus::Failed,
        active_request_id: None,
        last_error: new.last_error,
        updated_at: now,
        ..old
    }
    &&& has_text(new.last_error, message)
}

/// The round content artifacts released from a request whose row is gone, in the order given.
#[verifier::loop_isolation(false)]
pub fn clear_round_artifact_for_unknown_request(artifacts: Vec<RoundContentArtifact>, request_id: u64, message: &str, now: Timestamp) -> (r: Vec<RoundContentArtifact>)
    ensures
        r@.len() == round_artifacts_waiting_on(artifacts@, request_id).len(),
        forall|i: int|
            0 <= i < r@.len() ==> cleared_round_artifact(
                #[trigger] round_artifacts_waiting_on(artifacts@, request_id)[i],
                r@[i],
                message@,
                now,
            ),
{
    let mut out: Vec<RoundContentArtifact> = Vec::new();
    let mut i: usize = 0;
    while i < artifacts.len()
        invariant
            i <= artifacts.len(),
            out@.len() == round_artifacts_waiting_on(artifacts@.take(i as int), request_id).len(),
            forall|k: int|
                0 <= k < out@.len() ==> cleared_round_artifact(
                    #[trigger] round_artifacts_waiting_on(artifacts@.take(i as int), request_id)[k],
                    out@[k],
                    message@,
                    now,
                ),
        decreases artifacts.len() - i,
    {
        proof {
            assert(artifacts@.take(i + 1).drop_last() =~= artifacts@.take(i as int));
            assert(artifacts@.take(i + 1).last() == artifacts@[i as int]);
        }
        if same_request(artifacts[i].active_request_id, request_id) {
            let mut a = copy_round_artifact(&artifacts[i]);
            a.status = GenerationStatus::Failed;
            a.active_request_id = None;
            a.last_error = Some(message.to_string());
            a.updated_at = now;
            out.push(a);
        }
        i = i + 1;
    }
    assert(artifacts@.take(artifacts.len() as int) =~= artifacts@);
    out
}

/// The villain speech artifacts released from a request whose row is gone, in the order given.
#[verifier::loop_isolation(false)]
pub fn clear_villain_artifact_for_unknown_request(artifacts: Vec<VillainSpeechArtifact>, request_id: u64, message: &str, now: Timestamp) -> (r: Vec<VillainSpeechArtifact>)
    ensures
        r@.len() == villain_artifacts_waiting_on(artifacts@, request_id).len(),
        forall|i: int|
            0 <= i < r@.len() ==> cleared_villain_artifact(
                #[trigger] villain_artifacts_waiting_on(artifacts@, request_id)[i],
                r@[i],
                message@,
                now,
            ),
{
    let mut out: Vec<VillainSpeechArtifact> = Vec::new();
    let mut i: usize = 0;
    while i < artifacts.len()
        invariant
            i <= artifacts.len(),
            out@.len() == villain_artifacts_waiting_on(artifacts@.take(i as int), request_id).len(),
            forall|k: int|
                0 <= k < out@.len() ==> cleared_villain_artifact(
                    #[trigger] villain_artifacts_waiting_on(artifacts@.take(i as int), request_id)[k],
                    out@[k],
                    message@,
                    now,
                ),
        decreases artifacts.len() - i,
    {
        proof {
            assert(artifacts@.take(i + 1).drop_last() =~= artifacts@.take(i as int));
            assert(artifacts@.take(i + 1).last() == artifacts@[i as int]);
        }
        if same_request(artifacts[i].active_request_id, request_id) {
            let mut a = copy_villain_artifact(&artifacts[i]);
            a.status = GenerationStatus::Failed;
            a.active_request_id = None;
            a.last_error = Some(message.to_string());
            a.updated_at = now;
            out.push(a);
        }
        i = i + 1;
    }
    assert(artifacts@.take(artifacts.len() as int) =~= artifacts@);
    out
}

fn copy_round_artifact(a: &RoundContentArtifact) -> (r: RoundContentArtifact)
    ensures
        r == *a,
{
    RoundContentArtifact {
        artifact_key: a.artifact_key.clone(),
        room_id: a.room_id.clone(),
        game_id: a.game_id,
        round_key: a.round_key.clone(),
        status: a.status,
        request_payload_json: a.request_payload_json.clone(),
        response_payload_json: copy_opt_string(&a.response_payload_json),
        hidden_answer_candidate: copy_opt_string(&a.hidden_answer_candidate),
        active_request_id: a.active_request_id,
        last_error: copy_opt_string(&a.last_error),
        updated_at: a.updated_at,
    }
}

fn copy_villain_artifact(a: &VillainSpeechArtifact) -> (r: VillainSpeechArtifact)
    ensures
        r == *a,
{
    VillainSpeechArtifact {
        artifact_key: a.artifact_key.clone(),
        room_id: a.room_id.clone(),
        game_id: a.game_id,
        round_key: copy_opt_string(&a.round_key),
        status: a.status,
        request_payload_json: a.request_payload_json.clone(),
        speech_cues_json: copy_opt_string(&a.speech_cues_json),
        selected_cue_id: copy_opt_string(&a.selected_cue_id),
        selected_speech_text: copy_opt_string(&a.selected_speech_text),
        audio_base64: copy_opt_string(&a.audio_base64),
        mime_type: copy_opt_string(&a.mime_type),
        tts_provider: copy_opt_string(&a.tts_provider),
        active_request_id: a.active_request_id,
        last_error: copy_opt_string(&a.last_error),
        updated_at: a.updated_at,
    }
}

// ---------------------------------------------------------------------------------------------
// Starting a generation
// ---------------------------------------------------------------------------------------------

/// The queue row that sends round generation request `request_id` to Gemini.
pub fn queue_round_generation_request(request_id: u64, now: Timestamp) -> (r: RoundGenerationRequestSchedule)
    ensures
        r == (RoundGenerationRequestSchedule { scheduled_id: 0, scheduled_at: now, request_id }),
{
    RoundGenerationRequestSchedule { scheduled_id: 0, scheduled_at: now, request_id }
}

/// The queue row that sends villain speech request `request_id` to Gemini.
pub fn queue_villain_speech_request(request_id: u64, now: Timestamp) -> (r: VillainSpeechRequestSchedule)
    ensures
        r == (VillainSpeechRequestSchedule { scheduled_id: 0, scheduled_at: now, request_id }),
{
    VillainSpeechRequestSchedule { scheduled_id: 0, scheduled_at: now, request_id }
}

/// The queue row that sends the speech of villain speech request `request_id` to ElevenLabs.
pub fn queue_villain_tts_request(request_id: u64, now: Timestamp) -> (r: VillainTtsRequestSchedule)
    ensures
        r == (VillainTtsRequestSchedule { scheduled_id: 0, scheduled_at: now, request_id }),
{
    VillainTtsRequestSchedule { scheduled_id: 0, scheduled_at: now, request_id }
}

/// Why a room refuses generation: a blank id, an unknown room, or a terminated one.
pub open spec fn room_refusal(room_id: Seq<char>, room: Option<GameRoom>) -> Option<Seq<char>> {
    if normalized_room_id(room_id).len() == 0 {
        Some("room_id must not be empty"@)
    } else {
        match room {
            None => Some(room_missing_message(normalized_room_id(room_id))),
            Some(g) => if g.status == RoomStatus::Terminated {
                Some(room_terminated_message(g.room_id@))
            } else {
                None
            },
        }
    }
}

/// The rows written when a clue/manual generation starts; the request is inserted (which
/// gives it its id) and `start_round_generation` then links the artifact to it.
#[derive(Debug, Clone)]
pub struct RoundGenerationStarted {
    pub request: RoundGenerationRequest,
    pub artifact: RoundContentArtifact,
}

/// Why a clue/manual generation request is refused, in the order of the checks. `room` is the
/// room found under the normalized id, `existing` the artifact found under the artifact key,
/// and `active_request_exists` whether the request that artifact waits on still exists.
pub open spec fn clue_manual_refusal(
    room_id: Seq<char>,
    room: Option<GameRoom>,
    round_key: Seq<char>,
    payload: Seq<char>,
    schema: Seq<char>,
    existing: Option<RoundContentArtifact>,
    active_request_exists: bool,
) -> Option<Seq<char>> {
    if room_refusal(room_id, room) is Some {
        room_refusal(room_id, room)
    } else if !is_round_key(round_key_of(round_key)) {
        Some(bad_round_key_message(round_key))
    } else if json_object_text("request_payload_json"@, payload) is Err {
        Some(json_object_text("request_payload_json"@, payload)->Err_0)
    } else if schema_text(round_key_of(round_key), schema) is Err {
        Some(schema_text(round_key_of(round_key), schema)->Err_0)
    } else if existing matches Some(a) && is_pending(a.status) && active_request_exists {
        Some(
            "round content generation is already in progress for room "@ + room->0.room_id@ + " "@
                + round_key_of(round_key),
        )
    } else {
        None
    }
}

/// The rows of a started clue/manual generation.
pub open spec fn clue_manual_started(
    out: RoundGenerationStarted,
    room: GameRoom,
    round_key: Seq<char>,
    payload: Seq<char>,
    schema: Seq<char>,
    sender: Identity,
    now: Timestamp,
) -> bool {
    let key = round_key_of(round_key);
    let q = out.request;
    &&& q == RoundGenerationRequest {
        request_id: 0,
        room_id: room.room_id,
        game_id: room.game_id,
        player_identity: sender,
        phase: RoundGenerationPhase::PendingGeminiSkeleton,
        skeleton_payload_json: None,
        response_payload_json: None,
        hidden_answer_candidate: None,
        error_message: None,
        created_at: now,
        updated_at: now,
        retries: Some(0),
        ..q
    }
    &&& q.artifact_key@ == room.room_id@ + "::"@ + key
    &&& q.round_key@ == key
    &&& json_object_text("request_payload_json"@, payload) == Ok::<Seq<char>, Seq<char>>(q.request_payload_json@)
    &&& schema_text(key, schema) == Ok::<Seq<char>, Seq<char>>(q.response_schema_json@)
    &&& out.artifact == RoundContentArtifact {
        artifact_key: q.artifact_key,
        room_id: room.room_id,
        game_id: room.game_id,
        round_key: q.round_key,
        status: GenerationStatus::PendingGemini,
        request_payload_json: q.request_payload_json,
        response_payload_json: None,
        hidden_answer_candidate: None,
        active_request_id: None,
        last_error: None,
        updated_at: now,
    }
}

/// Starts a room-scoped clue/manual generation for a round: the room must exist and run, the
/// payload must be a JSON object, the schema (the round's default when blank) valid JSON, and
/// no generation for the same room and round may be in progress.
pub fn generate_clue_manual_for_room(
    room_id: String,
    room: Option<GameRoom>,
    round_key: String,
    request_payload_json: String,
    response_schema_json: String,
    existing: Option<RoundContentArtifact>,
    active_request_exists: bool,
    sender: Identity,
    now: Timestamp,
) -> (r: Result<RoundGenerationStarted, String>)
    ensures
        clue_manual_refusal(
            room_id@,
            room,
            round_key@,
            request_payload_json@,
            response_schema_json@,
            existing,
            active_request_exists,
        ) matches Some(m) ==> (r matches Err(e) && e@ == m),
        clue_manual_refusal(
            room_id@,
            room,
            round_key@,
            request_payload_json@,
            response_schema_json@,
            existing,
            active_request_exists,
        ) is None ==> (r matches Ok(out) && clue_manual_started(
            out,
            room->0,
            round_key@,
            request_payload_json@,
            response_schema_json@,
            sender,
            now,
        )),
{
    let normalized_room_id = normalize_room_id(room_id.as_str())?;
    let room = load_room(normalized_room_id.as_str(), room)?;
    ensure_room_is_active(&room)?;
    ensure_generation_room_access(&room)?;
    let key = normalize_round_key(round_key.as_str())?;
    let payload = normalize_json_object("request_payload_json", request_payload_json)?;
    let schema = normalize_round_schema_json(key.as_str(), response_schema_json)?;
    let artifact_key = format_round_artifact_key(room.room_id.as_str(), key.as_str());
    if let Some(mut found) = existing {
        repair_round_artifact_if_stale(&mut found, active_request_exists, now);
        if pending(found.status) {
            let mut m = cat("round content generation is already in progress for room ", room.room_id.as_str());
            m.append(" ");
            m.append(key.as_str());
            return Err(m);
        }
    }
    let request = RoundGenerationRequest {
        request_id: 0,
        artifact_key: artifact_key.clone(),
        room_id: room.room_id.clone(),
        game_id: room.game_id,
        round_key: key.clone(),
        player_identity: sender,
        request_payload_json: payload.clone(),
        response_schema_json: schema,
        phase: RoundGenerationPhase::PendingGeminiSkeleton,
        skeleton_payload_json: None,
        response_payload_json: None,
        hidden_answer_candidate: None,
        error_message: None,
        created_at: now,
        updated_at: now,
        retries: Some(0),
    };
    let artifact = RoundContentArtifact {
        artifact_key,
        room_id: room.room_id,
        game_id: room.game_id,
        round_key: key,
        status: GenerationStatus::PendingGemini,
        request_payload_json: payload,
        response_payload_json: None,
        hidden_answer_candidate: None,
        active_request_id: None,
        last_error: None,
        updated_at: now,
    };
    Ok(RoundGenerationStarted { request, artifact })
}

/// Links the artifact to its inserted request and queues the request's Gemini call.
pub fn start_round_generation(artifact: &mut RoundContentArtifact, request: &RoundGenerationRequest, now: Timestamp) -> (job: RoundGenerationRequestSchedule)
    ensures
        *final(artifact) == (RoundContentArtifact { active_request_id: Some(request.request_id), ..*old(artifact) }),
        job == (RoundGenerationRequestSchedule { scheduled_id: 0, scheduled_at: now, request_id: request.request_id }),
{
    artifact.active_request_id = Some(request.request_id);
    queue_round_generation_request(request.request_id, now)
}

/// The rows written when a villain speech generation starts; the request is inserted and
/// `start_villain_speech` then links the artifact to it.
#[derive(Debug, Clone)]
pub struct VillainSpeechStarted {
    pub request: VillainSpeechRequest,
    pub artifact: VillainSpeechArtifact,
}

/// The artifact key of a villain speech request for the room `room_id` and the payload's round.
pub open spec fn villain_key(room_id: Seq<char>, round: Option<Seq<char>>) -> Seq<char> {
    match round {
        Some(k) => room_id + "::"@ + k,
        None => room_id + "::"@ + "general"@,
    }
}

/// Why a villain speech generation request is refused, in the order of the checks.
pub open spec fn villain_speech_refusal(
    room_id: Seq<char>,
    room: Option<GameRoom>,
    payload: Seq<char>,
    existing: Option<VillainSpeechArtifact>,
    active_request_exists: bool,
) -> Option<Seq<char>> {
    let p = json_object_text("request_payload_json"@, payload);
    if room_refusal(room_id, room) is Some {
        room_refusal(room_id, room)
    } else if p is Err {
        Some(p->Err_0)
    } else if json_syntax_error(p->Ok_0) is Some {
        Some("invalid request_payload_json: "@ + json_syntax_error(p->Ok_0)->0)
    } else if optional_round_key(p->Ok_0) is Err {
        Some(optional_round_key(p->Ok_0)->Err_0)
    } else if existing matches Some(a) && is_pending(a.status) && active_request_exists {
        Some(
            "villain speech generation is already in progress for room "@ + room->0.room_id@
                + " scope "@ + villain_key(room->0.room_id@, optional_round_key(p->Ok_0)->Ok_0),
        )
    } else {
        None
    }
}

/// The rows of a started villain speech generation.
pub open spec fn villain_speech_started(
    out: VillainSpeechStarted,
    room: GameRoom,
    payload: Seq<char>,
    sender: Identity,
    now: Timestamp,
) -> bool {
    let p = json_object_text("request_payload_json"@, payload)->Ok_0;
    let q = out.request;
    &&& q == VillainSpeechRequest {
        request_id: 0,
        room_id: room.room_id,
        game_id: room.game_id,
        player_identity: sender,
        phase: VillainSpeechPhase::PendingGemini,
        speech_cues_json: None,
        selected_cue_id: None,
        selected_speech_text: None,
        audio_base64: None,
        mime_type: None,
        tts_provider: None,
        error_message: None,
        created_at: now,
        updated_at: now,
        retries: Some(0),
        ..q
    }
    &&& q.request_payload_json@ == p
    &&& crate::text::opt_view(q.round_key) == optional_round_key(p)->Ok_0
    &&& q.artifact_key@ == villain_key(room.room_id@, optional_round_key(p)->Ok_0)
    &&& out.artifact == VillainSpeechArtifact {
        artifact_key: q.artifact_key,
        room_id: room.room_id,
        game_id: room.game_id,
        round_key: q.round_key,
        status: GenerationStatus::PendingGemini,
        request_payload_json: q.request_payload_json,
        speech_cues_json: None,
        selected_cue_id: None,
        selected_speech_text: None,
        audio_base64: None,
        mime_type: None,
        tts_provider: None,
        active_request_id: None,
        last_error: None,
        updated_at: now,
    }
}

/// Starts a room-scoped villain speech generation: the room must exist and run, the payload
/// must be a JSON object whose optional `round_key` names a round, and no generation for the
/// same room and scope may be in progress.
pub fn generate_villain_speech_for_room(
    room_id: String,
    room: Option<GameRoom>,
    request_payload_json: String,
    existing: Option<VillainSpeechArtifact>,
    active_request_exists: bool,
    sender: Identity,
    now: Timestamp,
) -> (r: Result<VillainSpeechStarted, String>)
    ensures
        villain_speech_refusal(room_id@, room, request_payload_json@, existing, active_request_exists)
            matches Some(m) ==> (r matches Err(e) && e@ == m),
        villain_speech_refusal(room_id@, room, request_payload_json@, existing, active_request_exists)
            is None ==> (r matches Ok(out) && villain_speech_started(
            out,
            room->0,
            request_payload_json@,
            sender,
            now,
        )),
{
    let normalized_room_id = normalize_room_id(room_id.as_str())?;
    let room = load_room(normalized_room_id.as_str(), room)?;
    ensure_room_is_active(&room)?;
    ensure_generation_room_access(&room)?;
    let payload = normalize_json_object("request_payload_json", request_payload_json)?;
    if let Some(err) = json_parse_error(payload.as_str()) {
        return Err(cat("invalid request_payload_json: ", err.as_str()));
    }
    let round_key = extract_optional_round_key(payload.as_str())?;
    let artifact_key = match &round_key {
        Some(k) => format_villain_artifact_key(room.room_id.as_str(), Some(k.as_str())),
        None => format_villain_artifact_key(room.room_id.as_str(), None),
    };
    if let Some(mut found) = existing {
        repair_villain_artifact_if_stale(&mut found, active_request_exists, now);
        if pending(found.status) {
            let mut m = cat("villain speech generation is already in progress for room ", room.room_id.as_str());
            m.append(" scope ");
            m.append(artifact_key.as_str());
            return Err(m);
        }
    }
    let request = VillainSpeechRequest {
        request_id: 0,
        artifact_key: artifact_key.clone(),
        room_id: room.room_id.clone(),
        game_id: room.game_id,
        player_identity: sender,
        round_key: copy_opt_string(&round_key),
        request_payload_json: payload.clone(),
        phase: VillainSpeechPhase::PendingGemini,
        speech_cues_json: None,
        selected_cue_id: None,
        selected_speech_text: None,
        audio_base64: None,
        mime_type: None,
        tts_provider: None,
        error_message: None,
        created_at: now,
        updated_at: now,
        retries: Some(0),
    };
    let artifact = VillainSpeechArtifact {
        artifact_key,
        room_id: room.room_id,
        game_id: room.game_id,
        round_key,
        status: GenerationStatus::PendingGemini,
        request_payload_json: payload,
        speech_cues_json: None,
        selected_cue_id: None,
        selected_speech_text: None,
        audio_base64: None,
        mime_type: None,
        tts_provider: None,
        active_request_id: None,
        last_error: None,
        updated_at: now,
    };
    Ok(VillainSpeechStarted { request, artifact })
}

/// Links the artifact to its inserted request and queues the request's Gemini call.
pub fn start_villain_speech(artifact: &mut VillainSpeechArtifact, request: &VillainSpeechRequest, now: Timestamp) -> (job: VillainSpeechRequestSchedule)
    ensures
        *final(artifact) == (VillainSpeechArtifact { active_request_id: Some(request.request_id), ..*old(artifact) }),
        job == (VillainSpeechRequestSchedule { scheduled_id: 0, scheduled_at: now, request_id: request.request_id }),
{
    artifact.active_request_id = Some(request.request_id);
    queue_villain_speech_request(request.request_id, now)
}

// ---------------------------------------------------------------------------------------------
// The clue/manual answer
// ---------------------------------------------------------------------------------------------

/// What a Gemini answer body yields as round content: the JSON value itself, or, for a
/// `generateContent` envelope, the JSON in its first text part (`envelope` is the body read as
/// an envelope). The content is given as compact JSON.
pub open spec fn round_content(body: Seq<char>, envelope: Result<GeminiGenerateContentResponse, String>) -> Result<Seq<char>, Seq<char>> {
    if json_syntax_error(body) is Some {
        Err(json_syntax_error(body)->0)
    } else if json_has(body, "/candidates"@) {
        let finish = if json_array(body, "/candidates"@) && json_str(body, "/candidates/0/finishReason"@) is Some {
            json_str(body, "/candidates/0/finishReason"@)->0
        } else {
            "UNKNOWN"@
        };
        match gemini_text(envelope) {
            Err(m) => Err(m),
            Ok(t) => if json_syntax_error(t) is None {
                Ok(json_compact_at(t, ""@)->0)
            } else if finish != "STOP"@ {
                Err(
                    "Gemini candidate incomplete (finishReason="@ + finish
                        + "); retry generation with a smaller payload"@,
                )
            } else {
                Err(
                    "failed to parse extracted Gemini candidate JSON: "@ + json_syntax_error(t)->0
                        + "; candidate_len="@ + decimal((encode_utf8(t).len() as usize) as nat),
                )
            },
        }
    } else {
        Ok(json_compact_at(body, ""@)->0)
    }
}

/// Reads a round generation answer (see `round_content`).
pub fn parse_round_generation_result(body: &str, envelope: Result<GeminiGenerateContentResponse, String>) -> (r: Result<String, String>)
    ensures
        round_content(body@, envelope) matches Ok(c) ==> (r matches Ok(s) && s@ == c),
        round_content(body@, envelope) matches Err(m) ==> (r matches Err(e) && e@ == m),
{
    proof {
        reveal_strlit("");
    }
    if let Some(err) = json_parse_error(body) {
        return Err(err);
    }
    if json_has_at(body, "/candidates") {
        let finish = if json_array_at(body, "/candidates") {
            match json_str_at(body, "/candidates/0/finishReason") {
                Some(f) => f,
                None => "UNKNOWN".to_string(),
            }
        } else {
            "UNKNOWN".to_string()
        };
        let text = extract_gemini_text(envelope)?;
        match json_parse_error(text.as_str()) {
            None => {
                return match json_compact(text.as_str(), "") {
                    Some(c) => Ok(c),
                    None => Err("failed to parse extracted Gemini candidate JSON".to_string()),
                };
            },
            Some(err) => {
                if !str_eq(finish.as_str(), "STOP") {
                    let mut m = cat("Gemini candidate incomplete (finishReason=", finish.as_str());
                    m.append("); retry generation with a smaller payload");
                    return Err(m);
                }
                let len = u64_to_decimal(text.as_str().len() as u64);
                let mut m = cat("failed to parse extracted Gemini candidate JSON: ", err.as_str());
                m.append("; candidate_len=");
                m.append(len.as_str());
                return Err(m);
            },
        }
    }
    match json_compact(body, "") {
        Some(c) => Ok(c),
        None => Err("failed to parse round content JSON".to_string()),
    }
}

/// The rows a round content callback writes back, and the call it queues.
#[derive(Debug, Clone)]
pub struct RoundContentWrites {
    pub request: Option<RoundGenerationRequest>,
    pub artifacts: Vec<RoundContentArtifact>,
    pub job: Option<RoundGenerationRequestSchedule>,
}

/// A round generation request failed with `message`, and its artifact with it.
pub open spec fn round_generation_failed(
    w: RoundContentWrites,
    request: RoundGenerationRequest,
    artifact: RoundContentArtifact,
    message: Seq<char>,
    now: Timestamp,
) -> bool {
    &&& w.request matches Some(q) && q == RoundGenerationRequest {
        phase: RoundGenerationPhase::Failed,
        error_message: q.error_message,
        updated_at: now,
        ..request
    } && has_text(q.error_message, message)
    &&& w.artifacts@.len() == 1
    &&& failed_round_artifact(artifact, w.artifacts@[0], request.request_id, message, now)
    &&& w.job is None
}

/// The package stored when round content `content` completes `request`: for the round 1
/// expansion, the merge with the stored skeleton; otherwise the content itself.
pub open spec fn finished_round_content(request: RoundGenerationRequest, content: Seq<char>) -> Result<Seq<char>, Seq<char>> {
    if request.round_key@ == "round_1"@ && request.phase == RoundGenerationPhase::PendingGeminiExpansion {
        match request.skeleton_payload_json {
            None => Err(
                "round 1 expansion finished without a stored skeleton for request "@ + decimal(
                    request.request_id as nat,
                ),
            ),
            Some(sk) => round_one_package(sk@, content),
        }
    } else {
        Ok(content)
    }
}

/// How a Gemini answer is applied to a round generation `request` and its `artifact`.
pub open spec fn round_content_applied(
    r: Result<RoundContentWrites, String>,
    request: RoundGenerationRequest,
    artifact: RoundContentArtifact,
    callback: RoundGenerationCallbackSchedule,
    envelope: Result<GeminiGenerateContentResponse, String>,
    now: Timestamp,
) -> bool {
    let id = request.request_id;
    let retries: u32 = match request.retries {
        Some(n) => n,
        None => 0,
    };
    match callback.transport_error {
        Some(te) => r matches Ok(w) && round_generation_failed(w, request, artifact, te@, now),
        None => if callback.status_code == 429 && retries < 3 {
            r matches Ok(w) && {
                &&& w.request == Some(
                    RoundGenerationRequest { retries: Some((retries + 1) as u32), updated_at: now, ..request },
                )
                &&& w.artifacts@.len() == 0
                &&& w.job == Some(RoundGenerationRequestSchedule { scheduled_id: 0, scheduled_at: now, request_id: id })
            }
        } else if callback.status_code != 200 {
            r matches Ok(w) && round_generation_failed(
                w,
                request,
                artifact,
                gemini_http_error(callback.status_code, callback.response_body@),
                now,
            )
        } else {
            match round_content(callback.response_body@, envelope) {
                Err(m) => r matches Ok(w) && round_generation_failed(
                    w,
                    request,
                    artifact,
                    "Invalid round content JSON: "@ + m,
                    now,
                ),
                Ok(c) => if request.round_key@ == "round_1"@ && request.phase
                    == RoundGenerationPhase::PendingGeminiSkeleton {
                    r matches Ok(w) && {
                        &&& w.request matches Some(q) && q == RoundGenerationRequest {
                            phase: RoundGenerationPhase::PendingGeminiExpansion,
                            skeleton_payload_json: q.skeleton_payload_json,
                            retries: Some(0),
                            error_message: None,
                            updated_at: now,
                            ..request
                        } && has_text(q.skeleton_payload_json, c)
                        &&& w.artifacts@.len() == 0
                        &&& w.job == Some(
                            RoundGenerationRequestSchedule { scheduled_id: 0, scheduled_at: now, request_id: id },
                        )
                    }
                } else {
                    match finished_round_content(request, c) {
                        Err(m) => r matches Err(e) && e@ == m,
                        Ok(f) => r matches Ok(w) && {
                            let q = w.request->0;
                            &&& w.request is Some
                            &&& q == RoundGenerationRequest {
                                phase: RoundGenerationPhase::Succeeded,
                                response_payload_json: q.response_payload_json,
                                hidden_answer_candidate: q.hidden_answer_candidate,
                                error_message: None,
                                updated_at: now,
                                ..request
                            } && has_text(q.response_payload_json, f) && crate::text::opt_view(
                                q.hidden_answer_candidate,
                            ) == hidden_candidate(f)
                            &&& w.artifacts@.len() == 1
                            &&& w.artifacts@[0] == RoundContentArtifact {
                                status: GenerationStatus::Succeeded,
                                response_payload_json: q.response_payload_json,
                                hidden_answer_candidate: q.hidden_answer_candidate,
                                active_request_id: if is_active(artifact.active_request_id, id) {
                                    None
                                } else {
                                    artifact.active_request_id
                                },
                                last_error: None,
                                updated_at: now,
                                ..artifact
                            }
                            &&& w.job is None
                        },
                    }
                },
            }
        },
    }
}

fn round_failure(
    request: RoundGenerationRequest,
    artifact: RoundContentArtifact,
    message: String,
    now: Timestamp,
) -> (w: RoundContentWrites)
    ensures
        round_generation_failed(w, request, artifact, message@, now),
{
    let mut request = request;
    let mut artifact = artifact;
    request.phase = RoundGenerationPhase::Failed;
    request.error_message = Some(message.clone());
    request.updated_at = now;
    let id = request.request_id;
    fail_round_artifact(&mut artifact, id, message, now);
    let mut artifacts: Vec<RoundContentArtifact> = Vec::new();
    artifacts.push(artifact);
    RoundContentWrites { request: Some(request), artifacts, job: None }
}

/// Applies a Gemini answer to a round generation request (see `round_content_applied`): the
/// round 1 skeleton is stored and its expansion queued; any other answer completes the request
/// and its artifact.
#[verifier::rlimit(40)]
pub fn apply_round_content(
    request: RoundGenerationRequest,
    artifact: RoundContentArtifact,
    callback: &RoundGenerationCallbackSchedule,
    envelope: Result<GeminiGenerateContentResponse, String>,
    now: Timestamp,
) -> (r: Result<RoundContentWrites, String>)
    ensures
        round_content_applied(r, request, artifact, *callback, envelope, now),
{
    let mut request = request;
    let mut artifact = artifact;
    let id = request.request_id;
    if let Some(te) = &callback.transport_error {
        return Ok(round_failure(request, artifact, te.clone(), now));
    }
    let retries: u32 = match request.retries {
        Some(n) => n,
        None => 0,
    };
    if callback.status_code == 429 && retries < 3 {
        request.retries = Some(retries + 1);
        request.updated_at = now;
        return Ok(
            RoundContentWrites {
                request: Some(request),
                artifacts: Vec::new(),
                job: Some(queue_round_generation_request(id, now)),
            },
        );
    }
    if callback.status_code != 200 {
        let message = summarize_gemini_http_error(callback.status_code, callback.response_body.as_str());
        return Ok(round_failure(request, artifact, message, now));
    }
    let content = match parse_round_generation_result(callback.response_body.as_str(), envelope) {
        Ok(c) => c,
        Err(err) => {
            return Ok(round_failure(request, artifact, cat("Invalid round content JSON: ", err.as_str()), now));
        },
    };
    let round_one = str_eq(request.round_key.as_str(), "round_1");
    if round_one && request.phase == RoundGenerationPhase::PendingGeminiSkeleton {
        request.phase = RoundGenerationPhase::PendingGeminiExpansion;
        request.skeleton_payload_json = Some(content);
        request.retries = Some(0);
        request.error_message = None;
        request.updated_at = now;
        return Ok(
            RoundContentWrites {
                request: Some(request),
                artifacts: Vec::new(),
                job: Some(queue_round_generation_request(id, now)),
            },
        );
    }
    let finished = if round_one && request.phase == RoundGenerationPhase::PendingGeminiExpansion {
        match &request.skeleton_payload_json {
            None => {
                let n = u64_to_decimal(id);
                return Err(cat("round 1 expansion finished without a stored skeleton for request ", n.as_str()));
            },
            Some(sk) => compose_round_one_final_payload(sk.as_str(), content.as_str())?,
        }
    } else {
        content
    };
    let candidate = extract_hidden_answer_candidate(finished.as_str());
    request.phase = RoundGenerationPhase::Succeeded;
    request.response_payload_json = Some(finished.clone());
    request.hidden_answer_candidate = copy_opt_string(&candidate);
    request.error_message = None;
    request.updated_at = now;
    artifact.status = GenerationStatus::Succeeded;
    artifact.response_payload_json = Some(finished);
    artifact.hidden_answer_candidate = candidate;
    if same_request(artifact.active_request_id, id) {
        artifact.active_request_id = None;
    }
    artifact.last_error = None;
    artifact.updated_at = now;
    let mut artifacts: Vec<RoundContentArtifact> = Vec::new();
    artifacts.push(artifact);
    Ok(RoundContentWrites { request: Some(request), artifacts, job: None })
}

/// Handles the Gemini answer of a round generation request (only the scheduler may call it).
/// Its inputs are the callback row, the request row it names, that request's artifact, every
/// round content artifact (used when the request row is gone), and the body read as a Gemini
/// envelope (or the error reading it).
pub fn _round_content_callback(
    is_internal: bool,
    callback: RoundGenerationCallbackSchedule,
    request: Option<RoundGenerationRequest>,
    artifact: Option<RoundContentArtifact>,
    all_artifacts: Vec<RoundContentArtifact>,
    envelope: Result<GeminiGenerateContentResponse, String>,
    now: Timestamp,
) -> (r: Result<RoundContentWrites, String>)
    ensures
        !is_internal ==> (r matches Err(e) && e@ == "_round_content_callback may only be invoked by the scheduler"@),
        is_internal ==> match request {
            None => r matches Ok(w) && {
                let waiting = round_artifacts_waiting_on(all_artifacts@, callback.request_id);
                &&& w.request is None && w.job is None
                &&& w.artifacts@.len() == waiting.len()
                &&& forall|i: int|
                    0 <= i < waiting.len() ==> cleared_round_artifact(
                        #[trigger] waiting[i],
                        w.artifacts@[i],
                        "round content callback arrived after the request row was removed"@,
                        now,
                    )
            },
            Some(q) => match artifact {
                None => r matches Ok(w) && w.request is None && w.artifacts@.len() == 0 && w.job is None,
                Some(a) => round_content_applied(r, q, a, callback, envelope, now),
            },
        },
{
    if !is_internal {
        return Err("_round_content_callback may only be invoked by the scheduler".to_string());
    }
    let request = match request {
        Some(q) => q,
        None => {
            let cleared = clear_round_artifact_for_unknown_request(
                all_artifacts,
                callback.request_id,
                "round content callback arrived after the request row was removed",
                now,
            );
            return Ok(RoundContentWrites { request: None, artifacts: cleared, job: None });
        },
    };
    let artifact = match artifact {
        Some(a) => a,
        None => {
            return Ok(RoundContentWrites { request: None, artifacts: Vec::new(), job: None });
        },
    };
    apply_round_content(request, artifact, &callback, envelope, now)
}

// ---------------------------------------------------------------------------------------------
// The villain speech and audio answers
// ---------------------------------------------------------------------------------------------

/// The rows a villain speech callback writes back, and the calls it queues.
#[derive(Debug, Clone)]
pub struct VillainSpeechWrites {
    pub request: Option<VillainSpeechRequest>,
    pub artifacts: Vec<VillainSpeechArtifact>,
    pub speech_job: Option<VillainSpeechRequestSchedule>,
    pub tts_job: Option<VillainTtsRequestSchedule>,
}

/// A villain speech request failed with `message`, and its artifact with it.
pub open spec fn villain_speech_failed(
    w: VillainSpeechWrites,
    request: VillainSpeechRequest,
    artifact: VillainSpeechArtifact,
    message: Seq<char>,
    now: Timestamp,
) -> bool {
    &&& w.request matches Some(q) && q == VillainSpeechRequest {
        phase: VillainSpeechPhase::Failed,
        error_message: q.error_message,
        updated_at: now,
        ..request
    } && has_text(q.error_message, message)
    &&& w.artifacts@.len() == 1
    &&& failed_villain_artifact(artifact, w.artifacts@[0], request.request_id, message, now)
    &&& w.speech_job is None
    &&& w.tts_job is None
}

/// A request re-sent after a rate limit, in `phase`.
pub open spec fn villain_retried(w: VillainSpeechWrites, request: VillainSpeechRequest, phase: VillainSpeechPhase, now: Timestamp) -> bool {
    let retries: u32 = match request.retries {
        Some(n) => n,
        None => 0,
    };
    &&& w.request == Some(
        VillainSpeechRequest { retries: Some((retries + 1) as u32), phase, updated_at: now, ..request },
    )
    &&& w.artifacts@.len() == 0
}

/// The speech read from a Gemini answer: the body itself when it is the speech object
/// (`direct`), else what the response envelope's text yields (`from_envelope`).
pub open spec fn speech_decision(
    direct: Option<VillainSpeechGeminiResponse>,
    from_envelope: Result<VillainSpeechGeminiResponse, String>,
) -> Result<VillainSpeechGeminiResponse, String> {
    match direct {
        Some(d) => Ok(d),
        None => from_envelope,
    }
}

/// How a Gemini answer is applied to a villain speech `request` and its `artifact`.
/// `payload` is the request's payload read as a speech payload (or the error reading it) and
/// `voice_config` the stored ElevenLabs settings.
pub open spec fn villain_speech_applied(
    r: Result<VillainSpeechWrites, String>,
    request: VillainSpeechRequest,
    artifact: VillainSpeechArtifact,
    callback: VillainSpeechCallbackSchedule,
    decision: Result<VillainSpeechGeminiResponse, String>,
    payload: Result<VillainSpeechGenerationPayload, String>,
    voice_config: Option<VoiceConfig>,
    now: Timestamp,
) -> bool {
    let id = request.request_id;
    let retries: u32 = match request.retries {
        Some(n) => n,
        None => 0,
    };
    match callback.transport_error {
        Some(te) => r matches Ok(w) && villain_speech_failed(w, request, artifact, te@, now),
        None => if callback.status_code == 429 && retries < 3 {
            r matches Ok(w) && villain_retried(w, request, VillainSpeechPhase::PendingGemini, now)
                && w.speech_job == Some(
                VillainSpeechRequestSchedule { scheduled_id: 0, scheduled_at: now, request_id: id },
            ) && w.tts_job is None
        } else if callback.status_code != 200 {
            r matches Ok(w) && villain_speech_failed(
                w,
                request,
                artifact,
                "Gemini returned HTTP "@ + decimal(callback.status_code as nat),
                now,
            )
        } else {
            match decision {
                Err(err) => r matches Ok(w) && villain_speech_failed(
                    w,
                    request,
                    artifact,
                    "Invalid villain speech JSON: "@ + err@,
                    now,
                ),
                Ok(d) => if d.speech_cues@.len() == 0 {
                    r matches Ok(w) && villain_speech_failed(
                        w,
                        request,
                        artifact,
                        "villain speech generation returned no speech cues"@,
                        now,
                    )
                } else {
                    match payload {
                        Err(e) => r matches Err(m) && m@ == "invalid villain speech payload JSON: "@ + e@,
                        Ok(p) => {
                            let pick = chosen_cue(d.speech_cues@, crate::text::opt_view(p.selected_cue_id))->0;
                            let cue = d.speech_cues@[pick];
                            let synthesize = p.synthesize_audio == Some(true);
                            r matches Ok(w) && {
                                let q = w.request->0;
                                &&& w.request is Some
                                &&& w.speech_job is None
                                &&& q.speech_cues_json matches Some(cj) && cj@ == cues_json(d.speech_cues@)
                                &&& q.selected_cue_id == Some(cue.cue_id)
                                &&& q.selected_speech_text == Some(cue.speech_text)
                                &&& w.artifacts@.len() == 1
                                &&& if synthesize && crate::config::voice_ready(voice_config) {
                                    &&& q == VillainSpeechRequest {
                                        phase: VillainSpeechPhase::PendingTts,
                                        speech_cues_json: q.speech_cues_json,
                                        selected_cue_id: q.selected_cue_id,
                                        selected_speech_text: q.selected_speech_text,
                                        audio_base64: None,
                                        mime_type: None,
                                        error_message: None,
                                        retries: Some(0),
                                        updated_at: now,
                                        ..request
                                    }
                                    &&& w.artifacts@[0] == VillainSpeechArtifact {
                                        status: GenerationStatus::PendingTts,
                                        speech_cues_json: q.speech_cues_json,
                                        selected_cue_id: q.selected_cue_id,
                                        selected_speech_text: q.selected_speech_text,
                                        audio_base64: None,
                                        mime_type: None,
                                        tts_provider: None,
                                        last_error: None,
                                        updated_at: now,
                                        ..artifact
                                    }
                                    &&& w.tts_job == Some(
                                        VillainTtsRequestSchedule { scheduled_id: 0, scheduled_at: now, request_id: id },
                                    )
                                } else {
                                    &&& q == VillainSpeechRequest {
                                        phase: VillainSpeechPhase::Succeeded,
                                        speech_cues_json: q.speech_cues_json,
                                        selected_cue_id: q.selected_cue_id,
                                        selected_speech_text: q.selected_speech_text,
                                        audio_base64: None,
                                        mime_type: None,
                                        tts_provider: q.tts_provider,
                                        error_message: None,
                                        updated_at: now,
                                        ..request
                                    }
                                    &&& has_text(
                                        q.tts_provider,
                                        if synthesize {
                                            "disabled"@
                                        } else {
                                            "none"@
                                        },
                                    )
                                    &&& w.artifacts@[0] == VillainSpeechArtifact {
                                        status: GenerationStatus::Succeeded,
                                        speech_cues_json: q.speech_cues_json,
                                        selected_cue_id: q.selected_cue_id,
                                        selected_speech_text: q.selected_speech_text,
                                        audio_base64: None,
                                        mime_type: None,
                                        tts_provider: q.tts_provider,
                                        active_request_id: if is_active(artifact.active_request_id, id) {
                                            None
                                        } else {
                                            artifact.active_request_id
                                        },
                                        last_error: None,
                                        updated_at: now,
                                        ..artifact
                                    }
                                    &&& w.tts_job is None
                                }
                            }
                        },
                    }
                },
            }
        },
    }
}

fn villain_failure(
    request: VillainSpeechRequest,
    artifact: VillainSpeechArtifact,
    message: String,
    now: Timestamp,
) -> (w: VillainSpeechWrites)
    ensures
        villain_speech_failed(w, request, artifact, message@, now),
{
    let mut request = request;
    let mut artifact = artifact;
    request.phase = VillainSpeechPhase::Failed;
    request.error_message = Some(message.clone());
    request.updated_at = now;
    let id = request.request_id;
    fail_villain_artifact(&mut artifact, id, message, now);
    let mut artifacts: Vec<VillainSpeechArtifact> = Vec::new();
    artifacts.push(artifact);
    VillainSpeechWrites { request: Some(request), artifacts, speech_job: None, tts_job: None }
}

/// Applies a Gemini answer to a villain speech request (see `villain_speech_applied`): the cues
/// are stored with the one to play, and the audio is requested when the payload asks for it
/// and the voice settings are complete.
#[verifier::rlimit(60)]
pub fn apply_villain_speech(
    request: VillainSpeechRequest,
    artifact: VillainSpeechArtifact,
    callback: &VillainSpeechCallbackSchedule,
    decision: Result<VillainSpeechGeminiResponse, String>,
    payload: Result<VillainSpeechGenerationPayload, String>,
    voice_config: &Option<VoiceConfig>,
    now: Timestamp,
) -> (r: Result<VillainSpeechWrites, String>)
    ensures
        villain_speech_applied(r, request, artifact, *callback, decision, payload, *voice_config, now),
{
    let mut request = request;
    let mut artifact = artifact;
    let id = request.request_id;
    if let Some(te) = &callback.transport_error {
        return Ok(villain_failure(request, artifact, te.clone(), now));
    }
    let retries: u32 = match request.retries {
        Some(n) => n,
        None => 0,
    };
    if callback.status_code == 429 && retries < 3 {
        request.retries = Some(retries + 1);
        request.phase = VillainSpeechPhase::PendingGemini;
        request.updated_at = now;
        return Ok(
            VillainSpeechWrites {
                request: Some(request),
                artifacts: Vec::new(),
                speech_job: Some(queue_villain_speech_request(id, now)),
                tts_job: None,
            },
        );
    }
    if callback.status_code != 200 {
        let code = u64_to_decimal(callback.status_code as u64);
        return Ok(villain_failure(request, artifact, cat("Gemini returned HTTP ", code.as_str()), now));
    }
    let parsed = match decision {
        Ok(d) => d,
        Err(err) => {
            return Ok(villain_failure(request, artifact, cat("Invalid villain speech JSON: ", err.as_str()), now));
        },
    };
    if parsed.speech_cues.len() == 0 {
        return Ok(
            villain_failure(
                request,
                artifact,
                "villain speech generation returned no speech cues".to_string(),
                now,
            ),
        );
    }
    let payload = match payload {
        Ok(p) => p,
        Err(e) => {
            return Err(cat("invalid villain speech payload JSON: ", e.as_str()));
        },
    };
    let selected = match &payload.selected_cue_id {
        Some(q) => select_speech_cue(&parsed.speech_cues, Some(q.as_str())),
        None => select_speech_cue(&parsed.speech_cues, None),
    };
    let (selected_cue_id, selected_speech_text) = selected?;
    let cues_text = speech_cues_json(&parsed.speech_cues);
    request.speech_cues_json = Some(cues_text.clone());
    request.selected_cue_id = Some(selected_cue_id.clone());
    request.selected_speech_text = Some(selected_speech_text.clone());
    request.audio_base64 = None;
    request.mime_type = None;
    request.error_message = None;
    let synthesize = match payload.synthesize_audio {
        Some(b) => b,
        None => false,
    };
    if synthesize && crate::config::voice_config_ready(voice_config) {
        request.phase = VillainSpeechPhase::PendingTts;
        request.retries = Some(0);
        request.updated_at = now;
        artifact.status = GenerationStatus::PendingTts;
        artifact.speech_cues_json = Some(cues_text);
        artifact.selected_cue_id = Some(selected_cue_id);
        artifact.selected_speech_text = Some(selected_speech_text);
        artifact.audio_base64 = None;
        artifact.mime_type = None;
        artifact.tts_provider = None;
        artifact.last_error = None;
        artifact.updated_at = now;
        let mut artifacts: Vec<VillainSpeechArtifact> = Vec::new();
        artifacts.push(artifact);
        return Ok(
            VillainSpeechWrites {
                request: Some(request),
                artifacts,
                speech_job: None,
                tts_job: Some(queue_villain_tts_request(id, now)),
            },
        );
    }
    request.phase = VillainSpeechPhase::Succeeded;
    request.tts_provider = Some(
        if synthesize {
            "disabled".to_string()
        } else {
            "none".to_string()
        },
    );
    request.updated_at = now;
    artifact.status = GenerationStatus::Succeeded;
    artifact.speech_cues_json = Some(cues_text);
    artifact.selected_cue_id = Some(selected_cue_id);
    artifact.selected_speech_text = Some(selected_speech_text);
    artifact.audio_base64 = None;
    artifact.mime_type = None;
    artifact.tts_provider = copy_opt_string(&request.tts_provider);
    if same_request(artifact.active_request_id, id) {
        artifact.active_request_id = None;
    }
    artifact.last_error = None;
    artifact.updated_at = now;
    let mut artifacts: Vec<VillainSpeechArtifact> = Vec::new();
    artifacts.push(artifact);
    Ok(VillainSpeechWrites { request: Some(request), artifacts, speech_job: None, tts_job: None })
}

/// Handles the Gemini answer of a villain speech request (only the scheduler may call it). Its
/// inputs are the callback row, the request row it names, that request's artifact, every
/// villain speech artifact (used when the request row is gone), the body read as the speech
/// object when it is one (`direct`) and as read from the response envelope's text, the
/// request's payload read as a speech payload, and the stored voice settings.
pub fn _villain_speech_callback(
    is_internal: bool,
    callback: VillainSpeechCallbackSchedule,
    request: Option<VillainSpeechRequest>,
    artifact: Option<VillainSpeechArtifact>,
    all_artifacts: Vec<VillainSpeechArtifact>,
    direct: Option<VillainSpeechGeminiResponse>,
    from_envelope: Result<VillainSpeechGeminiResponse, String>,
    payload: Result<VillainSpeechGenerationPayload, String>,
    voice_config: Option<VoiceConfig>,
    now: Timestamp,
) -> (r: Result<VillainSpeechWrites, String>)
    ensures
        !is_internal ==> (r matches Err(e) && e@ == "_villain_speech_callback may only be invoked by the scheduler"@),
        is_internal ==> match request {
            None => r matches Ok(w) && {
                let waiting = villain_artifacts_waiting_on(all_artifacts@, callback.request_id);
                &&& w.request is None && w.speech_job is None && w.tts_job is None
                &&& w.artifacts@.len() == waiting.len()
                &&& forall|i: int|
                    0 <= i < waiting.len() ==> cleared_villain_artifact(
                        #[trigger] waiting[i],
                        w.artifacts@[i],
                        "villain speech callback arrived after the request row was removed"@,
                        now,
                    )
            },
            Some(q) => match artifact {
                None => r matches Ok(w) && w.request is None && w.artifacts@.len() == 0 && w.speech_job is None
                    && w.tts_job is None,
                Some(a) => villain_speech_applied(
                    r,
                    q,
                    a,
                    callback,
                    speech_decision(direct, from_envelope),
                    payload,
                    voice_config,
                    now,
                ),
            },
        },
{
    if !is_internal {
        return Err("_villain_speech_callback may only be invoked by the scheduler".to_string());
    }
    let request = match request {
        Some(q) => q,
        None => {
            let cleared = clear_villain_artifact_for_unknown_request(
                all_artifacts,
                callback.request_id,
                "villain speech callback arrived after the request row was removed",
                now,
            );
            return Ok(VillainSpeechWrites { request: None, artifacts: cleared, speech_job: None, tts_job: None });
        },
    };
    let artifact = match artifact {
        Some(a) => a,
        None => {
            return Ok(VillainSpeechWrites { request: None, artifacts: Vec::new(), speech_job: None, tts_job: None });
        },
    };
    let decision = match direct {
        Some(d) => Ok(d),
        None => from_envelope,
    };
    apply_villain_speech(request, artifact, &callback, decision, payload, &voice_config, now)
}

/// How an ElevenLabs answer is applied to a villain speech `request` and its `artifact`.
pub open spec fn villain_audio_applied(
    w: VillainSpeechWrites,
    request: VillainSpeechRequest,
    artifact: VillainSpeechArtifact,
    callback: VillainTtsCallbackSchedule,
    now: Timestamp,
) -> bool {
    let id = request.request_id;
    let retries: u32 = match request.retries {
        Some(n) => n,
        None => 0,
    };
    match callback.transport_error {
        Some(te) => villain_speech_failed(w, request, artifact, te@, now),
        None => if callback.status_code == 429 && retries < 3 {
            villain_retried(w, request, VillainSpeechPhase::PendingTts, now) && w.speech_job is None
                && w.tts_job == Some(VillainTtsRequestSchedule { scheduled_id: 0, scheduled_at: now, request_id: id })
        } else if callback.status_code != 200 {
            villain_speech_failed(
                w,
                request,
                artifact,
                "ElevenLabs returned HTTP "@ + decimal(callback.status_code as nat),
                now,
            )
        } else {
            let q = w.request->0;
            &&& w.request is Some
            &&& q == VillainSpeechRequest {
                phase: VillainSpeechPhase::Succeeded,
                audio_base64: Some(callback.response_body_base64),
                mime_type: callback.mime_type,
                tts_provider: q.tts_provider,
                error_message: None,
                updated_at: now,
                ..request
            }
            &&& has_text(q.tts_provider, "elevenlabs"@)
            &&& w.artifacts@.len() == 1
            &&& w.artifacts@[0] == VillainSpeechArtifact {
                status: GenerationStatus::Succeeded,
                audio_base64: Some(callback.response_body_base64),
                mime_type: callback.mime_type,
                tts_provider: w.artifacts@[0].tts_provider,
                active_request_id: if is_active(artifact.active_request_id, id) {
                    None
                } else {
                    artifact.active_request_id
                },
                last_error: None,
                updated_at: now,
                ..artifact
            }
            &&& has_text(w.artifacts@[0].tts_provider, "elevenlabs"@)
            &&& w.speech_job is None
            &&& w.tts_job is None
        },
    }
}

/// Applies an ElevenLabs answer to a villain speech request (see `villain_audio_applied`).
pub fn apply_villain_audio(
    request: VillainSpeechRequest,
    artifact: VillainSpeechArtifact,
    callback: &VillainTtsCallbackSchedule,
    now: Timestamp,
) -> (w: VillainSpeechWrites)
    ensures
        villain_audio_applied(w, request, artifact, *callback, now),
{
    let mut request = request;
    let mut artifact = artifact;
    let id = request.request_id;
    if let Some(te) = &callback.transport_error {
        return villain_failure(request, artifact, te.clone(), now);
    }
    let retries: u32 = match request.retries {
        Some(n) => n,
        None => 0,
    };
    if callback.status_code == 429 && retries < 3 {
        request.retries = Some(retries + 1);
        request.phase = VillainSpeechPhase::PendingTts;
        request.updated_at = now;
        return VillainSpeechWrites {
            request: Some(request),
            artifacts: Vec::new(),
            speech_job: None,
            tts_job: Some(queue_villain_tts_request(id, now)),
        };
    }
    if callback.status_code != 200 {
        let code = u64_to_decimal(callback.status_code as u64);
        return villain_failure(request, artifact, cat("ElevenLabs returned HTTP ", code.as_str()), now);
    }
    request.phase = VillainSpeechPhase::Succeeded;
    request.audio_base64 = Some(callback.response_body_base64.clone());
    request.mime_type = copy_opt_string(&callback.mime_type);
    request.tts_provider = Some("elevenlabs".to_string());
    request.error_message = None;
    request.updated_at = now;
    artifact.status = GenerationStatus::Succeeded;
    artifact.audio_base64 = Some(callback.response_body_base64.clone());
    artifact.mime_type = copy_opt_string(&callback.mime_type);
    artifact.tts_provider = Some("elevenlabs".to_string());
    if same_request(artifact.active_request_id, id) {
        artifact.active_request_id = None;
    }
    artifact.last_error = None;
    artifact.updated_at = now;
    let mut artifacts: Vec<VillainSpeechArtifact> = Vec::new();
    artifacts.push(artifact);
    VillainSpeechWrites { request: Some(request), artifacts, speech_job: None, tts_job: None }
}

/// Handles the ElevenLabs answer of a villain speech request (only the scheduler may call it).
pub fn _villain_tts_callback(
    is_internal: bool,
    callback: VillainTtsCallbackSchedule,
    request: Option<VillainSpeechRequest>,
    artifact: Option<VillainSpeechArtifact>,
    all_artifacts: Vec<VillainSpeechArtifact>,
    now: Timestamp,
) -> (r: Result<VillainSpeechWrites, String>)
    ensures
        !is_internal ==> (r matches Err(e) && e@ == "_villain_tts_callback may only be invoked by the scheduler"@),
        is_internal ==> (r matches Ok(w) && match request {
            None => {
                let waiting = villain_artifacts_waiting_on(all_artifacts@, callback.request_id);
                &&& w.request is None && w.speech_job is None && w.tts_job is None
                &&& w.artifacts@.len() == waiting.len()
                &&& forall|i: int|
                    0 <= i < waiting.len() ==> cleared_villain_artifact(
                        #[trigger] waiting[i],
                        w.artifacts@[i],
                        "villain TTS callback arrived after the request row was removed"@,
                        now,
                    )
            },
            Some(q) => match artifact {
                None => w.request is None && w.artifacts@.len() == 0 && w.speech_job is None && w.tts_job is None,
                Some(a) => villain_audio_applied(w, q, a, callback, now),
            },
        }),
{
    if !is_internal {
        return Err("_villain_tts_callback may only be invoked by the scheduler".to_string());
    }
    let request = match request {
        Some(q) => q,
        None => {
            let cleared = clear_villain_artifact_for_unknown_request(
                all_artifacts,
                callback.request_id,
                "villain TTS callback arrived after the request row was removed",
                now,
            );
            return Ok(VillainSpeechWrites { request: None, artifacts: cleared, speech_job: None, tts_job: None });
        },
    };
    let artifact = match artifact {
        Some(a) => a,
        None => {
            return Ok(VillainSpeechWrites { request: None, artifacts: Vec::new(), speech_job: None, tts_job: None });
        },
    };
    Ok(apply_villain_audio(request, artifact, &callback, now))
}

} // verus!
