//! The persistent state of the game: rows of the room, game, terminal and content tables, with
//! the identities and timestamps they carry, as plain values.
use vstd::prelude::*;

use crate::models::{TerminalClueLine, TerminalConversationMessage};

verus! {

/// The singleton game row used by the non-room legacy reducers.
pub const DEFAULT_GAME_ID: u64 = 1;

/// Room-backed games start at a separate range so they never collide with the legacy default row.
pub const ROOM_GAME_ID_OFFSET: u64 = 10_000;

/// The singleton configuration row holding secrets and remote endpoint settings.
pub const ACTIVE_SERVER_CONFIG_KEY: u8 = 1;

/// The singleton configuration row holding optional ElevenLabs voice settings.
pub const ACTIVE_VOICE_CONFIG_KEY: u8 = 1;

/// The singleton row key storing which identity is allowed to run admin reducers.
pub const MODULE_OWNER_KEY: u8 = 1;

/// Length of the match timer, which starts when Player 2 joins a room.
pub const GAME_TIME_LIMIT_MS: u64 = 180_000;

/// Number of terminal rounds in a full game.
pub const MAX_ROUNDS: u32 = 4;

/// Number of messages kept in the terminal conversation history.
pub const MAX_CONVERSATION_MESSAGES: usize = 16;

/// Number of times a request is re-sent after an HTTP 429 answer.
pub const MAX_RATE_LIMIT_RETRIES: u32 = 3;

/// A caller identity: a 256-bit value, held as its high and low halves.
#[derive(Debug, Clone, Copy, PartialEq, Eq, Structural)]
pub struct Identity {
    pub high: u128,
    pub low: u128,
}

/// A point in time, in microseconds since the Unix epoch.
#[derive(Debug, Clone, Copy, PartialEq, Eq, Structural)]
pub struct Timestamp {
    pub micros_since_epoch: i64,
}

/// Public lifecycle state for a multiplayer room.
#[derive(Debug, Clone, Copy, PartialEq, Eq, Structural)]
pub enum RoomStatus {
    WaitingForPlayers,
    Ready,
    Terminated,
}

/// High-level lifecycle state for the terminal-validation loop.
#[derive(Debug, Clone, Copy, PartialEq, Eq, Structural)]
pub enum TerminalStatus {
    Idle,
    PendingArmorIq,
    PendingGeminiValidator,
    Rejected,
    Failed,
    Succeeded,
}

/// Fine-grained request state tracked per submitted terminal attempt.
#[derive(Debug, Clone, Copy, PartialEq, Eq, Structural)]
pub enum TerminalRequestPhase {
    PendingArmorIq,
    PendingGeminiValidator,
    Rejected,
    Failed,
    Succeeded,
}

/// Public lifecycle state for room-scoped clue/manual generation and villain speech artifacts.
#[derive(Debug, Clone, Copy, PartialEq, Eq, Structural)]
pub enum GenerationStatus {
    Idle,
    PendingGemini,
    PendingTts,
    Failed,
    Succeeded,
}

/// Fine-grained request state tracked for clue/manual generation jobs.
#[derive(Debug, Clone, Copy, PartialEq, Eq, Structural)]
pub enum RoundGenerationPhase {
    PendingGeminiSkeleton,
    PendingGeminiExpansion,
    Failed,
    Succeeded,
}

/// Fine-grained request state tracked for villain speech generation and optional TTS jobs.
#[derive(Debug, Clone, Copy, PartialEq, Eq, Structural)]
pub enum VillainSpeechPhase {
    PendingGemini,
    PendingTts,
    Failed,
    Succeeded,
}

/// Public game-state surface clients can subscribe to without seeing secrets.
#[derive(Debug, Clone)]
pub struct GameState {
    pub game_id: u64,
    pub player_one: Option<Identity>,
    pub player_two: Option<Identity>,
    pub villain_name: String,
    pub active_round_key: Option<String>,
    pub active_persona_name: Option<String>,
    pub is_processing_terminal: bool,
    pub active_terminal_request: Option<u64>,
    pub terminal_status: TerminalStatus,
    pub terminal_strikes: u32,
    pub terminal_max_strikes: u32,
    pub is_terminal_dead: bool,
    pub completed_rounds: u32,
    pub revealed_clue_count: u32,
    pub last_terminal_result: Option<bool>,
    pub last_terminal_message: Option<String>,
    pub last_terminal_reply: Option<String>,
    pub last_terminal_actor: Option<Identity>,
    pub updated_at: Timestamp,
    pub timer_started_at_ms: Option<u64>,
    pub timer_deadline_at_ms: Option<u64>,
    pub timer_duration_ms: u64,
    pub timer_remaining_ms: Option<u64>,
    pub is_game_disqualified: bool,
    pub disqualified_at_ms: Option<u64>,
}

/// Private secrets for a game session, isolated from the public state row.
#[derive(Debug, Clone)]
pub struct GameSecret {
    pub game_id: u64,
    pub hidden_answer: String,
    pub updated_at: Timestamp,
}

/// Sequence allocator used to mint unique room identifiers and room-scoped game ids.
#[derive(Debug, Clone)]
pub struct RoomSequence {
    pub room_seq: u64,
    pub created_at: Timestamp,
}

/// Public room metadata consumed by clients before they enter the actual game loop.
#[derive(Debug, Clone)]
pub struct GameRoom {
    pub room_id: String,
    pub game_id: u64,
    pub host_identity: Identity,
    pub player_one: Option<Identity>,
    pub player_two: Option<Identity>,
    pub status: RoomStatus,
    pub created_at: Timestamp,
    pub updated_at: Timestamp,
    pub terminated_at: Option<Timestamp>,
    pub timer_started_at_ms: Option<u64>,
    pub timer_deadline_at_ms: Option<u64>,
    pub timer_duration_ms: u64,
}

/// Per-player room receipt so clients can observe the latest room action they triggered.
#[derive(Debug, Clone)]
pub struct RoomTicket {
    pub owner_identity: Identity,
    pub room_id: Option<String>,
    pub room_status: Option<RoomStatus>,
    pub updated_at: Timestamp,
}

/// Private owner record used to authorize operational/admin reducers.
#[derive(Debug, Clone)]
pub struct ModuleOwner {
    pub owner_key: u8,
    pub owner_identity: Identity,
    pub created_at: Timestamp,
}

/// Server-owned configuration for external integrations.
#[derive(Debug, Clone)]
pub struct ServerConfig {
    pub config_key: u8,
    pub armoriq_verify_url: String,
    pub armoriq_api_key_header: String,
    pub armoriq_api_key: String,
    pub local_llm_relay_base_url: Option<String>,
    pub gemini_api_base_url: String,
    pub gemini_api_key: String,
    pub gemini_validator_model: String,
    pub gemini_clue_generator_model: String,
    pub gemini_villain_model: String,
    pub gemini_terminal_api_key: Option<String>,
    pub gemini_terminal_model: Option<String>,
    pub armoriq_token_issue_url: Option<String>,
    pub armoriq_user_id: Option<String>,
    pub armoriq_agent_id: Option<String>,
}

/// Optional ElevenLabs configuration used when villain speech should also be synthesized.
#[derive(Debug, Clone)]
pub struct VoiceConfig {
    pub config_key: u8,
    pub elevenlabs_api_base_url: String,
    pub elevenlabs_api_key: String,
    pub elevenlabs_default_voice_id: String,
    pub elevenlabs_default_model_id: String,
}

/// Public artifact row holding the latest clue/manual generation output for a room and round.
#[derive(Debug, Clone)]
pub struct RoundContentArtifact {
    pub artifact_key: String,
    pub room_id: String,
    pub game_id: u64,
    pub round_key: String,
    pub status: GenerationStatus,
    pub request_payload_json: String,
    pub response_payload_json: Option<String>,
    pub hidden_answer_candidate: Option<String>,
    pub active_request_id: Option<u64>,
    pub last_error: Option<String>,
    pub updated_at: Timestamp,
}

/// Public artifact row holding the latest villain speech payload for a room and scope.
#[derive(Debug, Clone)]
pub struct VillainSpeechArtifact {
    pub artifact_key: String,
    pub room_id: String,
    pub game_id: u64,
    pub round_key: Option<String>,
    pub status: GenerationStatus,
    pub request_payload_json: String,
    pub speech_cues_json: Option<String>,
    pub selected_cue_id: Option<String>,
    pub selected_speech_text: Option<String>,
    pub audio_base64: Option<String>,
    pub mime_type: Option<String>,
    pub tts_provider: Option<String>,
    pub active_request_id: Option<u64>,
    pub last_error: Option<String>,
    pub updated_at: Timestamp,
}

/// The configuration and progress of the terminal round currently running for a game.
#[derive(Debug, Clone)]
pub struct TerminalRoundState {
    pub game_id: u64,
    pub round_key: String,
    pub persona_name: String,
    pub persona_prompt: String,
    pub glitch_tone: String,
    pub kill_phrase_part: String,
    pub forbidden_words: Vec<String>,
    pub clue_lines: Vec<TerminalClueLine>,
    pub conversation_history: Vec<TerminalConversationMessage>,
    pub next_clue_index: u32,
    pub max_strikes: u32,
    pub strikes: u32,
    pub player_dead: bool,
    pub round_completed: bool,
    pub created_at: Timestamp,
    pub updated_at: Timestamp,
}

/// Durable audit row for every terminal submission and each asynchronous transition it takes.
#[derive(Debug, Clone)]
pub struct TerminalRequest {
    pub request_id: u64,
    pub game_id: u64,
    pub player_identity: Identity,
    pub phase: TerminalRequestPhase,
    pub player_input: String,
    pub hidden_answer_snapshot: String,
    pub round_key_snapshot: Option<String>,
    pub persona_name_snapshot: Option<String>,
    pub forbidden_words_snapshot: Option<Vec<String>>,
    pub conversation_history_snapshot: Option<Vec<TerminalConversationMessage>>,
    pub queued_clue_id_snapshot: Option<String>,
    pub queued_clue_text_snapshot: Option<String>,
    pub armoriq_allowed: Option<bool>,
    pub armoriq_block_reason: Option<String>,
    pub armoriq_raw_response: Option<String>,
    pub gemini_raw_response: Option<String>,
    pub validator_success: Option<bool>,
    pub validator_reason: Option<String>,
    pub terminal_reply: Option<String>,
    pub spoke_kill_phrase: Option<bool>,
    pub strike_count_after: Option<u32>,
    pub created_at: Timestamp,
    pub updated_at: Timestamp,
    pub retries: Option<u32>,
}

/// Durable request row for room-scoped clue/manual generation.
#[derive(Debug, Clone)]
pub struct RoundGenerationRequest {
    pub request_id: u64,
    pub artifact_key: String,
    pub room_id: String,
    pub game_id: u64,
    pub round_key: String,
    pub player_identity: Identity,
    pub request_payload_json: String,
    pub response_schema_json: String,
    pub phase: RoundGenerationPhase,
    pub skeleton_payload_json: Option<String>,
    pub response_payload_json: Option<String>,
    pub hidden_answer_candidate: Option<String>,
    pub error_message: Option<String>,
    pub created_at: Timestamp,
    pub updated_at: Timestamp,
    pub retries: Option<u32>,
}

/// Durable request row for villain speech generation and optional audio synthesis.
#[derive(Debug, Clone)]
pub struct VillainSpeechRequest {
    pub request_id: u64,
    pub artifact_key: String,
    pub room_id: String,
    pub game_id: u64,
    pub player_identity: Identity,
    pub round_key: Option<String>,
    pub request_payload_json: String,
    pub phase: VillainSpeechPhase,
    pub speech_cues_json: Option<String>,
    pub selected_cue_id: Option<String>,
    pub selected_speech_text: Option<String>,
    pub audio_base64: Option<String>,
    pub mime_type: Option<String>,
    pub tts_provider: Option<String>,
    pub error_message: Option<String>,
    pub created_at: Timestamp,
    pub updated_at: Timestamp,
    pub retries: Option<u32>,
}

/// Queue row that schedules the outbound ArmorIQ call for a terminal request.
#[derive(Debug, Clone)]
pub struct ArmoriqRequestSchedule {
    pub scheduled_id: u64,
    pub scheduled_at: Timestamp,
    pub request_id: u64,
}

/// Queue row that hands the result of an ArmorIQ call back to the terminal flow.
#[derive(Debug, Clone)]
pub struct ArmoriqCallbackSchedule {
    pub scheduled_id: u64,
    pub scheduled_at: Timestamp,
    pub request_id: u64,
    pub status_code: u16,
    pub response_body: String,
    pub transport_error: Option<String>,
}

/// Queue row that schedules the outbound Gemini terminal persona call.
#[derive(Debug, Clone)]
pub struct GeminiValidatorRequestSchedule {
    pub scheduled_id: u64,
    pub scheduled_at: Timestamp,
    pub request_id: u64,
}

/// Queue row that hands the result of a Gemini terminal persona call back to the terminal flow.
#[derive(Debug, Clone)]
pub struct GeminiValidatorCallbackSchedule {
    pub scheduled_id: u64,
    pub scheduled_at: Timestamp,
    pub request_id: u64,
    pub status_code: u16,
    pub response_body: String,
    pub transport_error: Option<String>,
}

/// Queue row that schedules the outbound clue/manual generation call.
#[derive(Debug, Clone)]
pub struct RoundGenerationRequestSchedule {
    pub scheduled_id: u64,
    pub scheduled_at: Timestamp,
    pub request_id: u64,
}

/// Queue row that hands the result of a clue/manual generation call back.
#[derive(Debug, Clone)]
pub struct RoundGenerationCallbackSchedule {
    pub scheduled_id: u64,
    pub scheduled_at: Timestamp,
    pub request_id: u64,
    pub status_code: u16,
    pub response_body: String,
    pub transport_error: Option<String>,
}

/// Queue row that schedules the outbound villain speech generation call.
#[derive(Debug, Clone)]
pub struct VillainSpeechRequestSchedule {
    pub scheduled_id: u64,
    pub scheduled_at: Timestamp,
    pub request_id: u64,
}

/// Queue row that hands the result of a villain speech generation call back.
#[derive(Debug, Clone)]
pub struct VillainSpeechCallbackSchedule {
    pub scheduled_id: u64,
    pub scheduled_at: Timestamp,
    pub request_id: u64,
    pub status_code: u16,
    pub response_body: String,
    pub transport_error: Option<String>,
}

/// Queue row that schedules the outbound ElevenLabs call for villain speech.
#[derive(Debug, Clone)]
pub struct VillainTtsRequestSchedule {
    pub scheduled_id: u64,
    pub scheduled_at: Timestamp,
    pub request_id: u64,
}

/// Queue row that hands the result of an ElevenLabs call back, its audio already in base64.
#[derive(Debug, Clone)]
pub struct VillainTtsCallbackSchedule {
    pub scheduled_id: u64,
    pub scheduled_at: Timestamp,
    pub request_id: u64,
    pub status_code: u16,
    pub response_body_base64: String,
    pub mime_type: Option<String>,
    pub transport_error: Option<String>,
}

/// An optional string that is present and reads `t`.
pub open spec fn has_text(o: Option<String>, t: Seq<char>) -> bool {
    o matches Some(s) && s@ == t
}

/// `Some(id)` for the request a row is currently waiting on.
pub open spec fn is_active(active: Option<u64>, request_id: u64) -> bool {
    active == Some(request_id)
}

pub fn same_request(active: Option<u64>, request_id: u64) -> (r: bool)
    ensures
        r == is_active(active, request_id),
{
    match active {
        Some(id) => id == request_id,
        None => false,
    }
}

/// `left == Some(right)` for optional identities.
pub fn same_identity(left: Option<Identity>, right: Identity) -> (r: bool)
    ensures
        r == (left == Some(right)),
{
    match left {
        Some(id) => id == right,
        None => false,
    }
}

pub fn copy_opt_string(o: &Option<String>) -> (r: Option<String>)
    ensures
        r == *o,
{
    match o {
        Some(s) => Some(s.clone()),
        None => None,
    }
}

pub fn copy_strings(v: &Vec<String>) -> (r: Vec<String>)
    ensures
        r@ == v@,
{
    let mut r: Vec<String> = Vec::new();
    let mut i: usize = 0;
    while i < v.len()
        invariant
            i <= v.len(),
            r@ == v@.take(i as int),
        decreases v.len() - i,
    {
        r.push(v[i].clone());
        assert(r@ =~= v@.take(i + 1));
        i = i + 1;
    }
    assert(v@.take(v.len() as int) =~= v@);
    r
}

/// An exact copy of a game state.
pub fn copy_game_state(s: &GameState) -> (r: GameState)
    ensures
        r == *s,
{
    GameState {
        game_id: s.game_id,
        player_one: s.player_one,
        player_two: s.player_two,
        villain_name: s.villain_name.clone(),
        active_round_key: copy_opt_string(&s.active_round_key),
        active_persona_name: copy_opt_string(&s.active_persona_name),
        is_processing_terminal: s.is_processing_terminal,
        active_terminal_request: s.active_terminal_request,
        terminal_status: s.terminal_status,
        terminal_strikes: s.terminal_strikes,
        terminal_max_strikes: s.terminal_max_strikes,
        is_terminal_dead: s.is_terminal_dead,
        completed_rounds: s.completed_rounds,
        revealed_clue_count: s.revealed_clue_count,
        last_terminal_result: s.last_terminal_result,
        last_terminal_message: copy_opt_string(&s.last_terminal_message),
        last_terminal_reply: copy_opt_string(&s.last_terminal_reply),
        last_terminal_actor: s.last_terminal_actor,
        updated_at: s.updated_at,
        timer_started_at_ms: s.timer_started_at_ms,
        timer_deadline_at_ms: s.timer_deadline_at_ms,
        timer_duration_ms: s.timer_duration_ms,
        timer_remaining_ms: s.timer_remaining_ms,
        is_game_disqualified: s.is_game_disqualified,
        disqualified_at_ms: s.disqualified_at_ms,
    }
}

} // verus!
