//! Properties of the game that hold across calls and over every state: the match timer, the
//! strike rule, the conversation window, what reaches the outside services, and how often a
//! request is retried.
use vstd::prelude::*;

use crate::content::{
    is_pending, round_content, round_content_applied, villain_audio_applied, villain_speech_applied,
};
use crate::models::{ArmorIqResponse, GeminiTerminalTurnResponse, VillainSpeechGenerationPayload};
use crate::room::{joined_room, millis_of, remaining_at};
use crate::state::{
    GameRoom, GameState, GeminiValidatorCallbackSchedule, Identity, RoomStatus,
    RoundGenerationCallbackSchedule, RoundGenerationPhase, RoundGenerationRequest,
    TerminalRequest, TerminalRequestPhase, TerminalRoundState, Timestamp,
    VillainSpeechCallbackSchedule, VillainSpeechRequest, VillainSpeechArtifact, VoiceConfig,
    ArmoriqCallbackSchedule, RoundContentArtifact, GenerationStatus, VillainSpeechPhase,
    VillainTtsCallbackSchedule, GAME_TIME_LIMIT_MS, MAX_CONVERSATION_MESSAGES,
};
use crate::terminal::{
    disqualified_game_state, round_refusal, strike_limit, strikes_after_penalty, struck_round,
    submit_contract, submit_result, timed_out_room, timer_expired, SubmitOutcome,
};
use crate::terminal_callbacks::{
    armoriq_applied, armoriq_verdict, malformed_retry_marker, persona_applied, TerminalWrites,
};
use crate::content::{RoundContentWrites, VillainSpeechWrites};
use crate::terminal_rules::{after_turn, first_forbidden, mentions_phrase};
use crate::text::{starts_with_seq, trim, views};
use crate::config::{strip_trailing, token_issue_url_for};
use crate::content::hidden_candidate;
use crate::content_http::tts_target;
use crate::http::{armoriq_target, uses_token_issue};
use crate::json::{json_quoted, json_str};
use crate::models::TerminalRoundSetupPayload;
use crate::state::ServerConfig;
use crate::terminal::{configure_contract, ConfigureOutcome};

verus! {

// ---------------------------------------------------------------------------------------------
// The match timer
// ---------------------------------------------------------------------------------------------

/// When Player 2 joins, the room becomes ready and its timer runs from the join time to a
/// deadline exactly 180000 ms later.
pub proof fn law_join_starts_three_minute_timer(room: GameRoom, sender: Identity, now: Timestamp)
    ensures
        ({
            let joined = joined_room(room, sender, now);
            &&& joined.status == RoomStatus::Ready
            &&& joined.player_two == Some(sender)
            &&& joined.timer_started_at_ms == Some(millis_of(now) as u64)
            &&& joined.timer_deadline_at_ms matches Some(d) && d == millis_of(now) + 180000
            &&& joined.timer_duration_ms == 180000
        }),
{
    assert(millis_of(now) <= 9223372036854775807int / 1000);
}

/// The remaining time is what is left until the deadline, never negative, and zero once the
/// players are disqualified; before the timer starts there is none.
pub proof fn law_remaining_time(state: GameState, now_ms: u64)
    ensures
        state.is_game_disqualified ==> remaining_at(state, now_ms) == Some(0u64),
        !state.is_game_disqualified ==> match state.timer_deadline_at_ms {
            Some(d) => remaining_at(state, now_ms) matches Some(left) && left == if d >= now_ms {
                d - now_ms
            } else {
                0
            },
            None => remaining_at(state, now_ms) is None,
        },
{
}

/// The remaining time only goes down as time passes.
pub proof fn law_remaining_time_counts_down(state: GameState, earlier_ms: u64, later_ms: u64)
    requires
        earlier_ms <= later_ms,
        state.timer_deadline_at_ms is Some,
    ensures
        remaining_at(state, later_ms)->0 <= remaining_at(state, earlier_ms)->0,
{
}

/// When the timer disqualifies a game, the players are disqualified with no time left, the
/// moment is recorded, the terminal stops, and the game's room is terminated.
pub proof fn law_expiry_disqualifies_and_terminates(
    old: GameState,
    new: GameState,
    room: Option<GameRoom>,
    now: Timestamp,
)
    requires
        disqualified_game_state(old, new, now),
    ensures
        new.is_game_disqualified,
        new.timer_remaining_ms == Some(0u64),
        new.disqualified_at_ms == Some(millis_of(now) as u64),
        !new.is_processing_terminal,
        new.active_terminal_request is None,
        room matches Some(r) ==> (timed_out_room(room, now) matches Some(t) && t.status
            == RoomStatus::Terminated && t.terminated_at == Some(now) && t.room_id == r.room_id),
{
}

/// A disqualified game, or one whose time ran out before all rounds were cleared, takes no
/// more terminal input: an already disqualified game refuses it, and a game whose timer has
/// just run out is recorded as disqualified, with its room terminated.
pub proof fn law_no_input_after_time_runs_out(
    r: Result<SubmitOutcome, String>,
    game_id: u64,
    input: Seq<char>,
    allow_legacy_create: bool,
    state: GameState,
    active_request_exists: bool,
    round: Option<TerminalRoundState>,
    room: Option<GameRoom>,
    sender: Identity,
    now: Timestamp,
)
    requires
        submit_contract(
            r,
            game_id,
            input,
            allow_legacy_create,
            Some(state),
            active_request_exists,
            round,
            room,
            sender,
            now,
        ),
        trim(input).len() > 0,
        state.is_game_disqualified || timer_expired(state, millis_of(now) as u64),
    ensures
        state.is_game_disqualified ==> (r matches Err(e) && e@
            == "the game has already been disqualified by the match timer"@),
        !state.is_game_disqualified ==> (r matches Ok(SubmitOutcome::Expired { game_state, room: new_room })
            && game_state.is_game_disqualified && game_state.timer_remaining_ms == Some(0u64)
            && game_state.disqualified_at_ms == Some(millis_of(now) as u64) && new_room == timed_out_room(
            room,
            now,
        )),
{
}

// ---------------------------------------------------------------------------------------------
// Strikes
// ---------------------------------------------------------------------------------------------

/// A strike adds one to the count until the limit (never below three) is reached, and the
/// count never passes the limit; the player dies exactly at the limit.
pub proof fn law_strikes_stay_within_limit(round: TerminalRoundState)
    ensures
        strike_limit(round) >= 3,
        1 <= strikes_after_penalty(round) <= strike_limit(round),
        round.strikes + 1 < strike_limit(round) ==> strikes_after_penalty(round) == round.strikes + 1,
        (strikes_after_penalty(round) >= strike_limit(round)) <==> (strikes_after_penalty(round)
            == strike_limit(round)),
{
}

/// In a round that starts without strikes and a limit of three or less, the first two
/// forbidden words leave the player alive and the third kills them.
pub proof fn law_third_strike_kills(
    r0: TerminalRoundState,
    r1: TerminalRoundState,
    r2: TerminalRoundState,
    r3: TerminalRoundState,
    inputs: Seq<Seq<char>>,
    words: Seq<Seq<char>>,
    times: Seq<Timestamp>,
)
    requires
        inputs.len() == 3 && words.len() == 3 && times.len() == 3,
        r0.strikes == 0,
        r0.max_strikes <= 3,
        struck_round(r0, r1, inputs[0], words[0], times[0]),
        struck_round(r1, r2, inputs[1], words[1], times[1]),
        struck_round(r2, r3, inputs[2], words[2], times[2]),
    ensures
        r1.strikes == 1 && !r1.player_dead,
        r2.strikes == 2 && !r2.player_dead,
        r3.strikes == 3 && r3.player_dead,
{
}

/// A round whose player died, or that is already cleared, refuses further input.
pub proof fn law_finished_round_refuses_input(game_id: u64, round: TerminalRoundState)
    requires
        round.player_dead || round.round_completed,
    ensures
        round_refusal(game_id, Some(round)) is Some,
        round.player_dead ==> round_refusal(game_id, Some(round)) == Some(
            "the player has already died in this round after reaching three strikes"@,
        ),
{
}

// ---------------------------------------------------------------------------------------------
// The conversation
// ---------------------------------------------------------------------------------------------

/// The conversation keeps at most sixteen messages, always ends with the latest exchange, and
/// drops nothing while it is short.
pub proof fn law_history_keeps_last_messages(
    history: Seq<(Seq<char>, Seq<char>)>,
    player: Seq<char>,
    terminal: Seq<char>,
)
    ensures
        ({
            let h = after_turn(history, player, terminal);
            &&& h.len() <= MAX_CONVERSATION_MESSAGES
            &&& h.len() >= 2
            &&& h[h.len() - 1] == ("terminal"@, terminal)
            &&& h[h.len() - 2] == ("player"@, player)
            &&& history.len() + 2 <= MAX_CONVERSATION_MESSAGES ==> h == history.push(("player"@, player)).push(
                ("terminal"@, terminal),
            )
        }),
{
}

// ---------------------------------------------------------------------------------------------
// What reaches the outside services
// ---------------------------------------------------------------------------------------------

/// Input that uses a forbidden word costs a strike and is never sent to ArmorIQ; any other
/// accepted input is sent.
pub proof fn law_forbidden_words_stay_local(
    outcome: SubmitOutcome,
    state: GameState,
    input: Seq<char>,
    active_request_exists: bool,
    round: TerminalRoundState,
    sender: Identity,
    now: Timestamp,
)
    requires
        submit_result(outcome, state, input, active_request_exists, round, sender, now),
    ensures
        first_forbidden(trim(input), views(round.forbidden_words@)) is Some <==> outcome is Struck,
        outcome matches SubmitOutcome::Struck { request, .. } ==> request.phase == TerminalRequestPhase::Rejected
            && request.armoriq_allowed == Some(false),
        outcome matches SubmitOutcome::Queued { request, .. } ==> request.phase
            == TerminalRequestPhase::PendingArmorIq,
{
}

/// Gemini is asked for the persona's turn only for input ArmorIQ allowed.
pub proof fn law_only_allowed_input_reaches_gemini(
    w: TerminalWrites,
    request: TerminalRequest,
    state: GameState,
    callback: ArmoriqCallbackSchedule,
    typed: Option<ArmorIqResponse>,
    now: Timestamp,
)
    requires
        armoriq_applied(w, request, state, callback, typed, now),
    ensures
        w.gemini_job is Some ==> {
            &&& callback.transport_error is None
            &&& callback.status_code == 200
            &&& armoriq_verdict(callback.response_body@, typed) matches Ok(v) && v.0
            &&& w.request matches Some(q) && q.phase == TerminalRequestPhase::PendingGeminiValidator
        },
        (armoriq_verdict(callback.response_body@, typed) matches Ok(v) && !v.0) && callback.transport_error is None
            && callback.status_code == 200 ==> w.gemini_job is None && w.request is Some
            && w.request->0.phase == TerminalRequestPhase::Rejected,
{
}

/// Audio is requested for villain speech only when the payload asks for it and the voice
/// settings are complete.
pub proof fn law_audio_only_when_asked_and_configured(
    r: Result<VillainSpeechWrites, String>,
    request: VillainSpeechRequest,
    artifact: VillainSpeechArtifact,
    callback: VillainSpeechCallbackSchedule,
    decision: Result<crate::models::VillainSpeechGeminiResponse, String>,
    payload: Result<VillainSpeechGenerationPayload, String>,
    voice_config: Option<VoiceConfig>,
    now: Timestamp,
)
    requires
        villain_speech_applied(r, request, artifact, callback, decision, payload, voice_config, now),
    ensures
        (r matches Ok(w) && w.tts_job is Some) ==> payload is Ok && payload->Ok_0.synthesize_audio == Some(
            true,
        ) && crate::config::voice_ready(voice_config),
{
}

// ---------------------------------------------------------------------------------------------
// Rounds
// ---------------------------------------------------------------------------------------------

/// When the persona's reply says the kill-phrase fragment (its normalized words), the round is
/// cleared and the turn counts as a success, whatever the model claimed.
pub proof fn law_saying_the_phrase_clears_the_round(
    w: TerminalWrites,
    request: TerminalRequest,
    state: GameState,
    round: TerminalRoundState,
    callback: GeminiValidatorCallbackSchedule,
    decision: GeminiTerminalTurnResponse,
    now: Timestamp,
)
    requires
        persona_applied(w, request, state, round, callback, Ok(decision), now),
        callback.transport_error is None,
        callback.status_code == 200,
        trim(decision.terminal_reply@).len() > 0,
        mentions_phrase(trim(decision.terminal_reply@), request.hidden_answer_snapshot@),
    ensures
        w.round_state matches Some(nr) && nr.round_completed,
        w.request matches Some(q) && q.validator_success == Some(true) && q.spoke_kill_phrase == Some(true),
        w.game_states@.len() == 1 && w.game_states@[0].last_terminal_result == Some(true),
{
}

/// A cleared round adds one to the completed rounds the first time only.
pub proof fn law_round_counts_once(
    w: TerminalWrites,
    request: TerminalRequest,
    state: GameState,
    round: TerminalRoundState,
    callback: GeminiValidatorCallbackSchedule,
    decision: GeminiTerminalTurnResponse,
    now: Timestamp,
)
    requires
        persona_applied(w, request, state, round, callback, Ok(decision), now),
        callback.transport_error is None,
        callback.status_code == 200,
        trim(decision.terminal_reply@).len() > 0,
        state.completed_rounds < u32::MAX,
    ensures
        w.game_states@.len() == 1,
        round.round_completed ==> w.game_states@[0].completed_rounds == state.completed_rounds,
        !round.round_completed ==> w.game_states@[0].completed_rounds <= state.completed_rounds + 1,
{
}

/// Round 1 content is generated in two stages: the skeleton answer is stored and its expansion
/// requested, and the artifact waits for the expansion.
pub proof fn law_round_one_skeleton_then_expansion(
    r: Result<RoundContentWrites, String>,
    request: RoundGenerationRequest,
    artifact: RoundContentArtifact,
    callback: RoundGenerationCallbackSchedule,
    envelope: Result<crate::models::GeminiGenerateContentResponse, String>,
    now: Timestamp,
)
    requires
        round_content_applied(r, request, artifact, callback, envelope, now),
        callback.transport_error is None,
        callback.status_code == 200,
        round_content(callback.response_body@, envelope) is Ok,
        request.round_key@ == "round_1"@,
        request.phase == RoundGenerationPhase::PendingGeminiSkeleton,
    ensures
        r is Ok,
        r->Ok_0.artifacts@.len() == 0,
        r->Ok_0.job is Some,
        r->Ok_0.request is Some,
        r->Ok_0.request->0.phase == RoundGenerationPhase::PendingGeminiExpansion,
        r->Ok_0.request->0.skeleton_payload_json is Some,
{
}

// ---------------------------------------------------------------------------------------------
// Retries
// ---------------------------------------------------------------------------------------------

/// A rate-limited ArmorIQ call is re-sent while fewer than three retries were made, each retry
/// counted; after that the request fails.
pub proof fn law_armoriq_retries_bounded(
    w: TerminalWrites,
    request: TerminalRequest,
    state: GameState,
    callback: ArmoriqCallbackSchedule,
    typed: Option<ArmorIqResponse>,
    now: Timestamp,
)
    requires
        armoriq_applied(w, request, state, callback, typed, now),
        callback.transport_error is None,
        callback.status_code == 429,
    ensures
        ({
            let before: u32 = match request.retries {
                Some(n) => n,
                None => 0,
            };
            &&& before < 3 ==> w.armoriq_job is Some && w.request is Some && w.request->0.retries == Some(
                (before + 1) as u32,
            )
            &&& before >= 3 ==> w.armoriq_job is None && w.request is Some && w.request->0.phase
                == TerminalRequestPhase::Failed
        }),
{
}

/// A rate-limited Gemini persona call is re-sent while fewer than three retries were made.
pub proof fn law_persona_retries_bounded(
    w: TerminalWrites,
    request: TerminalRequest,
    state: GameState,
    round: TerminalRoundState,
    callback: GeminiValidatorCallbackSchedule,
    decision: Result<GeminiTerminalTurnResponse, String>,
    now: Timestamp,
)
    requires
        persona_applied(w, request, state, round, callback, decision, now),
        callback.transport_error is None,
        callback.status_code == 429,
    ensures
        ({
            let before: u32 = match request.retries {
                Some(n) => n,
                None => 0,
            };
            &&& before < 3 ==> w.gemini_job is Some && w.request is Some && w.request->0.retries == Some(
                (before + 1) as u32,
            )
            &&& before >= 3 ==> w.gemini_job is None && w.request is Some && w.request->0.phase
                == TerminalRequestPhase::Failed
        }),
{
}

/// A rate-limited clue/manual generation call is re-sent while fewer than three retries were
/// made; after that the request and its artifact fail.
pub proof fn law_round_content_retries_bounded(
    r: Result<RoundContentWrites, String>,
    request: RoundGenerationRequest,
    artifact: RoundContentArtifact,
    callback: RoundGenerationCallbackSchedule,
    envelope: Result<crate::models::GeminiGenerateContentResponse, String>,
    now: Timestamp,
)
    requires
        round_content_applied(r, request, artifact, callback, envelope, now),
        callback.transport_error is None,
        callback.status_code == 429,
    ensures
        r is Ok,
        ({
            let before: u32 = match request.retries {
                Some(n) => n,
                None => 0,
            };
            let w = r->Ok_0;
            &&& before < 3 ==> w.job is Some && w.request is Some && w.request->0.retries == Some(
                (before + 1) as u32,
            )
            &&& before >= 3 ==> w.job is None && w.request is Some && w.request->0.phase
                == RoundGenerationPhase::Failed && w.artifacts@.len() == 1 && w.artifacts@[0].status
                == GenerationStatus::Failed
        }),
{
}

/// A rate-limited villain speech call is re-sent while fewer than three retries were made;
/// after that the request and its artifact fail.
pub proof fn law_villain_speech_retries_bounded(
    r: Result<VillainSpeechWrites, String>,
    request: VillainSpeechRequest,
    artifact: VillainSpeechArtifact,
    callback: VillainSpeechCallbackSchedule,
    decision: Result<crate::models::VillainSpeechGeminiResponse, String>,
    payload: Result<VillainSpeechGenerationPayload, String>,
    voice_config: Option<VoiceConfig>,
    now: Timestamp,
)
    requires
        villain_speech_applied(r, request, artifact, callback, decision, payload, voice_config, now),
        callback.transport_error is None,
        callback.status_code == 429,
    ensures
        r is Ok,
        ({
            let before: u32 = match request.retries {
                Some(n) => n,
                None => 0,
            };
            let w = r->Ok_0;
            &&& before < 3 ==> w.speech_job is Some && w.request is Some && w.request->0.retries == Some(
                (before + 1) as u32,
            )
            &&& before >= 3 ==> w.speech_job is None && w.tts_job is None && w.request is Some
                && w.request->0.phase == VillainSpeechPhase::Failed
        }),
{
}

/// A rate-limited speech synthesis call is re-sent while fewer than three retries were made;
/// after that the request and its artifact fail.
pub proof fn law_villain_audio_retries_bounded(
    w: VillainSpeechWrites,
    request: VillainSpeechRequest,
    artifact: VillainSpeechArtifact,
    callback: VillainTtsCallbackSchedule,
    now: Timestamp,
)
    requires
        villain_audio_applied(w, request, artifact, callback, now),
        callback.transport_error is None,
        callback.status_code == 429,
    ensures
        ({
            let before: u32 = match request.retries {
                Some(n) => n,
                None => 0,
            };
            &&& before < 3 ==> w.tts_job is Some && w.request is Some && w.request->0.retries == Some(
                (before + 1) as u32,
            )
            &&& before >= 3 ==> w.tts_job is None && w.request is Some && w.request->0.phase
                == VillainSpeechPhase::Failed
        }),
{
}

/// An unreadable persona answer is retried once: the retried request carries the marker, and a
/// request carrying it fails on the next unreadable answer.
pub proof fn law_malformed_answer_retried_once(
    w: TerminalWrites,
    request: TerminalRequest,
    state: GameState,
    round: TerminalRoundState,
    callback: GeminiValidatorCallbackSchedule,
    error: String,
    now: Timestamp,
)
    requires
        persona_applied(w, request, state, round, callback, Err(error), now),
        callback.transport_error is None,
        callback.status_code == 200,
    ensures
        (request.validator_reason matches Some(v) && starts_with_seq(v@, malformed_retry_marker())) ==> (
        w.gemini_job is None && w.request is Some && w.request->0.phase == TerminalRequestPhase::Failed),
        !(request.validator_reason matches Some(v) && starts_with_seq(v@, malformed_retry_marker())) ==> (
        w.gemini_job is Some && w.request is Some && w.request->0.validator_reason is Some && starts_with_seq(
            w.request->0.validator_reason->0@,
            malformed_retry_marker(),
        )),
{
    if !(request.validator_reason matches Some(v) && starts_with_seq(v@, malformed_retry_marker())) {
        let q = w.request->0;
        let v = q.validator_reason->0;
        assert(v@ == malformed_retry_marker() + ": "@ + error@);
        assert(v@.subrange(0, malformed_retry_marker().len() as int) =~= malformed_retry_marker());
    }
}

// ---------------------------------------------------------------------------------------------
// Settings and answers taken from the caller's data
// ---------------------------------------------------------------------------------------------

/// The hidden answer a generated package proposes is its `hidden_answer` member, trimmed,
/// whenever that member is a non-blank string; any proposed answer is a non-blank trimmed string
/// member of the package; and a package with none of the answer members proposes none.
pub proof fn law_hidden_answer_member_comes_first(package: Seq<char>)
    ensures
        (json_str(package, "/hidden_answer"@) matches Some(h) && trim(h).len() > 0) ==> hidden_candidate(
            package,
        ) == Some(trim(json_str(package, "/hidden_answer"@)->0)),
        hidden_candidate(package) matches Some(c) ==> c.len() > 0 && exists|k: Seq<char>|
            #[trigger] json_str(package, k) matches Some(v) && c == trim(v),
        (json_str(package, "/hidden_answer"@) is None && json_str(package, "/validation_answer"@) is None
            && json_str(package, "/kill_phrase_3"@) is None && json_str(package, "/target_word"@) is None
            && json_str(package, "/validation_code"@) is None && json_str(package, "/validation_cipher"@)
            is None) ==> hidden_candidate(package) is None,
{
    reveal_strlit("/");
    reveal_strlit("hidden_answer");
    reveal_strlit("/hidden_answer");
    reveal_strlit("validation_answer");
    reveal_strlit("/validation_answer");
    reveal_strlit("kill_phrase_3");
    reveal_strlit("/kill_phrase_3");
    reveal_strlit("target_word");
    reveal_strlit("/target_word");
    reveal_strlit("validation_code");
    reveal_strlit("/validation_code");
    reveal_strlit("validation_cipher");
    reveal_strlit("/validation_cipher");
    assert("/"@ + "hidden_answer"@ =~= "/hidden_answer"@);
    assert("/"@ + "validation_answer"@ =~= "/validation_answer"@);
    assert("/"@ + "kill_phrase_3"@ =~= "/kill_phrase_3"@);
    assert("/"@ + "target_word"@ =~= "/target_word"@);
    assert("/"@ + "validation_code"@ =~= "/validation_code"@);
    assert("/"@ + "validation_cipher"@ =~= "/validation_cipher"@);
}

/// When the persona's answer says it spoke the kill phrase, and its reply is not blank, the
/// turn succeeds and the round is cleared, whatever words the reply holds.
pub proof fn law_admitted_phrase_clears_the_round(
    w: TerminalWrites,
    request: TerminalRequest,
    state: GameState,
    round: TerminalRoundState,
    callback: GeminiValidatorCallbackSchedule,
    decision: GeminiTerminalTurnResponse,
    now: Timestamp,
)
    requires
        persona_applied(w, request, state, round, callback, Ok(decision), now),
        callback.transport_error is None,
        callback.status_code == 200,
        trim(decision.terminal_reply@).len() > 0,
        decision.spoke_kill_phrase,
    ensures
        w.round_state matches Some(nr) && nr.round_completed,
        w.request matches Some(q) && q.validator_success == Some(true) && q.spoke_kill_phrase == Some(true)
            && q.phase == TerminalRequestPhase::Succeeded,
        w.game_states@.len() == 1 && w.game_states@[0].last_terminal_result == Some(true),
        !round.round_completed && state.completed_rounds < u32::MAX ==> w.game_states@[0].completed_rounds
            == state.completed_rounds + 1,
{
}

/// The speech synthesis call goes to the voice the speech payload names, with the model it
/// names; the configured voice and model are used only where the payload gives none or a
/// blank one.
pub proof fn law_tts_uses_the_payload_voice_and_model(
    config: VoiceConfig,
    request: VillainSpeechRequest,
    payload: VillainSpeechGenerationPayload,
)
    requires
        tts_target(config, request, Ok(payload)) is Ok,
    ensures
        ({
            let t = tts_target(config, request, Ok(payload))->Ok_0;
            let prefix = strip_trailing(config.elevenlabs_api_base_url@, '/') + "/text-to-speech/"@;
            let text = request.selected_speech_text->0@;
            &&& (payload.voice_id is Some && trim(payload.voice_id->0@).len() > 0) ==> t.0 == prefix
                + payload.voice_id->0@
            &&& !(payload.voice_id matches Some(v) && trim(v@).len() > 0) ==> t.0 == prefix
                + config.elevenlabs_default_voice_id@
            &&& (payload.voice_model_id is Some && trim(payload.voice_model_id->0@).len() > 0) ==> t.1
                == "{\"model_id\":"@ + json_quoted(payload.voice_model_id->0@) + ",\"text\":"@ + json_quoted(text) + "}"@
            &&& !(payload.voice_model_id matches Some(m) && trim(m@).len() > 0) ==> t.1
                == "{\"model_id\":"@ + json_quoted(config.elevenlabs_default_model_id@) + ",\"text\":"@
                + json_quoted(text) + "}"@
        }),
{
}

/// When the ArmorIQ token-issue endpoint is used and one is configured, the request goes to
/// exactly that endpoint; it is derived from the verify URL only when none is configured.
pub proof fn law_configured_token_issue_url_is_used(config: ServerConfig, input: Seq<char>, hidden_answer: Seq<char>)
    requires
        armoriq_target(config, input, hidden_answer) is Ok,
        uses_token_issue(config),
    ensures
        config.armoriq_token_issue_url matches Some(u) ==> armoriq_target(config, input, hidden_answer)->Ok_0.0
            == u@,
        config.armoriq_token_issue_url is None ==> token_issue_url_for(config.armoriq_verify_url@) == Some(
            armoriq_target(config, input, hidden_answer)->Ok_0.0,
        ),
{
}

/// Configuring a round other than round 1 keeps the game's count of cleared rounds; only
/// configuring round 1 starts it over at zero.
pub proof fn law_only_round_one_resets_progress(
    r: Result<ConfigureOutcome, String>,
    game_id: u64,
    setup: TerminalRoundSetupPayload,
    allow_legacy_create: bool,
    config: Option<ServerConfig>,
    state: GameState,
    room: Option<GameRoom>,
    sender: Identity,
    now: Timestamp,
)
    requires
        configure_contract(r, game_id, setup, allow_legacy_create, config, Some(state), room, sender, now),
        r matches Ok(ConfigureOutcome::Configured(_)),
    ensures
        ({
            let out = r->Ok_0->Configured_0;
            &&& out.round_state.round_key@ != "round_1"@ ==> out.game_state.completed_rounds
                == state.completed_rounds
            &&& out.round_state.round_key@ == "round_1"@ ==> out.game_state.completed_rounds == 0
            &&& out.game_state.active_round_key == Some(out.round_state.round_key)
        }),
{
}

} // verus!
