//! The terminal turn flow as transitions over the game tables: configuring a round, submitting
//! input (with the forbidden-word strike check), the ArmorIQ and Gemini hops that follow, the
//! match timer that can disqualify the players, and the hidden answer.
use vstd::prelude::*;

use crate::models::{
    copy_messages, ArmorIqResponse, GeminiTerminalTurnResponse, TerminalClueLine, TerminalConversationMessage,
    TerminalRoundSetupPayload,
};
use crate::room::{
    millis_of, refresh_timer_snapshot, remaining_at, resolve_room_game_id, room_missing_message,
    room_terminated_message, timestamp_millis,
};
use crate::state::{
    copy_strings, has_text, is_active, same_request, GameRoom, GameSecret, GameState,
    Identity, ModuleOwner, ArmoriqRequestSchedule,
    RoomStatus, ServerConfig, TerminalRequest, TerminalRequestPhase, TerminalRoundState, TerminalStatus,
    Timestamp, DEFAULT_GAME_ID, GAME_TIME_LIMIT_MS, MAX_RATE_LIMIT_RETRIES, MAX_ROUNDS,
};
use crate::terminal_rules::{
    after_turn, append_turn, boot_message, build_round_boot_message, build_timeout_terminal_reply,
    normalize_terminal_round_setup, normalized_setup, setup_error, detect_forbidden_word, first_forbidden,
    history_view, next_pending_clue, pending_clue, timeout_reply,
};
use crate::http::verify_with_armoriq;
use crate::text::{cat, cat3, decimal, str_eq, trim, trim_str, u64_to_decimal, views};
use crate::config::{
    ensure_module_owner, ensure_runtime_terminal_gemini_config, owner_check, runtime_terminal_config,
};

verus! {

broadcast use vstd::string::group_string_axioms;

// ---------------------------------------------------------------------------------------------
// Game state updates shared by the flow
// ---------------------------------------------------------------------------------------------

/// The game state after a terminal request ended without success: the terminal is released,
/// `status` and `result` are reported with `message`, the last reply is cleared, and the timer
/// snapshot is refreshed.
pub open spec fn failed_game_state(
    old: GameState,
    new: GameState,
    request_id: u64,
    actor: Identity,
    status: TerminalStatus,
    result: bool,
    message: Seq<char>,
    now: Timestamp,
) -> bool {
    &&& new == GameState {
        is_processing_terminal: false,
        active_terminal_request: if is_active(old.active_terminal_request, request_id) {
            None
        } else {
            old.active_terminal_request
        },
        terminal_status: status,
        last_terminal_result: Some(result),
        last_terminal_message: new.last_terminal_message,
        last_terminal_reply: None,
        last_terminal_actor: Some(actor),
        timer_remaining_ms: remaining_at(old, millis_of(now) as u64),
        updated_at: now,
        ..old
    }
    &&& has_text(new.last_terminal_message, message)
}

pub fn fail_game_state(
    state: &mut GameState,
    request_id: u64,
    actor: Identity,
    status: TerminalStatus,
    result: bool,
    message: String,
    now: Timestamp,
)
    ensures
        failed_game_state(*old(state), *final(state), request_id, actor, status, result, message@, now),
{
    state.is_processing_terminal = false;
    if same_request(state.active_terminal_request, request_id) {
        state.active_terminal_request = None;
    }
    state.terminal_status = status;
    state.last_terminal_result = Some(result);
    state.last_terminal_message = Some(message);
    state.last_terminal_reply = None;
    state.last_terminal_actor = Some(actor);
    refresh_timer_snapshot(state, timestamp_millis(now));
    state.updated_at = now;
}

/// The game state after the match timer ran out: the terminal stops, the players are
/// disqualified with no time remaining, and the timeout line is shown.
pub open spec fn disqualified_game_state(old: GameState, new: GameState, now: Timestamp) -> bool {
    &&& new == GameState {
        is_processing_terminal: false,
        active_terminal_request: None,
        terminal_status: TerminalStatus::Failed,
        last_terminal_result: Some(false),
        last_terminal_message: new.last_terminal_message,
        last_terminal_reply: new.last_terminal_reply,
        timer_remaining_ms: Some(0),
        is_game_disqualified: true,
        disqualified_at_ms: Some(millis_of(now) as u64),
        updated_at: now,
        ..old
    }
    &&& has_text(new.last_terminal_message, "Time limit reached. Players were disqualified."@)
    &&& has_text(new.last_terminal_reply, timeout_reply(old.active_persona_name))
}

/// The room of a disqualified game, which is terminated.
pub open spec fn timed_out_room(old: Option<GameRoom>, now: Timestamp) -> Option<GameRoom> {
    match old {
        Some(room) => Some(
            GameRoom {
                status: RoomStatus::Terminated,
                updated_at: now,
                terminated_at: Some(now),
                ..room
            },
        ),
        None => None,
    }
}

/// Disqualifies the players of a game whose match timer ran out, and terminates its room.
pub fn disqualify_game_due_to_timeout(state: &mut GameState, room: &mut Option<GameRoom>, now: Timestamp)
    ensures
        disqualified_game_state(*old(state), *final(state), now),
        *final(room) == timed_out_room(*old(room), now),
{
    let now_ms = timestamp_millis(now);
    let taken = room.take();
    *room = match taken {
        Some(r) => Some(
            GameRoom { status: RoomStatus::Terminated, updated_at: now, terminated_at: Some(now), ..r },
        ),
        None => None,
    };
    let reply = build_timeout_terminal_reply(state);
    state.is_processing_terminal = false;
    state.active_terminal_request = None;
    state.terminal_status = TerminalStatus::Failed;
    state.last_terminal_result = Some(false);
    state.last_terminal_message = Some("Time limit reached. Players were disqualified.".to_string());
    state.last_terminal_reply = Some(reply);
    state.timer_remaining_ms = Some(0);
    state.is_game_disqualified = true;
    state.disqualified_at_ms = Some(now_ms);
    state.updated_at = now;
}

/// The match timer has run out for a game that has not cleared every round.
pub open spec fn timer_expired(state: GameState, now_ms: u64) -> bool {
    &&& state.completed_rounds < MAX_ROUNDS
    &&& state.timer_deadline_at_ms matches Some(d) && now_ms >= d
}

/// The timer check before a player acts: refuses input once the game is disqualified, and
/// disqualifies the players when the timer has run out before all rounds were cleared.
pub fn enforce_timer_before_player_action(
    state: &mut GameState,
    room: &mut Option<GameRoom>,
    now: Timestamp,
) -> (r: Result<(), String>)
    ensures
        ({
            let refreshed = GameState {
                timer_remaining_ms: remaining_at(*old(state), millis_of(now) as u64),
                ..*old(state)
            };
            &&& old(state).is_game_disqualified ==> (r matches Err(e) && e@
                == "the game has already been disqualified by the match timer"@ && *final(state)
                == refreshed && *final(room) == *old(room))
            &&& !old(state).is_game_disqualified && timer_expired(*old(state), millis_of(now) as u64)
                ==> (r matches Err(e) && e@ == "time limit reached; the players have been disqualified"@
                && disqualified_game_state(refreshed, *final(state), now) && *final(room)
                == timed_out_room(*old(room), now))
            &&& !old(state).is_game_disqualified && !timer_expired(*old(state), millis_of(now) as u64)
                ==> (r is Ok && *final(state) == refreshed && *final(room) == *old(room))
        }),
{
    let now_ms = timestamp_millis(now);
    refresh_timer_snapshot(state, now_ms);
    if state.is_game_disqualified {
        return Err("the game has already been disqualified by the match timer".to_string());
    }
    if state.completed_rounds >= MAX_ROUNDS {
        return Ok(());
    }
    let expired = match state.timer_deadline_at_ms {
        Some(deadline) => now_ms >= deadline,
        None => false,
    };
    if expired {
        disqualify_game_due_to_timeout(state, room, now);
        return Err("time limit reached; the players have been disqualified".to_string());
    }
    Ok(())
}

/// The request after the timer stopped it before it could complete.
pub open spec fn timed_out_request(old: TerminalRequest, new: TerminalRequest, now: Timestamp) -> bool {
    &&& new == TerminalRequest {
        phase: TerminalRequestPhase::Failed,
        validator_success: Some(false),
        validator_reason: new.validator_reason,
        updated_at: now,
        ..old
    }
    &&& has_text(new.validator_reason, "Time limit reached before the terminal turn could complete"@)
}

/// The timer check before a pending request makes progress: once the game is disqualified, or
/// the timer has run out before all rounds were cleared, the request fails and the players are
/// disqualified.
pub fn enforce_timer_before_request_progress(
    state: &mut GameState,
    request: &mut TerminalRequest,
    room: &mut Option<GameRoom>,
    now: Timestamp,
) -> (r: Result<(), String>)
    ensures
        ({
            let refreshed = GameState {
                timer_remaining_ms: remaining_at(*old(state), millis_of(now) as u64),
                ..*old(state)
            };
            let stop = old(state).is_game_disqualified || timer_expired(*old(state), millis_of(now) as u64);
            &&& stop ==> (r matches Err(e) && e@ == "time limit reached before the terminal turn could complete"@
                && timed_out_request(*old(request), *final(request), now)
                && disqualified_game_state(refreshed, *final(state), now)
                && *final(room) == timed_out_room(*old(room), now))
            &&& !stop ==> (r is Ok && *final(state) == refreshed && *final(request) == *old(request)
                && *final(room) == *old(room))
        }),
{
    let now_ms = timestamp_millis(now);
    refresh_timer_snapshot(state, now_ms);
    let expired = state.completed_rounds < MAX_ROUNDS && match state.timer_deadline_at_ms {
        Some(deadline) => now_ms >= deadline,
        None => false,
    };
    if state.is_game_disqualified || expired {
        request.phase = TerminalRequestPhase::Failed;
        request.validator_success = Some(false);
        request.validator_reason = Some(
            "Time limit reached before the terminal turn could complete".to_string(),
        );
        request.updated_at = now;
        disqualify_game_due_to_timeout(state, room, now);
        return Err("time limit reached before the terminal turn could complete".to_string());
    }
    Ok(())
}

/// Releases a terminal lock held for a request that no longer exists. Returns whether the state
/// changed.
pub fn repair_stale_lock_if_needed(state: &mut GameState, active_request_exists: bool, now: Timestamp) -> (changed: bool)
    ensures
        changed == (old(state).is_processing_terminal && !active_request_exists),
        !changed ==> *final(state) == *old(state),
        changed ==> *final(state) == (GameState {
            is_processing_terminal: false,
            active_terminal_request: None,
            terminal_status: TerminalStatus::Idle,
            last_terminal_message: final(state).last_terminal_message,
            updated_at: now,
            ..*old(state)
        }) && has_text(
            final(state).last_terminal_message,
            "Recovered from a stale terminal lock left by a missing request"@,
        ),
{
    if state.is_processing_terminal && !active_request_exists {
        state.is_processing_terminal = false;
        state.active_terminal_request = None;
        state.terminal_status = TerminalStatus::Idle;
        state.last_terminal_message = Some(
            "Recovered from a stale terminal lock left by a missing request".to_string(),
        );
        state.updated_at = now;
        true
    } else {
        false
    }
}

/// The game state `new` is `old` released from the request `request_id`, whose row is gone,
/// and reporting the failure with `message`.
pub open spec fn cleared_state(old: GameState, new: GameState, request_id: u64, message: Seq<char>, now: Timestamp) -> bool {
    &&& new == GameState {
        is_processing_terminal: false,
        active_terminal_request: None,
        terminal_status: TerminalStatus::Failed,
        last_terminal_result: Some(false),
        last_terminal_message: new.last_terminal_message,
        last_terminal_reply: None,
        timer_remaining_ms: remaining_at(old, millis_of(now) as u64),
        updated_at: now,
        ..old
    }
    &&& has_text(new.last_terminal_message, message)
}

/// A game state waiting on a request whose row is gone: it is released and reports the failure
/// with `message`. States waiting on another request are left as they are (`None`).
pub fn clear_state_for_unknown_request(state: GameState, request_id: u64, message: &str, now: Timestamp) -> (r: Option<GameState>)
    ensures
        !is_active(state.active_terminal_request, request_id) ==> r is None,
        is_active(state.active_terminal_request, request_id) ==> (r matches Some(s) && cleared_state(
            state,
            s,
            request_id,
            message@,
            now,
        )),
{
    if !same_request(state.active_terminal_request, request_id) {
        return None;
    }
    let mut s = state;
    s.is_processing_terminal = false;
    s.active_terminal_request = None;
    s.terminal_status = TerminalStatus::Failed;
    s.last_terminal_result = Some(false);
    s.last_terminal_message = Some(message.to_string());
    s.last_terminal_reply = None;
    refresh_timer_snapshot(&mut s, timestamp_millis(now));
    s.updated_at = now;
    Some(s)
}

/// Player 1 is bound to the first submitter when the game has none; any caller may submit.
pub fn bind_or_authorize_player_one(sender: Identity, state: &mut GameState) -> (r: Result<(), String>)
    ensures
        r is Ok,
        *final(state) == (GameState {
            player_one: if old(state).player_one is None {
                Some(sender)
            } else {
                old(state).player_one
            },
            ..*old(state)
        }),
{
    if state.player_one.is_none() {
        state.player_one = Some(sender);
    }
    Ok(())
}

/// The row created for the legacy singleton game, with the caller as Player 1 and the given
/// villain name.
pub open spec fn legacy_game_state(villain_name: String, sender: Identity, now: Timestamp) -> GameState {
    GameState {
        game_id: DEFAULT_GAME_ID,
        player_one: Some(sender),
        player_two: None,
        villain_name,
        active_round_key: None,
        active_persona_name: None,
        is_processing_terminal: false,
        active_terminal_request: None,
        terminal_status: TerminalStatus::Idle,
        terminal_strikes: 0,
        terminal_max_strikes: 3,
        is_terminal_dead: false,
        completed_rounds: 0,
        revealed_clue_count: 0,
        last_terminal_result: None,
        last_terminal_message: None,
        last_terminal_reply: None,
        last_terminal_actor: None,
        updated_at: now,
        timer_started_at_ms: None,
        timer_deadline_at_ms: None,
        timer_duration_ms: GAME_TIME_LIMIT_MS,
        timer_remaining_ms: None,
        is_game_disqualified: false,
        disqualified_at_ms: None,
    }
}

/// The state a legacy action starts from: the stored row, or else a new one (whose villain is
/// "AI Villain").
pub open spec fn start_state(found: Option<GameState>, villain_name: String, sender: Identity, now: Timestamp) -> GameState {
    match found {
        Some(s) => s,
        None => legacy_game_state(villain_name, sender, now),
    }
}

/// The legacy singleton game state: the stored row, or a fresh one with the caller as Player 1.
pub fn load_or_create_game_state(found: Option<GameState>, sender: Identity, now: Timestamp) -> (r: GameState)
    ensures
        r == start_state(found, r.villain_name, sender, now),
        found is None ==> r.villain_name@ == "AI Villain"@,
{
    match found {
        Some(s) => s,
        None => GameState {
            game_id: DEFAULT_GAME_ID,
            player_one: Some(sender),
            player_two: None,
            villain_name: "AI Villain".to_string(),
            active_round_key: None,
            active_persona_name: None,
            is_processing_terminal: false,
            active_terminal_request: None,
            terminal_status: TerminalStatus::Idle,
            terminal_strikes: 0,
            terminal_max_strikes: 3,
            is_terminal_dead: false,
            completed_rounds: 0,
            revealed_clue_count: 0,
            last_terminal_result: None,
            last_terminal_message: None,
            last_terminal_reply: None,
            last_terminal_actor: None,
            updated_at: now,
            timer_started_at_ms: None,
            timer_deadline_at_ms: None,
            timer_duration_ms: GAME_TIME_LIMIT_MS,
            timer_remaining_ms: None,
            is_game_disqualified: false,
            disqualified_at_ms: None,
        },
    }
}

pub open spec fn game_state_unknown_message(game_id: u64) -> Seq<char> {
    "game state "@ + decimal(game_id as nat) + " does not exist"@
}

/// The stored game state of a game, or the error for an unknown game.
pub fn load_game_state(game_id: u64, found: Option<GameState>) -> (r: Result<GameState, String>)
    ensures
        found matches Some(s) ==> r == Ok::<GameState, String>(s),
        found is None ==> (r matches Err(e) && e@ == game_state_unknown_message(game_id)),
{
    match found {
        Some(s) => Ok(s),
        None => {
            let id = u64_to_decimal(game_id);
            Err(cat3("game state ", id.as_str(), " does not exist"))
        },
    }
}


// ---------------------------------------------------------------------------------------------
// Request rows
// ---------------------------------------------------------------------------------------------

/// The pending clue's id and text, as the request snapshots them.
pub open spec fn pending_clue_id(round: TerminalRoundState) -> Option<String> {
    match pending_clue(round) {
        Some(c) => Some(c.clue_id),
        None => None,
    }
}

pub open spec fn pending_clue_text(round: TerminalRoundState) -> Option<String> {
    match pending_clue(round) {
        Some(c) => Some(c.clue_text),
        None => None,
    }
}

/// A new request row (its id is assigned by the table) that snapshots the round as it stands.
pub open spec fn snapshots_round(
    r: TerminalRequest,
    game_id: u64,
    sender: Identity,
    input: Seq<char>,
    round: TerminalRoundState,
    now: Timestamp,
) -> bool {
    &&& r.request_id == 0
    &&& r.game_id == game_id
    &&& r.player_identity == sender
    &&& r.player_input@ == input
    &&& r.hidden_answer_snapshot == round.kill_phrase_part
    &&& r.round_key_snapshot == Some(round.round_key)
    &&& r.persona_name_snapshot == Some(round.persona_name)
    &&& (r.forbidden_words_snapshot matches Some(w) && w@ == round.forbidden_words@)
    &&& (r.conversation_history_snapshot matches Some(h) && h@ == round.conversation_history@)
    &&& r.queued_clue_id_snapshot == pending_clue_id(round)
    &&& r.queued_clue_text_snapshot == pending_clue_text(round)
    &&& r.armoriq_raw_response is None
    &&& r.gemini_raw_response is None
    &&& r.strike_count_after == Some(round.strikes)
    &&& r.created_at == now
    &&& r.updated_at == now
    &&& r.retries == Some(0u32)
}

/// A request row in `phase` that snapshots the round and has no outcome recorded yet.
fn round_snapshot_request(
    game_id: u64,
    sender: Identity,
    phase: TerminalRequestPhase,
    player_input: String,
    round: &TerminalRoundState,
    now: Timestamp,
) -> (r: TerminalRequest)
    ensures
        snapshots_round(r, game_id, sender, player_input@, *round, now),
        r.player_input == player_input,
        r.phase == phase,
        r.armoriq_allowed is None,
        r.armoriq_block_reason is None,
        r.validator_success is None,
        r.validator_reason is None,
        r.terminal_reply is None,
        r.spoke_kill_phrase is None,
{
    let next_clue = next_pending_clue(round);
    let (clue_id, clue_text) = match next_clue {
        Some(clue) => (Some(clue.clue_id), Some(clue.clue_text)),
        None => (None, None),
    };
    TerminalRequest {
        request_id: 0,
        game_id,
        player_identity: sender,
        phase,
        player_input,
        hidden_answer_snapshot: round.kill_phrase_part.clone(),
        round_key_snapshot: Some(round.round_key.clone()),
        persona_name_snapshot: Some(round.persona_name.clone()),
        forbidden_words_snapshot: Some(copy_strings(&round.forbidden_words)),
        conversation_history_snapshot: Some(copy_messages(&round.conversation_history)),
        queued_clue_id_snapshot: clue_id,
        queued_clue_text_snapshot: clue_text,
        armoriq_allowed: None,
        armoriq_block_reason: None,
        armoriq_raw_response: None,
        gemini_raw_response: None,
        validator_success: None,
        validator_reason: None,
        terminal_reply: None,
        spoke_kill_phrase: None,
        strike_count_after: Some(round.strikes),
        created_at: now,
        updated_at: now,
        retries: Some(0),
    }
}

// ---------------------------------------------------------------------------------------------
// Forbidden-word strikes
// ---------------------------------------------------------------------------------------------

/// The strike limit of a round: its own limit, but never fewer than three.
pub open spec fn strike_limit(round: TerminalRoundState) -> u32 {
    if round.max_strikes >= 3 {
        round.max_strikes
    } else {
        3
    }
}

/// The strike count after one more strike, capped at the limit.
pub open spec fn strikes_after_penalty(round: TerminalRoundState) -> u32 {
    if round.strikes as int + 1 >= strike_limit(round) {
        strike_limit(round)
    } else {
        (round.strikes + 1) as u32
    }
}

/// What the terminal answers to a forbidden word.
pub open spec fn strike_reply(
    round: TerminalRoundState,
    word: Seq<char>,
    strikes: u32,
    limit: u32,
    dead: bool,
) -> Seq<char> {
    round.persona_name@ + "// "@ + round.glitch_tone@ + " :: forbidden lexeme ["@ + word
        + "] confirmed. strike "@ + decimal(strikes as nat) + "/"@ + decimal(limit as nat) + if dead {
        ". heartbeat flatlines. operator lost."@
    } else {
        ". step carefully, operator."@
    }
}

/// The status line shown after a forbidden word.
pub open spec fn strike_message(word: Seq<char>, strikes: u32, limit: u32, dead: bool) -> Seq<char> {
    if dead {
        "Strike "@ + decimal(strikes as nat) + "/"@ + decimal(limit as nat)
            + ". The player died after using forbidden words."@
    } else {
        "Strike "@ + decimal(strikes as nat) + "/"@ + decimal(limit as nat) + ". Forbidden word ["@
            + word + "] triggered a penalty."@
    }
}

/// The round after a strike for `word` said in `input`.
pub open spec fn struck_round(
    old: TerminalRoundState,
    new: TerminalRoundState,
    input: Seq<char>,
    word: Seq<char>,
    now: Timestamp,
) -> bool {
    let limit = strike_limit(old);
    let strikes = strikes_after_penalty(old);
    let dead = strikes >= limit;
    &&& new == TerminalRoundState {
        max_strikes: if old.max_strikes == 0 {
            limit
        } else {
            old.max_strikes
        },
        strikes,
        player_dead: dead,
        conversation_history: new.conversation_history,
        updated_at: now,
        ..old
    }
    &&& history_view(new.conversation_history@) == after_turn(
        history_view(old.conversation_history@),
        input,
        strike_reply(old, word, strikes, limit, dead),
    )
}

/// The game state after a strike against `round`.
pub open spec fn struck_game_state(
    old: GameState,
    new: GameState,
    round: TerminalRoundState,
    word: Seq<char>,
    sender: Identity,
    now: Timestamp,
) -> bool {
    let limit = strike_limit(round);
    let strikes = strikes_after_penalty(round);
    let dead = strikes >= limit;
    &&& new == GameState {
        is_processing_terminal: false,
        active_terminal_request: None,
        terminal_status: TerminalStatus::Rejected,
        terminal_strikes: strikes,
        terminal_max_strikes: limit,
        is_terminal_dead: dead,
        last_terminal_result: Some(false),
        last_terminal_message: new.last_terminal_message,
        last_terminal_reply: new.last_terminal_reply,
        last_terminal_actor: Some(sender),
        timer_remaining_ms: remaining_at(old, millis_of(now) as u64),
        updated_at: now,
        ..old
    }
    &&& has_text(new.last_terminal_message, strike_message(word, strikes, limit, dead))
    &&& has_text(new.last_terminal_reply, strike_reply(round, word, strikes, limit, dead))
}

/// The request row recording a strike, refused before it reached ArmorIQ.
pub open spec fn strike_request(
    r: TerminalRequest,
    game_id: u64,
    sender: Identity,
    input: Seq<char>,
    word: Seq<char>,
    old_round: TerminalRoundState,
    new_round: TerminalRoundState,
    now: Timestamp,
) -> bool {
    let limit = strike_limit(old_round);
    let strikes = strikes_after_penalty(old_round);
    let dead = strikes >= limit;
    &&& snapshots_round(r, game_id, sender, input, new_round, now)
    &&& r.phase == TerminalRequestPhase::Rejected
    &&& r.armoriq_allowed == Some(false)
    &&& has_text(r.armoriq_block_reason, "Forbidden word strike triggered before ArmorIQ: "@ + word)
    &&& r.validator_success == Some(false)
    &&& has_text(
        r.validator_reason,
        if dead {
            "Third forbidden-word strike reached; player died for this round"@
        } else {
            "Forbidden word used: "@ + word
        },
    )
    &&& has_text(r.terminal_reply, strike_reply(old_round, word, strikes, limit, dead))
    &&& r.spoke_kill_phrase == Some(false)
}

/// Records a strike for a forbidden word: the round counts it (dying at the limit, which is at
/// least three) and remembers the exchange, the game shows the penalty, and the returned
/// request row (to be inserted) records the refused input.
pub fn register_forbidden_word_penalty(
    game_state: &mut GameState,
    round_state: &mut TerminalRoundState,
    player_input: String,
    forbidden_word: String,
    sender: Identity,
    now: Timestamp,
) -> (request: TerminalRequest)
    ensures
        struck_round(*old(round_state), *final(round_state), player_input@, forbidden_word@, now),
        struck_game_state(*old(game_state), *final(game_state), *old(round_state), forbidden_word@, sender, now),
        strike_request(
            request,
            old(game_state).game_id,
            sender,
            player_input@,
            forbidden_word@,
            *old(round_state),
            *final(round_state),
            now,
        ),
{
    let ghost old_round = *round_state;
    let limit: u32 = if round_state.max_strikes >= 3 {
        round_state.max_strikes
    } else {
        3
    };
    if round_state.max_strikes == 0 {
        round_state.max_strikes = limit;
    }
    let strikes: u32 = if round_state.strikes >= limit - 1 {
        limit
    } else {
        round_state.strikes + 1
    };
    round_state.strikes = strikes;
    let dead = strikes >= limit;
    round_state.player_dead = dead;
    round_state.updated_at = now;

    let strikes_text = u64_to_decimal(strikes as u64);
    let limit_text = u64_to_decimal(limit as u64);
    let mut reply = round_state.persona_name.clone();
    reply.append("// ");
    reply.append(round_state.glitch_tone.as_str());
    reply.append(" :: forbidden lexeme [");
    reply.append(forbidden_word.as_str());
    reply.append("] confirmed. strike ");
    reply.append(strikes_text.as_str());
    reply.append("/");
    reply.append(limit_text.as_str());
    if dead {
        reply.append(". heartbeat flatlines. operator lost.");
    } else {
        reply.append(". step carefully, operator.");
    }
    assert(reply@ == strike_reply(old_round, forbidden_word@, strikes, limit, dead));

    append_turn(&mut round_state.conversation_history, player_input.clone(), reply.clone());

    let mut request = round_snapshot_request(
        game_state.game_id,
        sender,
        TerminalRequestPhase::Rejected,
        player_input,
        round_state,
        now,
    );
    request.armoriq_allowed = Some(false);
    request.armoriq_block_reason = Some(
        cat("Forbidden word strike triggered before ArmorIQ: ", forbidden_word.as_str()),
    );
    request.validator_success = Some(false);
    request.validator_reason = Some(
        if dead {
            "Third forbidden-word strike reached; player died for this round".to_string()
        } else {
            cat("Forbidden word used: ", forbidden_word.as_str())
        },
    );
    request.terminal_reply = Some(reply.clone());
    request.spoke_kill_phrase = Some(false);

    let mut message = "Strike ".to_string();
    message.append(strikes_text.as_str());
    message.append("/");
    message.append(limit_text.as_str());
    if dead {
        message.append(". The player died after using forbidden words.");
    } else {
        message.append(". Forbidden word [");
        message.append(forbidden_word.as_str());
        message.append("] triggered a penalty.");
    }

    game_state.is_processing_terminal = false;
    game_state.active_terminal_request = None;
    game_state.terminal_status = TerminalStatus::Rejected;
    game_state.terminal_strikes = strikes;
    game_state.terminal_max_strikes = limit;
    game_state.is_terminal_dead = dead;
    game_state.last_terminal_result = Some(false);
    game_state.last_terminal_message = Some(message);
    game_state.last_terminal_reply = Some(reply);
    game_state.last_terminal_actor = Some(sender);
    refresh_timer_snapshot(game_state, timestamp_millis(now));
    game_state.updated_at = now;
    request
}


// ---------------------------------------------------------------------------------------------
// Submitting terminal input
// ---------------------------------------------------------------------------------------------

/// What a submission leads to.
#[derive(Debug, Clone)]
pub enum SubmitOutcome {
    /// The input used a forbidden word: the round, the game and a new request row (refused
    /// before ArmorIQ) are written, and nothing is sent out.
    Struck { game_state: GameState, round_state: TerminalRoundState, request: TerminalRequest },
    /// The input goes to ArmorIQ: the request row is inserted, and `await_armoriq` then marks
    /// the game as waiting on it and queues its ArmorIQ check.
    Queued { game_state: GameState, request: TerminalRequest },
    /// The match timer ran out before the input was taken: the input is refused, and the game
    /// (disqualified) and its room (terminated) are written.
    Expired { game_state: GameState, room: Option<GameRoom> },
}

/// The timer of the stored game state ran out before all rounds were cleared, and the game is
/// not yet marked disqualified: acting now records the disqualification.
pub open spec fn expires_now(found: Option<GameState>, now: Timestamp) -> bool {
    found matches Some(s) && !s.is_game_disqualified && timer_expired(s, millis_of(now) as u64)
}

/// The rows recorded when the timer of `s` is found to have run out at `now`: the game
/// disqualified (its remaining time first read at `now`) and its room terminated.
pub open spec fn expiry_recorded(
    s: GameState,
    room: Option<GameRoom>,
    game_state: GameState,
    new_room: Option<GameRoom>,
    now: Timestamp,
) -> bool {
    &&& disqualified_game_state(
        GameState { timer_remaining_ms: remaining_at(s, millis_of(now) as u64), ..s },
        game_state,
        now,
    )
    &&& new_room == timed_out_room(room, now)
}

pub open spec fn round_not_configured_message(game_id: u64) -> Seq<char> {
    "terminal round for game "@ + decimal(game_id as nat)
        + " is not configured yet; call configure_terminal_round_for_room first"@
}

/// Why a round refuses input: it is missing, its player died, or it is already cleared.
pub open spec fn round_refusal(game_id: u64, round: Option<TerminalRoundState>) -> Option<Seq<char>> {
    match round {
        None => Some(round_not_configured_message(game_id)),
        Some(r) => if r.player_dead {
            Some("the player has already died in this round after reaching three strikes"@)
        } else if r.round_completed {
            Some(
                "this round is already completed; configure the next round before sending more terminal input"@,
            )
        } else {
            None
        },
    }
}

/// Why a submission against the game state `state` is refused, in the order of the checks.
/// `active_request_exists` tells whether the request row the state waits on still exists.
pub open spec fn state_refusal(
    state: GameState,
    active_request_exists: bool,
    round: Option<TerminalRoundState>,
    now: Timestamp,
) -> Option<Seq<char>> {
    if state.is_game_disqualified {
        Some("the game has already been disqualified by the match timer"@)
    } else if timer_expired(state, millis_of(now) as u64) {
        None
    } else if state.is_processing_terminal && active_request_exists {
        Some("terminal validation is already in progress"@)
    } else {
        round_refusal(state.game_id, round)
    }
}

/// Why a submission is refused, if it is.
pub open spec fn submit_refusal(
    game_id: u64,
    input: Seq<char>,
    allow_legacy_create: bool,
    found: Option<GameState>,
    active_request_exists: bool,
    round: Option<TerminalRoundState>,
    now: Timestamp,
) -> Option<Seq<char>> {
    if trim(input).len() == 0 {
        Some("terminal input must not be empty"@)
    } else {
        match found {
            Some(s) => state_refusal(s, active_request_exists, round, now),
            None => if allow_legacy_create {
                round_refusal(DEFAULT_GAME_ID, round)
            } else {
                Some(game_state_unknown_message(game_id))
            },
        }
    }
}

/// The game state a submission works on: the timer snapshot refreshed, Player 1 bound when
/// unset, and a lock left by a missing request released (its recovery line is replaced by the
/// line of whatever the submission leads to).
pub open spec fn prepared_state(s: GameState, active_request_exists: bool, sender: Identity, now: Timestamp) -> GameState {
    let bound = GameState {
        player_one: if s.player_one is None {
            Some(sender)
        } else {
            s.player_one
        },
        timer_remaining_ms: remaining_at(s, millis_of(now) as u64),
        ..s
    };
    if bound.is_processing_terminal && !active_request_exists {
        GameState {
            is_processing_terminal: false,
            active_terminal_request: None,
            terminal_status: TerminalStatus::Idle,
            updated_at: now,
            ..bound
        }
    } else {
        bound
    }
}

/// The game state once input is on its way to ArmorIQ.
pub open spec fn armoriq_pending_state(
    old: GameState,
    new: GameState,
    round: TerminalRoundState,
    sender: Identity,
    now: Timestamp,
) -> bool {
    &&& new == GameState {
        is_processing_terminal: true,
        terminal_status: TerminalStatus::PendingArmorIq,
        last_terminal_result: None,
        last_terminal_message: new.last_terminal_message,
        last_terminal_actor: Some(sender),
        timer_remaining_ms: remaining_at(old, millis_of(now) as u64),
        updated_at: now,
        ..old
    }
    &&& has_text(
        new.last_terminal_message,
        "Input received for "@ + round.persona_name@ + ". ArmorIQ validation in progress."@,
    )
}

/// What an accepted submission of `input` leads to, starting from the game state `s`.
pub open spec fn submit_result(
    outcome: SubmitOutcome,
    s: GameState,
    input: Seq<char>,
    active_request_exists: bool,
    round: TerminalRoundState,
    sender: Identity,
    now: Timestamp,
) -> bool {
    let said = trim(input);
    let prepared = prepared_state(s, active_request_exists, sender, now);
    match first_forbidden(said, views(round.forbidden_words@)) {
        Some(word) => outcome matches SubmitOutcome::Struck { game_state, round_state, request } && {
            &&& struck_round(round, round_state, said, word, now)
            &&& struck_game_state(prepared, game_state, round, word, sender, now)
            &&& strike_request(request, s.game_id, sender, said, word, round, round_state, now)
        },
        None => outcome matches SubmitOutcome::Queued { game_state, request } && {
            &&& armoriq_pending_state(prepared, game_state, round, sender, now)
            &&& snapshots_round(request, s.game_id, sender, said, round, now)
            &&& request.phase == TerminalRequestPhase::PendingArmorIq
            &&& request.armoriq_allowed is None
            &&& request.armoriq_block_reason is None
            &&& request.validator_success is None
            &&& request.validator_reason is None
            &&& request.terminal_reply is None
            &&& request.spoke_kill_phrase is None
        },
    }
}

/// The contract of a submission (see `submit_terminal_for_game`).
pub open spec fn submit_contract(
    r: Result<SubmitOutcome, String>,
    game_id: u64,
    input: Seq<char>,
    allow_legacy_create: bool,
    found_state: Option<GameState>,
    active_request_exists: bool,
    round_state: Option<TerminalRoundState>,
    room: Option<GameRoom>,
    sender: Identity,
    now: Timestamp,
) -> bool {
    match submit_refusal(game_id, input, allow_legacy_create, found_state, active_request_exists, round_state, now) {
        Some(msg) => r matches Err(e) && e@ == msg,
        None => if expires_now(found_state, now) {
            r matches Ok(SubmitOutcome::Expired { game_state, room: new_room }) && expiry_recorded(
                found_state->0,
                room,
                game_state,
                new_room,
                now,
            )
        } else {
            r matches Ok(outcome) && round_state matches Some(round) && {
            let villain = match outcome {
                SubmitOutcome::Struck { game_state, .. } => game_state.villain_name,
                SubmitOutcome::Queued { game_state, .. } => game_state.villain_name,
                SubmitOutcome::Expired { game_state, .. } => game_state.villain_name,
            };
            &&& found_state is None ==> villain@ == "AI Villain"@
            &&& submit_result(
                outcome,
                start_state(found_state, villain, sender, now),
                input,
                active_request_exists,
                round,
                sender,
                now,
            )
            }
        },
    }
}

/// Handles terminal input for a game: the trimmed input is checked against the timer, the
/// lock and the round; a forbidden word costs a strike on the spot, anything else is sent to
/// ArmorIQ. `found_state` is the stored game row (with `allow_legacy_create`, a missing row
/// is created), `active_request_exists` whether the request it waits on still exists, and
/// `round_state` the game's round row, and `room` the game's room, if it has one. A refusal
/// writes nothing; input that comes after the timer ran out is refused, and the disqualified
/// game and terminated room (`SubmitOutcome::Expired`) are written.
#[verifier::rlimit(30)]
pub fn submit_terminal_for_game(
    game_id: u64,
    input: String,
    allow_legacy_create: bool,
    found_state: Option<GameState>,
    active_request_exists: bool,
    round_state: Option<TerminalRoundState>,
    room: Option<GameRoom>,
    sender: Identity,
    now: Timestamp,
) -> (r: Result<SubmitOutcome, String>)
    ensures
        submit_contract(
            r,
            game_id,
            input@,
            allow_legacy_create,
            found_state,
            active_request_exists,
            round_state,
            room,
            sender,
            now,
        ),
{
    let normalized_input = trim_str(input.as_str());
    if normalized_input.as_str().is_empty() {
        return Err("terminal input must not be empty".to_string());
    }
    let mut game_state = if allow_legacy_create {
        load_or_create_game_state(found_state, sender, now)
    } else {
        load_game_state(game_id, found_state)?
    };
    let ghost start = game_state;
    let mut room = room;
    let was_disqualified = game_state.is_game_disqualified;
    match enforce_timer_before_player_action(&mut game_state, &mut room, now) {
        Ok(()) => {},
        Err(e) => {
            if was_disqualified {
                return Err(e);
            }
            return Ok(SubmitOutcome::Expired { game_state, room });
        },
    }
    bind_or_authorize_player_one(sender, &mut game_state)?;
    repair_stale_lock_if_needed(&mut game_state, active_request_exists, now);
    enforce_timer_before_player_action(&mut game_state, &mut room, now)?;
    if game_state.is_processing_terminal {
        return Err("terminal validation is already in progress".to_string());
    }
    let mut round = match round_state {
        Some(r) => r,
        None => {
            let id = u64_to_decimal(game_state.game_id);
            return Err(
                cat3(
                    "terminal round for game ",
                    id.as_str(),
                    " is not configured yet; call configure_terminal_round_for_room first",
                ),
            );
        },
    };
    if round.player_dead {
        return Err("the player has already died in this round after reaching three strikes".to_string());
    }
    if round.round_completed {
        return Err(
            "this round is already completed; configure the next round before sending more terminal input".to_string(),
        );
    }
    let ghost prepared = prepared_state(start, active_request_exists, sender, now);
    assert(game_state == GameState { last_terminal_message: game_state.last_terminal_message, ..prepared });
    let ghost round0 = round;
    match detect_forbidden_word(normalized_input.as_str(), &round.forbidden_words) {
        Some(word) => {
            let ghost before = game_state;
            let request = register_forbidden_word_penalty(
                &mut game_state,
                &mut round,
                normalized_input,
                word,
                sender,
                now,
            );
            assert(struck_game_state(prepared, game_state, round0, word@, sender, now));
            return Ok(SubmitOutcome::Struck { game_state, round_state: round, request });
        },
        None => {},
    }
    let request = round_snapshot_request(
        game_state.game_id,
        sender,
        TerminalRequestPhase::PendingArmorIq,
        normalized_input,
        &round,
        now,
    );
    game_state.is_processing_terminal = true;
    game_state.terminal_status = TerminalStatus::PendingArmorIq;
    game_state.last_terminal_result = None;
    game_state.last_terminal_message = Some(
        cat3("Input received for ", round.persona_name.as_str(), ". ArmorIQ validation in progress."),
    );
    game_state.last_terminal_actor = Some(sender);
    refresh_timer_snapshot(&mut game_state, timestamp_millis(now));
    game_state.updated_at = now;
    Ok(SubmitOutcome::Queued { game_state, request })
}

/// Marks the game as waiting on the ArmorIQ check of the inserted request and queues that
/// check.
pub fn await_armoriq(game_state: &mut GameState, request: &TerminalRequest, now: Timestamp) -> (job: ArmoriqRequestSchedule)
    ensures
        *final(game_state) == (GameState { active_terminal_request: Some(request.request_id), ..*old(game_state) }),
        job == (ArmoriqRequestSchedule { scheduled_id: 0, scheduled_at: now, request_id: request.request_id }),
{
    game_state.active_terminal_request = Some(request.request_id);
    verify_with_armoriq(
        request.request_id,
        request.player_input.clone(),
        request.hidden_answer_snapshot.clone(),
        now,
    )
}

/// Terminal input for the legacy singleton game, which is created on first use.
pub fn submit_terminal(
    input: String,
    found_state: Option<GameState>,
    active_request_exists: bool,
    round_state: Option<TerminalRoundState>,
    sender: Identity,
    now: Timestamp,
) -> (r: Result<SubmitOutcome, String>)
    ensures
        submit_contract(
            r,
            DEFAULT_GAME_ID,
            input@,
            true,
            found_state,
            active_request_exists,
            round_state,
            None,
            sender,
            now,
        ),
{
    submit_terminal_for_game(DEFAULT_GAME_ID, input, true, found_state, active_request_exists, round_state, None, sender, now)
}

/// Terminal input for the game of a room; the room must exist and still run.
pub fn submit_terminal_for_room(
    room_id: &str,
    room: Option<GameRoom>,
    input: String,
    found_state: Option<GameState>,
    active_request_exists: bool,
    round_state: Option<TerminalRoundState>,
    sender: Identity,
    now: Timestamp,
) -> (r: Result<SubmitOutcome, String>)
    ensures
        room is None ==> (r matches Err(e) && e@ == room_missing_message(trim(room_id@))),
        room matches Some(g) ==> (g.status == RoomStatus::Terminated ==> (r matches Err(e) && e@
            == room_terminated_message(g.room_id@))),
        room matches Some(g) ==> (g.status != RoomStatus::Terminated ==> submit_contract(
            r,
            g.game_id,
            input@,
            false,
            found_state,
            active_request_exists,
            round_state,
            room,
            sender,
            now,
        )),
{
    let game_id = match open_room_game_id(room_id, &room) {
        Ok(id) => id,
        Err(e) => {
            return Err(e);
        },
    };
    submit_terminal_for_game(game_id, input, false, found_state, active_request_exists, round_state, room, sender, now)
}

/// The game of a room that still runs, or the error for a missing or terminated room.
fn open_room_game_id(room_id: &str, room: &Option<GameRoom>) -> (r: Result<u64, String>)
    ensures
        *room is None ==> (r matches Err(e) && e@ == room_missing_message(trim(room_id@))),
        *room matches Some(g) ==> (g.status == RoomStatus::Terminated ==> (r matches Err(e) && e@
            == room_terminated_message(g.room_id@))),
        *room matches Some(g) ==> (g.status != RoomStatus::Terminated ==> r == Ok::<u64, String>(g.game_id)),
{
    match room {
        None => {
            let trimmed = trim_str(room_id);
            Err(cat3("room ", trimmed.as_str(), " does not exist"))
        },
        Some(g) => {
            if g.status == RoomStatus::Terminated {
                Err(cat3("room ", g.room_id.as_str(), " has already been terminated"))
            } else {
                Ok(g.game_id)
            }
        },
    }
}


// ---------------------------------------------------------------------------------------------
// Configuring a round
// ---------------------------------------------------------------------------------------------

/// The rows written when a round is configured.
#[derive(Debug, Clone)]
pub struct RoundConfigured {
    /// The server configuration with its terminal settings brought up to date, when they changed.
    pub config: Option<ServerConfig>,
    pub round_state: TerminalRoundState,
    pub secret: GameSecret,
    pub game_state: GameState,
}

/// What configuring a round leads to.
#[derive(Debug, Clone)]
pub enum ConfigureOutcome {
    /// The round is configured and its rows are written.
    Configured(RoundConfigured),
    /// The match timer ran out before the round could be configured: the configuration is
    /// refused, and the game (disqualified) and its room (terminated) are written.
    Expired { game_state: GameState, room: Option<GameRoom> },
}

/// The setup a round row was configured from.
pub open spec fn setup_of(round: TerminalRoundState) -> TerminalRoundSetupPayload {
    TerminalRoundSetupPayload {
        round_key: round.round_key,
        persona_name: round.persona_name,
        persona_prompt: round.persona_prompt,
        glitch_tone: round.glitch_tone,
        kill_phrase_part: round.kill_phrase_part,
        forbidden_words: round.forbidden_words,
        clue_lines: round.clue_lines,
        max_strikes: round.max_strikes,
    }
}

/// The boot line of a configured round.
pub open spec fn round_boot_message(round: TerminalRoundState) -> Seq<char> {
    boot_message(round.persona_name@, round.glitch_tone@, round.round_key@, round.max_strikes)
}

/// A freshly configured round of game `game_id`: no strikes, no clue revealed, and a history
/// holding only the boot line.
pub open spec fn fresh_round(round: TerminalRoundState, game_id: u64, now: Timestamp) -> bool {
    &&& round.game_id == game_id
    &&& round.next_clue_index == 0
    &&& round.strikes == 0
    &&& !round.player_dead
    &&& !round.round_completed
    &&& round.created_at == now
    &&& round.updated_at == now
    &&& history_view(round.conversation_history@) == seq![("terminal"@, round_boot_message(round))]
}

/// The game state once a new round is active.
pub open spec fn configured_game_state(old: GameState, new: GameState, round: TerminalRoundState, now: Timestamp) -> bool {
    &&& new == GameState {
        active_round_key: Some(round.round_key),
        active_persona_name: Some(round.persona_name),
        is_processing_terminal: false,
        active_terminal_request: None,
        terminal_status: TerminalStatus::Idle,
        terminal_strikes: 0,
        terminal_max_strikes: round.max_strikes,
        is_terminal_dead: false,
        completed_rounds: if round.round_key@ == "round_1"@ {
            0
        } else {
            old.completed_rounds
        },
        timer_remaining_ms: remaining_at(old, millis_of(now) as u64),
        revealed_clue_count: 0,
        last_terminal_result: None,
        last_terminal_message: new.last_terminal_message,
        last_terminal_reply: new.last_terminal_reply,
        last_terminal_actor: None,
        updated_at: now,
        ..old
    }
    &&& has_text(new.last_terminal_message, round_boot_message(round))
    &&& has_text(new.last_terminal_reply, round_boot_message(round))
}

/// Why configuring a round is refused, in the order of the checks.
pub open spec fn configure_refusal(
    game_id: u64,
    setup: TerminalRoundSetupPayload,
    allow_legacy_create: bool,
    found: Option<GameState>,
    now: Timestamp,
) -> Option<Seq<char>> {
    if setup_error(setup) is Some {
        setup_error(setup)
    } else {
        match found {
            None => if allow_legacy_create {
                None
            } else {
                Some(game_state_unknown_message(game_id))
            },
            Some(s) => if s.is_game_disqualified {
                Some("the game has already been disqualified by the match timer"@)
            } else {
                None
            },
        }
    }
}

pub open spec fn configure_contract(
    r: Result<ConfigureOutcome, String>,
    game_id: u64,
    setup: TerminalRoundSetupPayload,
    allow_legacy_create: bool,
    config: Option<ServerConfig>,
    found: Option<GameState>,
    room: Option<GameRoom>,
    sender: Identity,
    now: Timestamp,
) -> bool {
    match configure_refusal(game_id, setup, allow_legacy_create, found, now) {
        Some(msg) => r matches Err(e) && e@ == msg,
        None => if expires_now(found, now) {
            r matches Ok(ConfigureOutcome::Expired { game_state, room: new_room }) && expiry_recorded(
                found->0,
                room,
                game_state,
                new_room,
                now,
            )
        } else {
            r matches Ok(ConfigureOutcome::Configured(out)) && {
            &&& runtime_terminal_config(config, out.config)
            &&& normalized_setup(setup, setup_of(out.round_state))
            &&& fresh_round(out.round_state, game_id, now)
            &&& out.secret == (GameSecret {
                game_id,
                hidden_answer: out.round_state.kill_phrase_part,
                updated_at: now,
            })
            &&& (found is None ==> out.game_state.villain_name@ == "AI Villain"@)
            &&& configured_game_state(
                start_state(found, out.game_state.villain_name, sender, now),
                out.game_state,
                out.round_state,
                now,
            )
            }
        },
    }
}

/// Configures the terminal round of a game from a setup (already parsed): the setup is
/// validated and normalized, the round row starts over with the boot line, the kill phrase
/// becomes the game's hidden answer, and the game state shows the new round. `config` is the
/// stored server configuration and `found_state` the stored game row (with
/// `allow_legacy_create`, a missing row is created), and `room` the game's room, if it has
/// one. A refusal writes nothing; a configuration that comes after the timer ran out is
/// refused, and the disqualified game and terminated room (`ConfigureOutcome::Expired`) are
/// written.
pub fn configure_terminal_round_for_game(
    game_id: u64,
    setup: TerminalRoundSetupPayload,
    allow_legacy_create: bool,
    config: Option<ServerConfig>,
    found_state: Option<GameState>,
    room: Option<GameRoom>,
    sender: Identity,
    now: Timestamp,
) -> (r: Result<ConfigureOutcome, String>)
    ensures
        configure_contract(r, game_id, setup, allow_legacy_create, config, found_state, room, sender, now),
{
    let config = ensure_runtime_terminal_gemini_config(config);
    let setup = normalize_terminal_round_setup(setup)?;
    let boot = build_round_boot_message(&setup);
    let mut game_state = if allow_legacy_create {
        load_or_create_game_state(found_state, sender, now)
    } else {
        load_game_state(game_id, found_state)?
    };
    let mut room = room;
    let was_disqualified = game_state.is_game_disqualified;
    match enforce_timer_before_player_action(&mut game_state, &mut room, now) {
        Ok(()) => {},
        Err(e) => {
            if was_disqualified {
                return Err(e);
            }
            return Ok(ConfigureOutcome::Expired { game_state, room });
        },
    }

    let mut history: Vec<TerminalConversationMessage> = Vec::new();
    history.push(TerminalConversationMessage { role: "terminal".to_string(), text: boot.clone() });
    assert(history_view(history@) =~= seq![("terminal"@, boot@)]);
    let secret = GameSecret { game_id, hidden_answer: setup.kill_phrase_part.clone(), updated_at: now };

    game_state.active_round_key = Some(setup.round_key.clone());
    game_state.active_persona_name = Some(setup.persona_name.clone());
    game_state.is_processing_terminal = false;
    game_state.active_terminal_request = None;
    game_state.terminal_status = TerminalStatus::Idle;
    game_state.terminal_strikes = 0;
    game_state.terminal_max_strikes = setup.max_strikes;
    game_state.is_terminal_dead = false;
    if str_eq(setup.round_key.as_str(), "round_1") {
        game_state.completed_rounds = 0;
    }
    refresh_timer_snapshot(&mut game_state, timestamp_millis(now));
    game_state.revealed_clue_count = 0;
    game_state.last_terminal_result = None;
    game_state.last_terminal_message = Some(boot.clone());
    game_state.last_terminal_reply = Some(boot);
    game_state.last_terminal_actor = None;
    game_state.updated_at = now;

    let round_state = TerminalRoundState {
        game_id,
        round_key: setup.round_key,
        persona_name: setup.persona_name,
        persona_prompt: setup.persona_prompt,
        glitch_tone: setup.glitch_tone,
        kill_phrase_part: setup.kill_phrase_part,
        forbidden_words: setup.forbidden_words,
        clue_lines: setup.clue_lines,
        conversation_history: history,
        next_clue_index: 0,
        max_strikes: setup.max_strikes,
        strikes: 0,
        player_dead: false,
        round_completed: false,
        created_at: now,
        updated_at: now,
    };
    Ok(ConfigureOutcome::Configured(RoundConfigured { config, round_state, secret, game_state }))
}

/// Configures the round of the legacy singleton game, which is created on first use.
pub fn configure_terminal_round(
    setup: TerminalRoundSetupPayload,
    config: Option<ServerConfig>,
    found_state: Option<GameState>,
    sender: Identity,
    now: Timestamp,
) -> (r: Result<ConfigureOutcome, String>)
    ensures
        configure_contract(r, DEFAULT_GAME_ID, setup, true, config, found_state, None, sender, now),
{
    configure_terminal_round_for_game(DEFAULT_GAME_ID, setup, true, config, found_state, None, sender, now)
}

/// Configures the round of a room's game; the room must exist and still run.
pub fn configure_terminal_round_for_room(
    room_id: &str,
    room: Option<GameRoom>,
    setup: TerminalRoundSetupPayload,
    config: Option<ServerConfig>,
    found_state: Option<GameState>,
    sender: Identity,
    now: Timestamp,
) -> (r: Result<ConfigureOutcome, String>)
    ensures
        room is None ==> (r matches Err(e) && e@ == room_missing_message(trim(room_id@))),
        room matches Some(g) ==> (g.status == RoomStatus::Terminated ==> (r matches Err(e) && e@
            == room_terminated_message(g.room_id@))),
        room matches Some(g) ==> (g.status != RoomStatus::Terminated ==> configure_contract(
            r,
            g.game_id,
            setup,
            false,
            config,
            found_state,
            room,
            sender,
            now,
        )),
{
    let game_id = match open_room_game_id(room_id, &room) {
        Ok(id) => id,
        Err(e) => {
            return Err(e);
        },
    };
    configure_terminal_round_for_game(game_id, setup, false, config, found_state, room, sender, now)
}


// ---------------------------------------------------------------------------------------------
// The hidden answer
// ---------------------------------------------------------------------------------------------

/// The secret row holding a game's hidden answer.
pub fn upsert_hidden_answer_for_game(game_id: u64, hidden_answer: String, now: Timestamp) -> (r: GameSecret)
    ensures
        r == (GameSecret { game_id, hidden_answer, updated_at: now }),
{
    GameSecret { game_id, hidden_answer, updated_at: now }
}

/// The game's round row (when it has one) with its kill phrase replaced by the hidden answer.
pub fn sync_round_kill_phrase(round_state: Option<TerminalRoundState>, hidden_answer: String, now: Timestamp) -> (r: Option<TerminalRoundState>)
    ensures
        round_state is None ==> r is None,
        round_state matches Some(round) ==> r == Some(
            TerminalRoundState { kill_phrase_part: hidden_answer, updated_at: now, ..round },
        ),
{
    match round_state {
        Some(round) => Some(TerminalRoundState { kill_phrase_part: hidden_answer, updated_at: now, ..round }),
        None => None,
    }
}

/// The rows written when the hidden answer is set.
#[derive(Debug, Clone)]
pub struct HiddenAnswerSet {
    pub secret: GameSecret,
    pub round_state: Option<TerminalRoundState>,
}

/// The rows a new hidden answer `answer` leads to for game `game_id`.
pub open spec fn hidden_answer_rows(
    out: HiddenAnswerSet,
    game_id: u64,
    answer: Seq<char>,
    round_state: Option<TerminalRoundState>,
    now: Timestamp,
) -> bool {
    &&& out.secret.game_id == game_id
    &&& out.secret.hidden_answer@ == answer
    &&& out.secret.updated_at == now
    &&& match round_state {
        None => out.round_state is None,
        Some(round) => out.round_state == Some(
            TerminalRoundState { kill_phrase_part: out.secret.hidden_answer, updated_at: now, ..round },
        ),
    }
}

/// Sets the hidden answer of the legacy singleton game (owner only); the answer is trimmed and
/// must not be blank, and the round's kill phrase follows it.
pub fn set_hidden_answer(
    owner: &Option<ModuleOwner>,
    sender: Identity,
    hidden_answer: String,
    round_state: Option<TerminalRoundState>,
    now: Timestamp,
) -> (r: Result<HiddenAnswerSet, String>)
    ensures
        owner_check(*owner, sender) matches Err(m) ==> (r matches Err(e) && e@ == m),
        owner_check(*owner, sender) is Ok && trim(hidden_answer@).len() == 0 ==> (r matches Err(e)
            && e@ == "hidden_answer must not be empty"@),
        owner_check(*owner, sender) is Ok && trim(hidden_answer@).len() > 0 ==> (r matches Ok(out)
            && hidden_answer_rows(out, DEFAULT_GAME_ID, trim(hidden_answer@), round_state, now)),
{
    ensure_module_owner(owner, sender)?;
    let normalized = trim_str(hidden_answer.as_str());
    if normalized.as_str().is_empty() {
        return Err("hidden_answer must not be empty".to_string());
    }
    let secret = upsert_hidden_answer_for_game(DEFAULT_GAME_ID, normalized.clone(), now);
    let round_state = sync_round_kill_phrase(round_state, normalized, now);
    Ok(HiddenAnswerSet { secret, round_state })
}

/// Sets the hidden answer of a room's game (owner only); the room must exist and still run.
pub fn set_hidden_answer_for_room(
    owner: &Option<ModuleOwner>,
    sender: Identity,
    room_id: &str,
    room: Option<GameRoom>,
    hidden_answer: String,
    round_state: Option<TerminalRoundState>,
    now: Timestamp,
) -> (r: Result<HiddenAnswerSet, String>)
    ensures
        owner_check(*owner, sender) matches Err(m) ==> (r matches Err(e) && e@ == m),
        owner_check(*owner, sender) is Ok && trim(hidden_answer@).len() == 0 ==> (r matches Err(e)
            && e@ == "hidden_answer must not be empty"@),
        owner_check(*owner, sender) is Ok && trim(hidden_answer@).len() > 0 ==> {
            &&& room is None ==> (r matches Err(e) && e@ == room_missing_message(trim(room_id@)))
            &&& room matches Some(g) ==> (g.status == RoomStatus::Terminated ==> (r matches Err(e)
                && e@ == room_terminated_message(g.room_id@)))
            &&& room matches Some(g) ==> (g.status != RoomStatus::Terminated ==> (r matches Ok(out)
                && hidden_answer_rows(out, g.game_id, trim(hidden_answer@), round_state, now)))
        },
{
    ensure_module_owner(owner, sender)?;
    let normalized = trim_str(hidden_answer.as_str());
    if normalized.as_str().is_empty() {
        return Err("hidden_answer must not be empty".to_string());
    }
    let trimmed = trim_str(room_id);
    let game_id = resolve_room_game_id(trimmed.as_str(), room)?;
    let secret = upsert_hidden_answer_for_game(game_id, normalized.clone(), now);
    let round_state = sync_round_kill_phrase(round_state, normalized, now);
    Ok(HiddenAnswerSet { secret, round_state })
}

} // verus!
