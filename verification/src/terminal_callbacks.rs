//! The answers of ArmorIQ and of the Gemini terminal persona, applied to the terminal tables:
//! retries on rate limits, failures, rejections, and the persona's turn with its kill-phrase
//! check.
use vstd::prelude::*;

use crate::http::{queue_gemini_validator, verify_with_armoriq};
use crate::json::{
    json_bool, json_bool_at, json_has, json_has_at, json_parse_error, json_str, json_str_at,
    json_syntax_error,
};
use crate::models::{ArmorIqResponse, GeminiTerminalTurnResponse};
use crate::room::{millis_of, refresh_timer_snapshot, remaining_at, timestamp_millis};
use crate::state::{
    has_text, is_active, same_request, ArmoriqCallbackSchedule, ArmoriqRequestSchedule, GameRoom, GameState,
    GeminiValidatorCallbackSchedule, GeminiValidatorRequestSchedule, TerminalRequest, TerminalRequestPhase, TerminalRoundState,
    TerminalStatus, Timestamp,
};
use crate::terminal::{
    clear_state_for_unknown_request, cleared_state, disqualified_game_state,
    enforce_timer_before_request_progress, fail_game_state, failed_game_state, timed_out_request,
    timed_out_room, timer_expired,
};
use crate::terminal_rules::{
    after_turn, append_turn, build_round_victory_message, build_turn_resolved_message, clue_count,
    count_clues, history_view, mentions_phrase, reply_mentions_phrase, turn_resolved_message,
    victory_message,
};
use crate::text::{
    cat, decimal, opt_view, starts_with_seq, str_starts_with, trim, trim_str, u64_to_decimal,
};

verus! {

broadcast use vstd::string::group_string_axioms;

// ---------------------------------------------------------------------------------------------
// Reading ArmorIQ answers
// ---------------------------------------------------------------------------------------------

/// Whether one of the token fields sits under `parent` (a JSON pointer, empty for the top).
pub open spec fn token_under(body: Seq<char>, parent: Seq<char>) -> bool {
    ||| json_has(body, parent + "/token"@)
    ||| json_has(body, parent + "/access_token"@)
    ||| json_has(body, parent + "/intent_token"@)
    ||| json_has(body, parent + "/bearer_token"@)
    ||| json_has(body, parent + "/jwt"@)
}

/// Whether an ArmorIQ body carries an issued token: a token field at the top or under `data` or
/// `result`, or an intent reference.
pub open spec fn token_in(body: Seq<char>) -> bool {
    ||| token_under(body, ""@)
    ||| token_under(body, "/data"@)
    ||| token_under(body, "/result"@)
    ||| json_has(body, "/intent_reference"@)
}

fn token_under_at(body: &str, parent: &str) -> (r: bool)
    ensures
        r == token_under(body@, parent@),
{
    json_has_at(body, cat(parent, "/token").as_str()) || json_has_at(body, cat(parent, "/access_token").as_str())
        || json_has_at(body, cat(parent, "/intent_token").as_str()) || json_has_at(
        body,
        cat(parent, "/bearer_token").as_str(),
    ) || json_has_at(body, cat(parent, "/jwt").as_str())
}

/// Whether an ArmorIQ body carries an issued token.
pub fn armoriq_token_present(body: &str) -> (r: bool)
    ensures
        r == token_in(body@),
{
    token_under_at(body, "") || token_under_at(body, "/data") || token_under_at(body, "/result")
        || json_has_at(body, "/intent_reference")
}

/// The field whose text explains a refused token issuance: the first of `message`, `error`
/// and `detail` that is present.
pub open spec fn rejection_field(body: Seq<char>) -> Option<Seq<char>> {
    if json_has(body, "/message"@) {
        Some("/message"@)
    } else if json_has(body, "/error"@) {
        Some("/error"@)
    } else if json_has(body, "/detail"@) {
        Some("/detail"@)
    } else {
        None
    }
}

/// The reason given for a refused token issuance: the trimmed text of the explaining field when
/// it is a non-blank string, else a fixed line.
pub open spec fn rejection_reason(body: Seq<char>) -> Seq<char> {
    match rejection_field(body) {
        Some(f) => match json_str(body, f) {
            Some(t) => if trim(t).len() > 0 {
                trim(t)
            } else {
                "ArmorIQ rejected the token issuance request"@
            },
            None => "ArmorIQ rejected the token issuance request"@,
        },
        None => "ArmorIQ rejected the token issuance request"@,
    }
}

/// What an ArmorIQ body decides: whether the input is allowed and the block reason given, or
/// why the body could not be read. `typed` is the body read as an allow/block answer, when it
/// is one.
pub open spec fn armoriq_verdict(body: Seq<char>, typed: Option<ArmorIqResponse>) -> Result<
    (bool, Option<Seq<char>>),
    Seq<char>,
> {
    match typed {
        Some(p) => Ok((p.allowed, opt_view(p.block_reason))),
        None => match json_syntax_error(body) {
            Some(e) => Err("Invalid ArmorIQ JSON: "@ + e),
            None => if json_bool(body, "/success"@) == Some(false) {
                Ok((false, Some(rejection_reason(body))))
            } else if token_in(body) || json_bool(body, "/success"@) == Some(true) {
                Ok((true, None))
            } else {
                Err(
                    "ArmorIQ response did not match either the allow/block contract or the token-issue envelope"@,
                )
            },
        },
    }
}

fn rejection_reason_of(body: &str) -> (r: String)
    ensures
        r@ == rejection_reason(body@),
{
    let field = if json_has_at(body, "/message") {
        "/message"
    } else if json_has_at(body, "/error") {
        "/error"
    } else if json_has_at(body, "/detail") {
        "/detail"
    } else {
        return "ArmorIQ rejected the token issuance request".to_string();
    };
    match json_str_at(body, field) {
        Some(t) => {
            let trimmed = trim_str(t.as_str());
            if trimmed.as_str().is_empty() {
                "ArmorIQ rejected the token issuance request".to_string()
            } else {
                trimmed
            }
        },
        None => "ArmorIQ rejected the token issuance request".to_string(),
    }
}

/// Reads an ArmorIQ answer: the allow/block answer itself (`typed`, when the body is one), or a
/// token-issue envelope, whose `success: false` refuses with its reason and whose token (or
/// `success: true`) allows.
pub fn parse_armoriq_response(body: &str, typed: Option<ArmorIqResponse>) -> (r: Result<ArmorIqResponse, String>)
    ensures
        typed matches Some(p) ==> r == Ok::<ArmorIqResponse, String>(p),
        armoriq_verdict(body@, typed) matches Err(m) ==> (r matches Err(e) && e@ == m),
        armoriq_verdict(body@, typed) matches Ok(v) ==> (r matches Ok(p) && p.allowed == v.0 && opt_view(
            p.block_reason,
        ) == v.1),
{
    if let Some(p) = typed {
        return Ok(p);
    }
    if let Some(err) = json_parse_error(body) {
        return Err(cat("Invalid ArmorIQ JSON: ", err.as_str()));
    }
    let success = json_bool_at(body, "/success");
    if success == Some(false) {
        let reason = rejection_reason_of(body);
        return Ok(ArmorIqResponse { allowed: false, block_reason: Some(reason) });
    }
    if armoriq_token_present(body) || success == Some(true) {
        return Ok(ArmorIqResponse { allowed: true, block_reason: None });
    }
    Err(
        "ArmorIQ response did not match either the allow/block contract or the token-issue envelope".to_string(),
    )
}

// ---------------------------------------------------------------------------------------------
// What a callback writes
// ---------------------------------------------------------------------------------------------

/// The rows a terminal callback writes back, and the hops it queues.
#[derive(Debug, Clone)]
pub struct TerminalWrites {
    pub request: Option<TerminalRequest>,
    pub game_states: Vec<GameState>,
    pub room: Option<GameRoom>,
    pub round_state: Option<TerminalRoundState>,
    pub armoriq_job: Option<ArmoriqRequestSchedule>,
    pub gemini_job: Option<GeminiValidatorRequestSchedule>,
}

pub open spec fn writes_nothing(w: TerminalWrites) -> bool {
    &&& w.request is None
    &&& w.game_states@.len() == 0
    &&& w.room is None
    &&& w.round_state is None
    &&& w.armoriq_job is None
    &&& w.gemini_job is None
}

/// Writes of one request row and one game state, and nothing else.
pub open spec fn writes_request_and_state(w: TerminalWrites) -> bool {
    &&& w.request is Some
    &&& w.game_states@.len() == 1
    &&& w.room is None
    &&& w.round_state is None
    &&& w.armoriq_job is None
    &&& w.gemini_job is None
}

fn no_writes() -> (w: TerminalWrites)
    ensures
        writes_nothing(w),
{
    TerminalWrites {
        request: None,
        game_states: Vec::new(),
        room: None,
        round_state: None,
        armoriq_job: None,
        gemini_job: None,
    }
}

fn request_and_state(request: TerminalRequest, state: GameState) -> (w: TerminalWrites)
    ensures
        writes_request_and_state(w),
        w.request == Some(request),
        w.game_states@ == seq![state],
{
    let mut game_states: Vec<GameState> = Vec::new();
    game_states.push(state);
    TerminalWrites {
        request: Some(request),
        game_states,
        room: None,
        round_state: None,
        armoriq_job: None,
        gemini_job: None,
    }
}

/// The game states, in order, that wait on `request_id`.
pub open spec fn waiting_on(states: Seq<GameState>, request_id: u64) -> Seq<GameState>
    decreases states.len(),
{
    if states.len() == 0 {
        Seq::empty()
    } else if crate::state::is_active(states.last().active_terminal_request, request_id) {
        waiting_on(states.drop_last(), request_id).push(states.last())
    } else {
        waiting_on(states.drop_last(), request_id)
    }
}

/// The game states released from a request whose row is gone, in the order given: exactly the
/// states that waited on it, each reporting `message`.
#[verifier::loop_isolation(false)]
pub fn clear_states_for_unknown_request(states: Vec<GameState>, request_id: u64, message: &str, now: Timestamp) -> (r: Vec<GameState>)
    ensures
        r@.len() == waiting_on(states@, request_id).len(),
        forall|i: int|
            0 <= i < r@.len() ==> cleared_state(
                #[trigger] waiting_on(states@, request_id)[i],
                r@[i],
                request_id,
                message@,
                now,
            ),
{
    let mut out: Vec<GameState> = Vec::new();
    let mut i: usize = 0;
    while i < states.len()
        invariant
            i <= states.len(),
            out@.len() == waiting_on(states@.take(i as int), request_id).len(),
            forall|k: int|
                0 <= k < out@.len() ==> cleared_state(
                    #[trigger] waiting_on(states@.take(i as int), request_id)[k],
                    out@[k],
                    request_id,
                    message@,
                    now,
                ),
        decreases states.len() - i,
    {
        proof {
            assert(states@.take(i + 1).drop_last() =~= states@.take(i as int));
            assert(states@.take(i + 1).last() == states@[i as int]);
        }
        let state = crate::state::copy_game_state(&states[i]);
        match clear_state_for_unknown_request(state, request_id, message, now) {
            Some(s) => {
                out.push(s);
            },
            None => {},
        }
        i = i + 1;
    }
    assert(states@.take(states.len() as int) =~= states@);
    out
}

// ---------------------------------------------------------------------------------------------
// The ArmorIQ answer
// ---------------------------------------------------------------------------------------------

/// The game state while the Gemini persona answers a request ArmorIQ cleared.
pub open spec fn persona_pending_state(old: GameState, new: GameState, request: TerminalRequest, now: Timestamp, message: Seq<char>) -> bool {
    &&& new == GameState {
        is_processing_terminal: true,
        active_terminal_request: Some(request.request_id),
        terminal_status: TerminalStatus::PendingGeminiValidator,
        last_terminal_result: None,
        last_terminal_message: new.last_terminal_message,
        last_terminal_actor: Some(request.player_identity),
        updated_at: now,
        ..old
    }
    &&& has_text(new.last_terminal_message, message)
}

/// How an ArmorIQ answer is applied to `request` and to its game state `state` (whose timer
/// snapshot is current), once the timer let the request go on.
pub open spec fn armoriq_applied(
    w: TerminalWrites,
    request: TerminalRequest,
    state: GameState,
    callback: ArmoriqCallbackSchedule,
    typed: Option<ArmorIqResponse>,
    now: Timestamp,
) -> bool {
    let id = request.request_id;
    let actor = request.player_identity;
    let retries: u32 = match request.retries {
        Some(n) => n,
        None => 0,
    };
    let code = decimal(callback.status_code as nat);
    match callback.transport_error {
        Some(te) => writes_request_and_state(w) && w.request == Some(
            TerminalRequest {
                armoriq_raw_response: Some(te),
                armoriq_allowed: Some(false),
                armoriq_block_reason: Some(te),
                phase: TerminalRequestPhase::Failed,
                validator_success: Some(false),
                validator_reason: Some(te),
                updated_at: now,
                ..request
            },
        ) && failed_game_state(
            state,
            w.game_states@[0],
            id,
            actor,
            TerminalStatus::Failed,
            false,
            "ArmorIQ transport error: "@ + te@,
            now,
        ),
        None => if callback.status_code == 429 && retries < 3 {
            &&& w.request == Some(
                TerminalRequest {
                    retries: Some((retries + 1) as u32),
                    phase: TerminalRequestPhase::PendingArmorIq,
                    updated_at: now,
                    ..request
                },
            )
            &&& w.game_states@.len() == 0
            &&& w.room is None
            &&& w.round_state is None
            &&& w.armoriq_job == Some(ArmoriqRequestSchedule { scheduled_id: 0, scheduled_at: now, request_id: id })
            &&& w.gemini_job is None
        } else if callback.status_code != 200 {
            &&& writes_request_and_state(w)
            &&& w.request matches Some(r) && r == TerminalRequest {
                armoriq_raw_response: Some(callback.response_body),
                armoriq_allowed: Some(false),
                armoriq_block_reason: r.armoriq_block_reason,
                phase: TerminalRequestPhase::Failed,
                validator_success: Some(false),
                validator_reason: r.validator_reason,
                updated_at: now,
                ..request
            } && has_text(r.armoriq_block_reason, "ArmorIQ returned HTTP "@ + code) && has_text(
                r.validator_reason,
                "ArmorIQ returned non-200 status "@ + code,
            ) && failed_game_state(
                state,
                w.game_states@[0],
                id,
                actor,
                TerminalStatus::Failed,
                false,
                "ArmorIQ returned HTTP "@ + code,
                now,
            )
        } else {
            match armoriq_verdict(callback.response_body@, typed) {
                Err(m) => {
                    &&& writes_request_and_state(w)
                    &&& w.request matches Some(r) && r == TerminalRequest {
                    armoriq_raw_response: Some(callback.response_body),
                    armoriq_allowed: Some(false),
                    armoriq_block_reason: r.armoriq_block_reason,
                    phase: TerminalRequestPhase::Failed,
                    validator_success: Some(false),
                    validator_reason: r.validator_reason,
                    updated_at: now,
                    ..request
                } && has_text(r.armoriq_block_reason, m) && has_text(
                    r.validator_reason,
                    "Invalid ArmorIQ JSON: "@ + m,
                ) && failed_game_state(
                    state,
                    w.game_states@[0],
                    id,
                    actor,
                    TerminalStatus::Failed,
                    false,
                    "Invalid ArmorIQ JSON: "@ + m,
                    now,
                )
                },
                Ok(v) => if !v.0 {
                    let reason = match v.1 {
                        Some(t) => t,
                        None => "ArmorIQ blocked a system-break attempt"@,
                    };
                    &&& writes_request_and_state(w)
                    &&& w.request matches Some(r) && r == TerminalRequest {
                        armoriq_raw_response: Some(callback.response_body),
                        armoriq_allowed: Some(false),
                        armoriq_block_reason: r.armoriq_block_reason,
                        phase: TerminalRequestPhase::Rejected,
                        validator_success: Some(false),
                        validator_reason: r.validator_reason,
                        updated_at: now,
                        ..request
                    } && opt_view(r.armoriq_block_reason) == v.1 && has_text(r.validator_reason, reason)
                        && failed_game_state(
                        state,
                        w.game_states@[0],
                        id,
                        actor,
                        TerminalStatus::Rejected,
                        false,
                        reason,
                        now,
                    )
                } else {
                    &&& w.request matches Some(r) && r == TerminalRequest {
                        armoriq_raw_response: Some(callback.response_body),
                        armoriq_allowed: Some(true),
                        armoriq_block_reason: r.armoriq_block_reason,
                        phase: TerminalRequestPhase::PendingGeminiValidator,
                        updated_at: now,
                        ..request
                    } && opt_view(r.armoriq_block_reason) == v.1
                    &&& w.game_states@.len() == 1
                    &&& persona_pending_state(
                        state,
                        w.game_states@[0],
                        request,
                        now,
                        "ArmorIQ cleared the input. Terminal persona is responding."@,
                    )
                    &&& w.room is None
                    &&& w.round_state is None
                    &&& w.armoriq_job is None
                    &&& w.gemini_job == Some(
                        GeminiValidatorRequestSchedule { scheduled_id: 0, scheduled_at: now, request_id: id },
                    )
                },
            }
        },
    }
}

/// Applies an ArmorIQ answer to a request whose game the timer let go on (see `armoriq_applied`).
#[verifier::rlimit(40)]
pub fn apply_armoriq_answer(
    request: TerminalRequest,
    state: GameState,
    callback: &ArmoriqCallbackSchedule,
    typed: Option<ArmorIqResponse>,
    now: Timestamp,
) -> (w: TerminalWrites)
    ensures
        armoriq_applied(w, request, state, *callback, typed, now),
{
    let mut request = request;
    let mut state = state;
    let id = request.request_id;
    let actor = request.player_identity;
    if let Some(te) = &callback.transport_error {
        request.armoriq_raw_response = Some(te.clone());
        request.armoriq_allowed = Some(false);
        request.armoriq_block_reason = Some(te.clone());
        request.phase = TerminalRequestPhase::Failed;
        request.validator_success = Some(false);
        request.validator_reason = Some(te.clone());
        request.updated_at = now;
        fail_game_state(
            &mut state,
            id,
            actor,
            TerminalStatus::Failed,
            false,
            cat("ArmorIQ transport error: ", te.as_str()),
            now,
        );
        return request_and_state(request, state);
    }
    let retries: u32 = match request.retries {
        Some(n) => n,
        None => 0,
    };
    if callback.status_code == 429 && retries < 3 {
        request.retries = Some(retries + 1);
        request.phase = TerminalRequestPhase::PendingArmorIq;
        request.updated_at = now;
        let job = verify_with_armoriq(
            id,
            request.player_input.clone(),
            request.hidden_answer_snapshot.clone(),
            now,
        );
        return TerminalWrites {
            request: Some(request),
            game_states: Vec::new(),
            room: None,
            round_state: None,
            armoriq_job: Some(job),
            gemini_job: None,
        };
    }
    let code = u64_to_decimal(callback.status_code as u64);
    if callback.status_code != 200 {
        request.armoriq_raw_response = Some(callback.response_body.clone());
        request.armoriq_allowed = Some(false);
        request.armoriq_block_reason = Some(cat("ArmorIQ returned HTTP ", code.as_str()));
        request.phase = TerminalRequestPhase::Failed;
        request.validator_success = Some(false);
        request.validator_reason = Some(cat("ArmorIQ returned non-200 status ", code.as_str()));
        request.updated_at = now;
        fail_game_state(
            &mut state,
            id,
            actor,
            TerminalStatus::Failed,
            false,
            cat("ArmorIQ returned HTTP ", code.as_str()),
            now,
        );
        return request_and_state(request, state);
    }
    let parsed = match parse_armoriq_response(callback.response_body.as_str(), typed) {
        Ok(p) => p,
        Err(err) => {
            request.armoriq_raw_response = Some(callback.response_body.clone());
            request.armoriq_allowed = Some(false);
            request.armoriq_block_reason = Some(err.clone());
            request.phase = TerminalRequestPhase::Failed;
            request.validator_success = Some(false);
            request.validator_reason = Some(cat("Invalid ArmorIQ JSON: ", err.as_str()));
            request.updated_at = now;
            fail_game_state(
                &mut state,
                id,
                actor,
                TerminalStatus::Failed,
                false,
                cat("Invalid ArmorIQ JSON: ", err.as_str()),
                now,
            );
            return request_and_state(request, state);
        },
    };
    request.armoriq_raw_response = Some(callback.response_body.clone());
    request.armoriq_allowed = Some(parsed.allowed);
    request.armoriq_block_reason = crate::state::copy_opt_string(&parsed.block_reason);
    request.updated_at = now;
    if !parsed.allowed {
        let reason = match parsed.block_reason {
            Some(t) => t,
            None => "ArmorIQ blocked a system-break attempt".to_string(),
        };
        request.phase = TerminalRequestPhase::Rejected;
        request.validator_success = Some(false);
        request.validator_reason = Some(reason.clone());
        fail_game_state(&mut state, id, actor, TerminalStatus::Rejected, false, reason, now);
        return request_and_state(request, state);
    }
    request.phase = TerminalRequestPhase::PendingGeminiValidator;
    state.is_processing_terminal = true;
    state.active_terminal_request = Some(id);
    state.terminal_status = TerminalStatus::PendingGeminiValidator;
    state.last_terminal_result = None;
    state.last_terminal_message = Some(
        "ArmorIQ cleared the input. Terminal persona is responding.".to_string(),
    );
    state.last_terminal_actor = Some(actor);
    state.updated_at = now;
    let job = queue_gemini_validator(id, now);
    let mut game_states: Vec<GameState> = Vec::new();
    game_states.push(state);
    TerminalWrites {
        request: Some(request),
        game_states,
        room: None,
        round_state: None,
        armoriq_job: None,
        gemini_job: Some(job),
    }
}

/// The writes after the timer check of a callback for `request` of the game `state`: when the
/// game is disqualified or its time is up, the request fails, the players are disqualified and
/// the room `room` (the game's room, if any) is terminated; otherwise `go_on` holds of the
/// request and of the state with its timer snapshot refreshed.
pub open spec fn after_timer_check(
    w: TerminalWrites,
    request: TerminalRequest,
    state: GameState,
    room: Option<GameRoom>,
    now: Timestamp,
    go_on: spec_fn(TerminalRequest, GameState) -> bool,
) -> bool {
    let refreshed = GameState { timer_remaining_ms: remaining_at(state, millis_of(now) as u64), ..state };
    if state.is_game_disqualified || timer_expired(state, millis_of(now) as u64) {
        &&& w.request matches Some(r) && timed_out_request(request, r, now)
        &&& w.game_states@.len() == 1
        &&& disqualified_game_state(refreshed, w.game_states@[0], now)
        &&& w.room == timed_out_room(room, now)
        &&& w.round_state is None
        &&& w.armoriq_job is None
        &&& w.gemini_job is None
    } else {
        go_on(request, refreshed)
    }
}

/// Handles the ArmorIQ answer for a terminal request (only the scheduler may call it). Its
/// inputs are the callback row, the request row it names, that request's game state and room,
/// every game state (used when the request row is gone), and the body read as an allow/block
/// answer when it is one.
pub fn _armoriq_callback(
    is_internal: bool,
    callback: ArmoriqCallbackSchedule,
    request: Option<TerminalRequest>,
    game_state: Option<GameState>,
    room: Option<GameRoom>,
    all_game_states: Vec<GameState>,
    typed: Option<ArmorIqResponse>,
    now: Timestamp,
) -> (r: Result<TerminalWrites, String>)
    ensures
        !is_internal ==> (r matches Err(e) && e@ == "_armoriq_callback may only be invoked by the scheduler"@),
        is_internal ==> (r matches Ok(w) && match request {
            None => {
                let waiting = waiting_on(all_game_states@, callback.request_id);
                &&& w.request is None && w.room is None && w.round_state is None
                &&& w.armoriq_job is None && w.gemini_job is None
                &&& w.game_states@.len() == waiting.len()
                &&& forall|i: int|
                    0 <= i < waiting.len() ==> cleared_state(
                        #[trigger] waiting[i],
                        w.game_states@[i],
                        callback.request_id,
                        "ArmorIQ callback arrived after the request row was removed"@,
                        now,
                    )
            },
            Some(req) => match game_state {
                None => writes_nothing(w),
                Some(st) => after_timer_check(
                    w,
                    req,
                    st,
                    room,
                    now,
                    |q: TerminalRequest, s: GameState| armoriq_applied(w, q, s, callback, typed, now),
                ),
            },
        }),
{
    if !is_internal {
        return Err("_armoriq_callback may only be invoked by the scheduler".to_string());
    }
    let mut request = match request {
        Some(r) => r,
        None => {
            let cleared = clear_states_for_unknown_request(
                all_game_states,
                callback.request_id,
                "ArmorIQ callback arrived after the request row was removed",
                now,
            );
            return Ok(
                TerminalWrites {
                    request: None,
                    game_states: cleared,
                    room: None,
                    round_state: None,
                    armoriq_job: None,
                    gemini_job: None,
                },
            );
        },
    };
    let mut state = match game_state {
        Some(s) => s,
        None => {
            return Ok(no_writes());
        },
    };
    let mut room = room;
    if enforce_timer_before_request_progress(&mut state, &mut request, &mut room, now).is_err() {
        let mut game_states: Vec<GameState> = Vec::new();
        game_states.push(state);
        return Ok(
            TerminalWrites {
                request: Some(request),
                game_states,
                room,
                round_state: None,
                armoriq_job: None,
                gemini_job: None,
            },
        );
    }
    Ok(apply_armoriq_answer(request, state, &callback, typed, now))
}


// ---------------------------------------------------------------------------------------------
// The persona's turn
// ---------------------------------------------------------------------------------------------

/// The reason recorded on a request whose Gemini answer could not be read the first time; a
/// request carrying it is not retried again.
pub open spec fn malformed_retry_marker() -> Seq<char> {
    "Retrying after malformed Gemini terminal JSON"@
}

/// The persona's turn read from a Gemini answer: the body itself when it is the turn object
/// (`direct`), else what the response envelope's text yields (`from_envelope`).
pub open spec fn turn_decision(
    direct: Option<GeminiTerminalTurnResponse>,
    from_envelope: Result<GeminiTerminalTurnResponse, String>,
) -> Result<GeminiTerminalTurnResponse, String> {
    match direct {
        Some(d) => Ok(d),
        None => from_envelope,
    }
}

/// `n + 1`, saturating at `u32::MAX`.
pub open spec fn saturating_inc(n: u32) -> u32 {
    if n == u32::MAX {
        n
    } else {
        (n + 1) as u32
    }
}

/// The clue index after a turn: it moves past the clue the request queued, if any remain.
pub open spec fn clue_index_after(request: TerminalRequest, round: TerminalRoundState) -> u32 {
    if request.queued_clue_id_snapshot is Some && round.next_clue_index < clue_count(round) {
        (round.next_clue_index + 1) as u32
    } else {
        round.next_clue_index
    }
}

/// The rows after the persona answered `reply` to `request` (the turn succeeded, whether or not
/// the kill phrase was said).
pub open spec fn turn_taken(
    w: TerminalWrites,
    request: TerminalRequest,
    state: GameState,
    round: TerminalRoundState,
    callback: GeminiValidatorCallbackSchedule,
    reply: Seq<char>,
    spoke: bool,
    now: Timestamp,
) -> bool {
    let next = clue_index_after(request, round);
    let count = clue_count(round);
    let completed = if spoke && !round.round_completed {
        saturating_inc(state.completed_rounds)
    } else {
        state.completed_rounds
    };
    &&& w.round_state matches Some(nr) && {
        &&& nr == TerminalRoundState {
            conversation_history: nr.conversation_history,
            next_clue_index: next,
            round_completed: spoke || round.round_completed,
            updated_at: now,
            ..round
        }
        &&& history_view(nr.conversation_history@) == after_turn(
            history_view(round.conversation_history@),
            request.player_input@,
            reply,
        )
        &&& w.game_states@.len() == 1
        &&& w.game_states@[0] == GameState {
            is_processing_terminal: false,
            active_terminal_request: if is_active(state.active_terminal_request, request.request_id) {
                None
            } else {
                state.active_terminal_request
            },
            terminal_status: TerminalStatus::Succeeded,
            terminal_strikes: round.strikes,
            terminal_max_strikes: round.max_strikes,
            completed_rounds: completed,
            revealed_clue_count: if next <= count {
                next
            } else {
                count
            },
            last_terminal_result: Some(spoke),
            last_terminal_message: w.game_states@[0].last_terminal_message,
            last_terminal_reply: w.game_states@[0].last_terminal_reply,
            last_terminal_actor: Some(request.player_identity),
            timer_remaining_ms: remaining_at(state, millis_of(now) as u64),
            updated_at: now,
            ..state
        }
        &&& has_text(w.game_states@[0].last_terminal_reply, reply)
        &&& has_text(
            w.game_states@[0].last_terminal_message,
            if spoke {
                victory_message(round.round_key@, completed)
            } else {
                turn_resolved_message(nr)
            },
        )
    }
    &&& w.request matches Some(r) && {
        &&& r == TerminalRequest {
            gemini_raw_response: Some(callback.response_body),
            terminal_reply: r.terminal_reply,
            spoke_kill_phrase: Some(spoke),
            strike_count_after: Some(round.strikes),
            phase: TerminalRequestPhase::Succeeded,
            validator_success: Some(spoke),
            validator_reason: r.validator_reason,
            updated_at: now,
            ..request
        }
        &&& has_text(r.terminal_reply, reply)
        &&& has_text(
            r.validator_reason,
            if spoke {
                "The terminal yielded the kill-phrase fragment."@
            } else {
                "Terminal responded without revealing the kill-phrase fragment."@
            },
        )
    }
    &&& w.room is None
    &&& w.armoriq_job is None
    &&& w.gemini_job is None
}

/// A request failed on the Gemini hop with the reasons given, reporting `message` on the game.
pub open spec fn persona_failed(
    w: TerminalWrites,
    request: TerminalRequest,
    state: GameState,
    raw: Option<String>,
    reason: Seq<char>,
    message: Seq<char>,
    now: Timestamp,
) -> bool {
    &&& writes_request_and_state(w)
    &&& w.request matches Some(r) && r == TerminalRequest {
        gemini_raw_response: raw,
        phase: TerminalRequestPhase::Failed,
        validator_success: Some(false),
        validator_reason: r.validator_reason,
        updated_at: now,
        ..request
    } && has_text(r.validator_reason, reason)
    &&& failed_game_state(
        state,
        w.game_states@[0],
        request.request_id,
        request.player_identity,
        TerminalStatus::Failed,
        false,
        message,
        now,
    )
}

/// How a Gemini answer is applied to `request`, its game state `state` (whose timer snapshot
/// is current) and its round, once the timer let the request go on.
pub open spec fn persona_applied(
    w: TerminalWrites,
    request: TerminalRequest,
    state: GameState,
    round: TerminalRoundState,
    callback: GeminiValidatorCallbackSchedule,
    decision: Result<GeminiTerminalTurnResponse, String>,
    now: Timestamp,
) -> bool {
    let id = request.request_id;
    let retries: u32 = match request.retries {
        Some(n) => n,
        None => 0,
    };
    let code = decimal(callback.status_code as nat);
    match callback.transport_error {
        Some(te) => persona_failed(w, request, state, Some(te), te@, "Gemini transport error: "@ + te@, now),
        None => if callback.status_code == 429 && retries < 3 {
            &&& w.request == Some(
                TerminalRequest {
                    retries: Some((retries + 1) as u32),
                    phase: TerminalRequestPhase::PendingGeminiValidator,
                    updated_at: now,
                    ..request
                },
            )
            &&& w.game_states@.len() == 0
            &&& w.room is None
            &&& w.round_state is None
            &&& w.armoriq_job is None
            &&& w.gemini_job == Some(
                GeminiValidatorRequestSchedule { scheduled_id: 0, scheduled_at: now, request_id: id },
            )
        } else if callback.status_code != 200 {
            persona_failed(
                w,
                request,
                state,
                Some(callback.response_body),
                "Gemini terminal returned non-200 status "@ + code,
                "Gemini returned HTTP "@ + code,
                now,
            )
        } else {
            match decision {
                Err(err) => if request.validator_reason matches Some(v) && starts_with_seq(
                    v@,
                    malformed_retry_marker(),
                ) {
                    persona_failed(
                        w,
                        request,
                        state,
                        Some(callback.response_body),
                        "Invalid Gemini terminal JSON: "@ + err@,
                        "Invalid Gemini terminal JSON: "@ + err@,
                        now,
                    )
                } else {
                    &&& w.request matches Some(r) && r == TerminalRequest {
                        gemini_raw_response: Some(callback.response_body),
                        phase: TerminalRequestPhase::PendingGeminiValidator,
                        validator_success: None,
                        validator_reason: r.validator_reason,
                        updated_at: now,
                        ..request
                    } && has_text(r.validator_reason, malformed_retry_marker() + ": "@ + err@)
                    &&& w.game_states@.len() == 1
                    &&& persona_pending_state(
                        state,
                        w.game_states@[0],
                        request,
                        now,
                        "Gemini returned malformed terminal JSON. Retrying once."@,
                    )
                    &&& w.room is None
                    &&& w.round_state is None
                    &&& w.armoriq_job is None
                    &&& w.gemini_job == Some(
                        GeminiValidatorRequestSchedule { scheduled_id: 0, scheduled_at: now, request_id: id },
                    )
                },
                Ok(d) => {
                    let reply = trim(d.terminal_reply@);
                    if reply.len() == 0 {
                        persona_failed(
                            w,
                            request,
                            state,
                            Some(callback.response_body),
                            "Gemini returned an empty terminal reply"@,
                            "Gemini returned an empty terminal reply"@,
                            now,
                        )
                    } else {
                        turn_taken(
                            w,
                            request,
                            state,
                            round,
                            callback,
                            reply,
                            d.spoke_kill_phrase || mentions_phrase(reply, request.hidden_answer_snapshot@),
                            now,
                        )
                    }
                },
            }
        },
    }
}

fn persona_failure(
    request: TerminalRequest,
    state: GameState,
    raw: Option<String>,
    reason: String,
    message: String,
    now: Timestamp,
) -> (w: TerminalWrites)
    ensures
        persona_failed(w, request, state, raw, reason@, message@, now),
{
    let mut request = request;
    let mut state = state;
    request.gemini_raw_response = raw;
    request.phase = TerminalRequestPhase::Failed;
    request.validator_success = Some(false);
    request.validator_reason = Some(reason);
    request.updated_at = now;
    let id = request.request_id;
    let actor = request.player_identity;
    fail_game_state(&mut state, id, actor, TerminalStatus::Failed, false, message, now);
    request_and_state(request, state)
}

/// Applies a Gemini answer to a request whose game the timer let go on (see
/// `persona_applied`): failures, one retry for an unreadable answer, and otherwise the persona's
/// turn, which clears the round when the kill phrase is said.
#[verifier::rlimit(60)]
pub fn apply_persona_turn(
    request: TerminalRequest,
    state: GameState,
    round: TerminalRoundState,
    callback: &GeminiValidatorCallbackSchedule,
    decision: Result<GeminiTerminalTurnResponse, String>,
    now: Timestamp,
) -> (w: TerminalWrites)
    ensures
        persona_applied(w, request, state, round, *callback, decision, now),
{
    let mut request = request;
    let mut state = state;
    let mut round = round;
    let id = request.request_id;
    let actor = request.player_identity;
    if let Some(te) = &callback.transport_error {
        return persona_failure(
            request,
            state,
            Some(te.clone()),
            te.clone(),
            cat("Gemini transport error: ", te.as_str()),
            now,
        );
    }
    let retries: u32 = match request.retries {
        Some(n) => n,
        None => 0,
    };
    if callback.status_code == 429 && retries < 3 {
        request.retries = Some(retries + 1);
        request.phase = TerminalRequestPhase::PendingGeminiValidator;
        request.updated_at = now;
        return TerminalWrites {
            request: Some(request),
            game_states: Vec::new(),
            room: None,
            round_state: None,
            armoriq_job: None,
            gemini_job: Some(queue_gemini_validator(id, now)),
        };
    }
    if callback.status_code != 200 {
        let code = u64_to_decimal(callback.status_code as u64);
        return persona_failure(
            request,
            state,
            Some(callback.response_body.clone()),
            cat("Gemini terminal returned non-200 status ", code.as_str()),
            cat("Gemini returned HTTP ", code.as_str()),
            now,
        );
    }
    let decision = match decision {
        Ok(d) => d,
        Err(err) => {
            let already_retried = match &request.validator_reason {
                Some(v) => str_starts_with(v.as_str(), "Retrying after malformed Gemini terminal JSON"),
                None => false,
            };
            if already_retried {
                return persona_failure(
                    request,
                    state,
                    Some(callback.response_body.clone()),
                    cat("Invalid Gemini terminal JSON: ", err.as_str()),
                    cat("Invalid Gemini terminal JSON: ", err.as_str()),
                    now,
                );
            }
            request.gemini_raw_response = Some(callback.response_body.clone());
            request.phase = TerminalRequestPhase::PendingGeminiValidator;
            request.validator_success = None;
            let mut reason = "Retrying after malformed Gemini terminal JSON".to_string();
            reason.append(": ");
            reason.append(err.as_str());
            request.validator_reason = Some(reason);
            request.updated_at = now;
            state.is_processing_terminal = true;
            state.active_terminal_request = Some(id);
            state.terminal_status = TerminalStatus::PendingGeminiValidator;
            state.last_terminal_result = None;
            state.last_terminal_message = Some(
                "Gemini returned malformed terminal JSON. Retrying once.".to_string(),
            );
            state.last_terminal_actor = Some(actor);
            state.updated_at = now;
            let mut game_states: Vec<GameState> = Vec::new();
            game_states.push(state);
            return TerminalWrites {
                request: Some(request),
                game_states,
                room: None,
                round_state: None,
                armoriq_job: None,
                gemini_job: Some(queue_gemini_validator(id, now)),
            };
        },
    };
    let reply = trim_str(decision.terminal_reply.as_str());
    if reply.as_str().is_empty() {
        return persona_failure(
            request,
            state,
            Some(callback.response_body.clone()),
            "Gemini returned an empty terminal reply".to_string(),
            "Gemini returned an empty terminal reply".to_string(),
            now,
        );
    }
    let spoke = decision.spoke_kill_phrase || reply_mentions_phrase(
        reply.as_str(),
        request.hidden_answer_snapshot.as_str(),
    );
    append_turn(&mut round.conversation_history, request.player_input.clone(), reply.clone());
    let count = count_clues(&round);
    if request.queued_clue_id_snapshot.is_some() && round.next_clue_index < count {
        round.next_clue_index = round.next_clue_index + 1;
    }
    round.updated_at = now;

    request.gemini_raw_response = Some(callback.response_body.clone());
    request.terminal_reply = Some(reply.clone());
    request.spoke_kill_phrase = Some(spoke);
    request.strike_count_after = Some(round.strikes);
    request.updated_at = now;

    state.is_processing_terminal = false;
    if same_request(state.active_terminal_request, id) {
        state.active_terminal_request = None;
    }
    state.last_terminal_actor = Some(actor);
    state.last_terminal_reply = Some(reply);
    state.revealed_clue_count = if round.next_clue_index <= count {
        round.next_clue_index
    } else {
        count
    };
    state.terminal_strikes = round.strikes;
    state.terminal_max_strikes = round.max_strikes;
    refresh_timer_snapshot(&mut state, timestamp_millis(now));
    state.updated_at = now;

    if spoke {
        let already_completed = round.round_completed;
        round.round_completed = true;
        request.phase = TerminalRequestPhase::Succeeded;
        request.validator_success = Some(true);
        request.validator_reason = Some("The terminal yielded the kill-phrase fragment.".to_string());
        if !already_completed {
            state.completed_rounds = if state.completed_rounds == u32::MAX {
                state.completed_rounds
            } else {
                state.completed_rounds + 1
            };
        }
        state.terminal_status = TerminalStatus::Succeeded;
        state.last_terminal_result = Some(true);
        state.last_terminal_message = Some(
            build_round_victory_message(round.round_key.as_str(), state.completed_rounds),
        );
    } else {
        request.phase = TerminalRequestPhase::Succeeded;
        request.validator_success = Some(false);
        request.validator_reason = Some(
            "Terminal responded without revealing the kill-phrase fragment.".to_string(),
        );
        state.terminal_status = TerminalStatus::Succeeded;
        state.last_terminal_result = Some(false);
        state.last_terminal_message = Some(build_turn_resolved_message(&round));
    }
    let mut game_states: Vec<GameState> = Vec::new();
    game_states.push(state);
    TerminalWrites {
        request: Some(request),
        game_states,
        room: None,
        round_state: Some(round),
        armoriq_job: None,
        gemini_job: None,
    }
}

pub open spec fn round_missing_message(game_id: u64) -> Seq<char> {
    "terminal round state for game "@ + decimal(game_id as nat) + " is missing during Gemini callback"@
}

/// Handles the Gemini terminal persona's answer for a request (only the scheduler may call it).
/// Its inputs are the callback row, the request row it names, that request's game state,
/// round and room, every game state (used when the request row is gone), the body read as the
/// turn object when it is one (`direct`), and the turn read from the response envelope's text.
pub fn _gemini_validator_callback(
    is_internal: bool,
    callback: GeminiValidatorCallbackSchedule,
    request: Option<TerminalRequest>,
    game_state: Option<GameState>,
    round_state: Option<TerminalRoundState>,
    room: Option<GameRoom>,
    all_game_states: Vec<GameState>,
    direct: Option<GeminiTerminalTurnResponse>,
    from_envelope: Result<GeminiTerminalTurnResponse, String>,
    now: Timestamp,
) -> (r: Result<TerminalWrites, String>)
    ensures
        !is_internal ==> (r matches Err(e) && e@
            == "_gemini_validator_callback may only be invoked by the scheduler"@),
        is_internal ==> (r matches Ok(w) && match request {
            None => {
                let waiting = waiting_on(all_game_states@, callback.request_id);
                &&& w.request is None && w.room is None && w.round_state is None
                &&& w.armoriq_job is None && w.gemini_job is None
                &&& w.game_states@.len() == waiting.len()
                &&& forall|i: int|
                    0 <= i < waiting.len() ==> cleared_state(
                        #[trigger] waiting[i],
                        w.game_states@[i],
                        callback.request_id,
                        "Gemini terminal callback arrived after the request row was removed"@,
                        now,
                    )
            },
            Some(req) => match game_state {
                None => writes_nothing(w),
                Some(st) => match round_state {
                    None => {
                        &&& w.request is None && w.room is None && w.round_state is None
                        &&& w.armoriq_job is None && w.gemini_job is None
                        &&& w.game_states@.len() == 1
                        &&& failed_game_state(
                            st,
                            w.game_states@[0],
                            req.request_id,
                            req.player_identity,
                            TerminalStatus::Failed,
                            false,
                            round_missing_message(req.game_id),
                            now,
                        )
                    },
                    Some(round) => after_timer_check(
                        w,
                        req,
                        st,
                        room,
                        now,
                        |q: TerminalRequest, s: GameState|
                            persona_applied(w, q, s, round, callback, turn_decision(direct, from_envelope), now),
                    ),
                },
            },
        }),
{
    if !is_internal {
        return Err("_gemini_validator_callback may only be invoked by the scheduler".to_string());
    }
    let mut request = match request {
        Some(r) => r,
        None => {
            let cleared = clear_states_for_unknown_request(
                all_game_states,
                callback.request_id,
                "Gemini terminal callback arrived after the request row was removed",
                now,
            );
            return Ok(
                TerminalWrites {
                    request: None,
                    game_states: cleared,
                    room: None,
                    round_state: None,
                    armoriq_job: None,
                    gemini_job: None,
                },
            );
        },
    };
    let mut state = match game_state {
        Some(s) => s,
        None => {
            return Ok(no_writes());
        },
    };
    let round = match round_state {
        Some(r) => r,
        None => {
            let id = u64_to_decimal(request.game_id);
            let mut message = "terminal round state for game ".to_string();
            message.append(id.as_str());
            message.append(" is missing during Gemini callback");
            fail_game_state(
                &mut state,
                request.request_id,
                request.player_identity,
                TerminalStatus::Failed,
                false,
                message,
                now,
            );
            let mut game_states: Vec<GameState> = Vec::new();
            game_states.push(state);
            return Ok(
                TerminalWrites {
                    request: None,
                    game_states,
                    room: None,
                    round_state: None,
                    armoriq_job: None,
                    gemini_job: None,
                },
            );
        },
    };
    let mut room = room;
    if enforce_timer_before_request_progress(&mut state, &mut request, &mut room, now).is_err() {
        let mut game_states: Vec<GameState> = Vec::new();
        game_states.push(state);
        return Ok(
            TerminalWrites {
                request: Some(request),
                game_states,
                room,
                round_state: None,
                armoriq_job: None,
                gemini_job: None,
            },
        );
    }
    let decision = match direct {
        Some(d) => Ok(d),
        None => from_envelope,
    };
    Ok(apply_persona_turn(request, state, round, &callback, decision, now))
}

} // verus!
