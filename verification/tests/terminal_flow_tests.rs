use the_entity::models::{ArmorIqResponse, GeminiTerminalTurnResponse, TerminalClueLine, TerminalRoundSetupPayload};
use the_entity::state::{
    ArmoriqCallbackSchedule, GameRoom, GameState, GeminiValidatorCallbackSchedule, Identity,
    ModuleOwner, RoomStatus, TerminalRequest, TerminalRequestPhase, TerminalRoundState,
    TerminalStatus, Timestamp,
};
use the_entity::terminal::{
    await_armoriq, clear_state_for_unknown_request, disqualify_game_due_to_timeout,
    enforce_timer_before_player_action, load_game_state, load_or_create_game_state,
    register_forbidden_word_penalty, repair_stale_lock_if_needed, set_hidden_answer,
    submit_terminal_for_game, submit_terminal_for_room, configure_terminal_round_for_room, ConfigureOutcome,
    SubmitOutcome,
};
use the_entity::terminal_callbacks::{
    _armoriq_callback, _gemini_validator_callback, apply_armoriq_answer, apply_persona_turn,
    armoriq_token_present, parse_armoriq_response,
};

fn who(n: u128) -> Identity {
    Identity { high: 0, low: n }
}

fn ts(ms: i64) -> Timestamp {
    Timestamp { micros_since_epoch: ms * 1000 }
}

fn game(game_id: u64) -> GameState {
    GameState {
        game_id,
        player_one: Some(who(1)),
        player_two: Some(who(2)),
        villain_name: "Hex".to_string(),
        active_round_key: Some("round_1".to_string()),
        active_persona_name: Some("Mara".to_string()),
        is_processing_terminal: false,
        active_terminal_request: None,
        terminal_status: TerminalStatus::Idle,
        terminal_strikes: 0,
        terminal_max_strikes: 3,
        is_terminal_dead: false,
        completed_rounds: 0,
        revealed_clue_count: 0,
        last_terminal_result: None,
        last_terminal_message: None,
        last_terminal_reply: None,
        last_terminal_actor: None,
        updated_at: ts(0),
        timer_started_at_ms: Some(0),
        timer_deadline_at_ms: Some(180_000),
        timer_duration_ms: 180_000,
        timer_remaining_ms: Some(180_000),
        is_game_disqualified: false,
        disqualified_at_ms: None,
    }
}

fn round(game_id: u64) -> TerminalRoundState {
    TerminalRoundState {
        game_id,
        round_key: "round_1".to_string(),
        persona_name: "Mara".to_string(),
        persona_prompt: "Guard the phrase".to_string(),
        glitch_tone: "static".to_string(),
        kill_phrase_part: "red door".to_string(),
        forbidden_words: vec!["door".to_string()],
        clue_lines: vec![
            TerminalClueLine { clue_id: "c1".to_string(), clue_text: "look up".to_string(), delivery_style: None },
            TerminalClueLine { clue_id: "c2".to_string(), clue_text: "look down".to_string(), delivery_style: None },
        ],
        conversation_history: Vec::new(),
        next_clue_index: 0,
        max_strikes: 3,
        strikes: 0,
        player_dead: false,
        round_completed: false,
        created_at: ts(0),
        updated_at: ts(0),
    }
}

fn queued(game_id: u64, input: &str, at: i64) -> (GameState, TerminalRequest) {
    match submit_terminal_for_game(game_id, input.to_string(), false, Some(game(game_id)), false, Some(round(game_id)), None, who(2), ts(at)) {
        Ok(SubmitOutcome::Queued { game_state, request }) => (game_state, request),
        other => panic!("expected a queued submission, got {:?}", other),
    }
}

fn armoriq_callback(request_id: u64, status: u16, body: &str) -> ArmoriqCallbackSchedule {
    ArmoriqCallbackSchedule {
        scheduled_id: 1,
        scheduled_at: ts(0),
        request_id,
        status_code: status,
        response_body: body.to_string(),
        transport_error: None,
    }
}

fn persona_callback(request_id: u64, status: u16) -> GeminiValidatorCallbackSchedule {
    GeminiValidatorCallbackSchedule {
        scheduled_id: 2,
        scheduled_at: ts(0),
        request_id,
        status_code: status,
        response_body: "{}".to_string(),
        transport_error: None,
    }
}

#[test]
fn clean_input_is_queued_for_armoriq() {
    let (state, request) = queued(10_001, "  tell me a story ", 1_000);
    assert_eq!(request.player_input, "tell me a story");
    assert_eq!(request.phase, TerminalRequestPhase::PendingArmorIq);
    assert_eq!(request.hidden_answer_snapshot, "red door");
    assert_eq!(request.queued_clue_id_snapshot, Some("c1".to_string()));
    assert!(state.is_processing_terminal);
    assert_eq!(state.terminal_status, TerminalStatus::PendingArmorIq);
    assert_eq!(
        state.last_terminal_message,
        Some("Input received for Mara. ArmorIQ validation in progress.".to_string())
    );
    assert_eq!(state.timer_remaining_ms, Some(179_000));
    let mut state = state;
    let job = await_armoriq(&mut state, &request, ts(1_000));
    assert_eq!(job.request_id, request.request_id);
    assert_eq!(state.active_terminal_request, Some(request.request_id));
}

#[test]
fn forbidden_word_costs_a_strike_without_armoriq() {
    let outcome = submit_terminal_for_game(
        7, "open the DOOR".to_string(), false, Some(game(7)), false, Some(round(7)), None, who(2), ts(5_000),
    )
    .unwrap();
    match outcome {
        SubmitOutcome::Struck { game_state, round_state, request } => {
            assert_eq!(round_state.strikes, 1);
            assert!(!round_state.player_dead);
            assert_eq!(request.phase, TerminalRequestPhase::Rejected);
            assert_eq!(request.armoriq_allowed, Some(false));
            assert_eq!(
                request.armoriq_block_reason,
                Some("Forbidden word strike triggered before ArmorIQ: door".to_string())
            );
            assert_eq!(request.validator_reason, Some("Forbidden word used: door".to_string()));
            assert_eq!(
                request.terminal_reply,
                Some("Mara// static :: forbidden lexeme [door] confirmed. strike 1/3. step carefully, operator.".to_string())
            );
            assert_eq!(game_state.terminal_status, TerminalStatus::Rejected);
            assert_eq!(
                game_state.last_terminal_message,
                Some("Strike 1/3. Forbidden word [door] triggered a penalty.".to_string())
            );
            assert_eq!(round_state.conversation_history.len(), 2);
            assert_eq!(round_state.conversation_history[0].text, "open the DOOR");
        }
        other => panic!("a forbidden word must cost a strike, got {:?}", other),
    }
}

#[test]
fn third_strike_kills_the_player() {
    let mut state = game(3);
    let mut r = round(3);
    for expected in 1..=3u32 {
        let request = register_forbidden_word_penalty(
            &mut state, &mut r, "door".to_string(), "door".to_string(), who(2), ts(1_000),
        );
        assert_eq!(r.strikes, expected);
        assert_eq!(request.strike_count_after, Some(expected));
    }
    assert!(r.player_dead);
    assert!(state.is_terminal_dead);
    assert_eq!(
        state.last_terminal_message,
        Some("Strike 3/3. The player died after using forbidden words.".to_string())
    );
    let refused = submit_terminal_for_game(3, "hello".to_string(), false, Some(state), false, Some(r), None, who(2), ts(2_000));
    assert_eq!(
        refused.err(),
        Some("the player has already died in this round after reaching three strikes".to_string())
    );
}

#[test]
fn submissions_are_refused_in_order() {
    let blank = submit_terminal_for_game(5, "   ".to_string(), false, Some(game(5)), false, Some(round(5)), None, who(2), ts(0));
    assert_eq!(blank.err(), Some("terminal input must not be empty".to_string()));
    let unknown = submit_terminal_for_game(5, "hi".to_string(), false, None, false, Some(round(5)), None, who(2), ts(0));
    assert_eq!(unknown.err(), Some("game state 5 does not exist".to_string()));
    let no_round = submit_terminal_for_game(5, "hi".to_string(), false, Some(game(5)), false, None, None, who(2), ts(0));
    assert_eq!(
        no_round.err(),
        Some("terminal round for game 5 is not configured yet; call configure_terminal_round_for_room first".to_string())
    );
    let mut busy = game(5);
    busy.is_processing_terminal = true;
    busy.active_terminal_request = Some(9);
    let locked = submit_terminal_for_game(5, "hi".to_string(), false, Some(busy.clone()), true, Some(round(5)), None, who(2), ts(0));
    assert_eq!(locked.err(), Some("terminal validation is already in progress".to_string()));
    assert!(submit_terminal_for_game(5, "hi".to_string(), false, Some(busy), false, Some(round(5)), None, who(2), ts(0)).is_ok());
    let mut done = round(5);
    done.round_completed = true;
    let cleared = submit_terminal_for_game(5, "hi".to_string(), false, Some(game(5)), false, Some(done), None, who(2), ts(0));
    assert_eq!(
        cleared.err(),
        Some("this round is already completed; configure the next round before sending more terminal input".to_string())
    );
}

#[test]
fn room_submission_checks_the_room_first() {
    let missing = submit_terminal_for_room(" abcdef ", None, "hi".to_string(), Some(game(5)), false, Some(round(5)), who(2), ts(0));
    assert_eq!(missing.err(), Some("room abcdef does not exist".to_string()));
    let room = GameRoom {
        room_id: "ABCDEF".to_string(),
        game_id: 5,
        host_identity: who(1),
        player_one: Some(who(1)),
        player_two: Some(who(2)),
        status: RoomStatus::Terminated,
        created_at: ts(0),
        updated_at: ts(0),
        terminated_at: Some(ts(0)),
        timer_started_at_ms: Some(0),
        timer_deadline_at_ms: Some(180_000),
        timer_duration_ms: 180_000,
    };
    let closed = submit_terminal_for_room("abcdef", Some(room), "hi".to_string(), Some(game(5)), false, Some(round(5)), who(2), ts(0));
    assert_eq!(closed.err(), Some("room ABCDEF has already been terminated".to_string()));
}

#[test]
fn timer_expiry_disqualifies_and_terminates_the_room() {
    let mut state = game(4);
    let mut room = Some(GameRoom {
        room_id: "AAAAAE".to_string(),
        game_id: 4,
        host_identity: who(1),
        player_one: Some(who(1)),
        player_two: Some(who(2)),
        status: RoomStatus::Ready,
        created_at: ts(0),
        updated_at: ts(0),
        terminated_at: None,
        timer_started_at_ms: Some(0),
        timer_deadline_at_ms: Some(180_000),
        timer_duration_ms: 180_000,
    });
    assert!(enforce_timer_before_player_action(&mut state, &mut room, ts(60_000)).is_ok());
    assert_eq!(state.timer_remaining_ms, Some(120_000));
    let err = enforce_timer_before_player_action(&mut state, &mut room, ts(181_000)).err();
    assert_eq!(err, Some("time limit reached; the players have been disqualified".to_string()));
    assert!(state.is_game_disqualified);
    assert_eq!(state.timer_remaining_ms, Some(0));
    assert_eq!(state.disqualified_at_ms, Some(181_000));
    assert_eq!(
        state.last_terminal_reply,
        Some("Mara// signal-collapse :: three minutes burned away. session disqualified.".to_string())
    );
    let closed = room.clone().unwrap();
    assert_eq!(closed.status, RoomStatus::Terminated);
    assert_eq!(closed.terminated_at, Some(ts(181_000)));
    let again = enforce_timer_before_player_action(&mut state, &mut room, ts(182_000)).err();
    assert_eq!(again, Some("the game has already been disqualified by the match timer".to_string()));
    let mut other = game(4);
    let mut none_room: Option<GameRoom> = None;
    disqualify_game_due_to_timeout(&mut other, &mut none_room, ts(190_000));
    assert!(other.is_game_disqualified);
    assert!(none_room.is_none());
}

#[test]
fn stale_locks_and_unknown_requests_are_cleared() {
    let mut state = game(2);
    state.is_processing_terminal = true;
    state.active_terminal_request = Some(41);
    let mut kept = state.clone();
    assert!(!repair_stale_lock_if_needed(&mut kept, true, ts(5)));
    assert!(kept.is_processing_terminal);
    assert!(repair_stale_lock_if_needed(&mut state, false, ts(5)));
    assert!(!state.is_processing_terminal);
    assert_eq!(state.active_terminal_request, None);
    assert_eq!(state.terminal_status, TerminalStatus::Idle);

    let mut waiting = game(2);
    waiting.is_processing_terminal = true;
    waiting.active_terminal_request = Some(41);
    assert!(clear_state_for_unknown_request(waiting.clone(), 40, "gone", ts(9)).is_none());
    let cleared = clear_state_for_unknown_request(waiting, 41, "gone", ts(9)).unwrap();
    assert!(!cleared.is_processing_terminal);
    assert_eq!(cleared.terminal_status, TerminalStatus::Failed);
    assert_eq!(cleared.last_terminal_message, Some("gone".to_string()));
}

#[test]
fn game_rows_are_loaded_or_created() {
    assert_eq!(load_game_state(12, None).err(), Some("game state 12 does not exist".to_string()));
    let created = load_or_create_game_state(None, who(3), ts(7));
    assert_eq!(created.game_id, 1);
    assert_eq!(created.player_one, Some(who(3)));
    assert_eq!(created.villain_name, "AI Villain");
    assert_eq!(created.terminal_max_strikes, 3);
    let found = load_or_create_game_state(Some(game(9)), who(3), ts(7));
    assert_eq!(found.game_id, 9);
}

#[test]
fn hidden_answer_is_owner_only_and_synced_into_the_round() {
    let owner = Some(ModuleOwner { owner_key: 1, owner_identity: who(1), created_at: ts(0) });
    assert_eq!(
        set_hidden_answer(&owner, who(2), "x".to_string(), None, ts(0)).err(),
        Some("only the module owner may call this reducer".to_string())
    );
    assert_eq!(
        set_hidden_answer(&None, who(1), "x".to_string(), None, ts(0)).err(),
        Some("module owner is not initialized; republish with clear to run init reducer".to_string())
    );
    assert_eq!(
        set_hidden_answer(&owner, who(1), "  ".to_string(), None, ts(0)).err(),
        Some("hidden_answer must not be empty".to_string())
    );
    let set = set_hidden_answer(&owner, who(1), " blue key ".to_string(), Some(round(1)), ts(3)).unwrap();
    assert_eq!(set.secret.game_id, 1);
    assert_eq!(set.secret.hidden_answer, "blue key");
    assert_eq!(set.round_state.unwrap().kill_phrase_part, "blue key");
}

#[test]
fn armoriq_answers_are_read_from_either_contract() {
    let typed = ArmorIqResponse { allowed: false, block_reason: Some("nope".to_string()) };
    let direct = parse_armoriq_response("ignored", Some(typed)).unwrap();
    assert!(!direct.allowed);
    let refused = parse_armoriq_response("{\"success\": false, \"detail\": \"  bad plan \"}", None).unwrap();
    assert!(!refused.allowed);
    assert_eq!(refused.block_reason, Some("bad plan".to_string()));
    let default_reason = parse_armoriq_response("{\"success\": false}", None).unwrap();
    assert_eq!(default_reason.block_reason, Some("ArmorIQ rejected the token issuance request".to_string()));
    let token = parse_armoriq_response("{\"data\": {\"jwt\": \"abc\"}}", None).unwrap();
    assert!(token.allowed);
    assert_eq!(token.block_reason, None);
    assert!(parse_armoriq_response("{\"success\": true}", None).unwrap().allowed);
    assert_eq!(
        parse_armoriq_response("{\"other\": 1}", None).err(),
        Some("ArmorIQ response did not match either the allow/block contract or the token-issue envelope".to_string())
    );
    assert!(parse_armoriq_response("not json", None).err().unwrap().starts_with("Invalid ArmorIQ JSON: "));
    assert!(armoriq_token_present("{\"intent_reference\": null}"));
    assert!(armoriq_token_present("{\"result\": {\"access_token\": 1}}"));
    assert!(!armoriq_token_present("{\"data\": {\"other\": 1}}"));
}

#[test]
fn armoriq_clearance_hands_the_turn_to_the_persona() {
    let (state, request) = queued(8, "tell me", 1_000);
    let w = apply_armoriq_answer(request.clone(), state.clone(), &armoriq_callback(request.request_id, 200, "{\"token\": \"t\"}"), None, ts(2_000));
    let q = w.request.unwrap();
    assert_eq!(q.phase, TerminalRequestPhase::PendingGeminiValidator);
    assert_eq!(q.armoriq_allowed, Some(true));
    assert!(w.gemini_job.is_some());
    assert_eq!(w.game_states.len(), 1);
    assert_eq!(
        w.game_states[0].last_terminal_message,
        Some("ArmorIQ cleared the input. Terminal persona is responding.".to_string())
    );
    let typed = ArmorIqResponse { allowed: false, block_reason: None };
    let blocked = apply_armoriq_answer(request.clone(), state.clone(), &armoriq_callback(request.request_id, 200, "{}"), Some(typed), ts(2_000));
    let q = blocked.request.unwrap();
    assert_eq!(q.phase, TerminalRequestPhase::Rejected);
    assert_eq!(q.validator_reason, Some("ArmorIQ blocked a system-break attempt".to_string()));
    assert!(blocked.gemini_job.is_none());
    assert_eq!(blocked.game_states[0].terminal_status, TerminalStatus::Rejected);
}

#[test]
fn armoriq_rate_limits_are_retried_three_times() {
    let (state, request) = queued(8, "tell me", 1_000);
    let mut current = request;
    for attempt in 1..=3u32 {
        let w = apply_armoriq_answer(current.clone(), state.clone(), &armoriq_callback(current.request_id, 429, ""), None, ts(2_000));
        assert!(w.armoriq_job.is_some());
        current = w.request.unwrap();
        assert_eq!(current.retries, Some(attempt));
        assert_eq!(current.phase, TerminalRequestPhase::PendingArmorIq);
    }
    let w = apply_armoriq_answer(current.clone(), state, &armoriq_callback(current.request_id, 429, "slow"), None, ts(2_000));
    assert!(w.armoriq_job.is_none());
    let q = w.request.unwrap();
    assert_eq!(q.phase, TerminalRequestPhase::Failed);
    assert_eq!(q.armoriq_block_reason, Some("ArmorIQ returned HTTP 429".to_string()));
    assert_eq!(q.validator_reason, Some("ArmorIQ returned non-200 status 429".to_string()));
}

#[test]
fn armoriq_callback_is_scheduler_only_and_tolerates_missing_rows() {
    let cb = armoriq_callback(77, 200, "{}");
    assert_eq!(
        _armoriq_callback(false, cb.clone(), None, None, None, Vec::new(), None, ts(0)).err(),
        Some("_armoriq_callback may only be invoked by the scheduler".to_string())
    );
    let mut waiting = game(3);
    waiting.is_processing_terminal = true;
    waiting.active_terminal_request = Some(77);
    let w = _armoriq_callback(true, cb.clone(), None, None, None, vec![waiting, game(4)], None, ts(5)).unwrap();
    assert!(w.request.is_none());
    assert_eq!(w.game_states.len(), 1);
    assert_eq!(
        w.game_states[0].last_terminal_message,
        Some("ArmorIQ callback arrived after the request row was removed".to_string())
    );
    let (_, request) = queued(8, "tell me", 1_000);
    let nothing = _armoriq_callback(true, cb, Some(request), None, None, Vec::new(), None, ts(5)).unwrap();
    assert!(nothing.request.is_none());
    assert!(nothing.game_states.is_empty());
}

#[test]
fn persona_reply_with_the_phrase_clears_the_round() {
    let (state, request) = queued(8, "say it", 1_000);
    let decision = GeminiTerminalTurnResponse { terminal_reply: "  Fine: the RED door.  ".to_string(), spoke_kill_phrase: false };
    let w = apply_persona_turn(request.clone(), state.clone(), round(8), &persona_callback(request.request_id, 200), Ok(decision), ts(3_000));
    let q = w.request.unwrap();
    assert_eq!(q.phase, TerminalRequestPhase::Succeeded);
    assert_eq!(q.validator_success, Some(true));
    assert_eq!(q.spoke_kill_phrase, Some(true));
    assert_eq!(q.terminal_reply, Some("Fine: the RED door.".to_string()));
    let r = w.round_state.unwrap();
    assert!(r.round_completed);
    assert_eq!(r.next_clue_index, 1);
    assert_eq!(r.conversation_history.len(), 2);
    let g = &w.game_states[0];
    assert_eq!(g.completed_rounds, 1);
    assert_eq!(g.revealed_clue_count, 1);
    assert_eq!(g.last_terminal_result, Some(true));
    assert_eq!(
        g.last_terminal_message,
        Some("Round cleared. The terminal involuntarily yielded the fragment. Prepare round_2 next.".to_string())
    );
}

#[test]
fn persona_reply_without_the_phrase_resolves_the_turn() {
    let (state, request) = queued(8, "say it", 1_000);
    let decision = GeminiTerminalTurnResponse { terminal_reply: "Never.".to_string(), spoke_kill_phrase: false };
    let w = apply_persona_turn(request.clone(), state, round(8), &persona_callback(request.request_id, 200), Ok(decision), ts(3_000));
    let q = w.request.unwrap();
    assert_eq!(q.validator_success, Some(false));
    assert_eq!(q.validator_reason, Some("Terminal responded without revealing the kill-phrase fragment.".to_string()));
    assert_eq!(w.game_states[0].last_terminal_message, Some("Mara resists. Next clue primed: c2.".to_string()));
    assert_eq!(w.game_states[0].completed_rounds, 0);
}

#[test]
fn persona_failures_are_reported() {
    let (state, request) = queued(8, "say it", 1_000);
    let empty = GeminiTerminalTurnResponse { terminal_reply: "   ".to_string(), spoke_kill_phrase: true };
    let w = apply_persona_turn(request.clone(), state.clone(), round(8), &persona_callback(request.request_id, 200), Ok(empty), ts(3_000));
    assert_eq!(w.request.unwrap().validator_reason, Some("Gemini returned an empty terminal reply".to_string()));
    let http = apply_persona_turn(request.clone(), state.clone(), round(8), &persona_callback(request.request_id, 500), Err("x".to_string()), ts(3_000));
    assert_eq!(http.request.unwrap().validator_reason, Some("Gemini terminal returned non-200 status 500".to_string()));
    assert_eq!(http.game_states[0].last_terminal_message, Some("Gemini returned HTTP 500".to_string()));
}

#[test]
fn malformed_persona_json_is_retried_once() {
    let (state, request) = queued(8, "say it", 1_000);
    let first = apply_persona_turn(request.clone(), state.clone(), round(8), &persona_callback(request.request_id, 200), Err("eof".to_string()), ts(3_000));
    assert!(first.gemini_job.is_some());
    let retried = first.request.unwrap();
    assert_eq!(retried.phase, TerminalRequestPhase::PendingGeminiValidator);
    assert_eq!(retried.validator_reason, Some("Retrying after malformed Gemini terminal JSON: eof".to_string()));
    assert_eq!(
        first.game_states[0].last_terminal_message,
        Some("Gemini returned malformed terminal JSON. Retrying once.".to_string())
    );
    let second = apply_persona_turn(retried.clone(), state, round(8), &persona_callback(retried.request_id, 200), Err("eof".to_string()), ts(4_000));
    assert!(second.gemini_job.is_none());
    let failed = second.request.unwrap();
    assert_eq!(failed.phase, TerminalRequestPhase::Failed);
    assert_eq!(failed.validator_reason, Some("Invalid Gemini terminal JSON: eof".to_string()));
}

#[test]
fn gemini_callback_is_scheduler_only() {
    let cb = persona_callback(5, 200);
    let r = _gemini_validator_callback(false, cb, None, None, None, None, Vec::new(), None, Err("e".to_string()), ts(0));
    assert_eq!(r.err(), Some("_gemini_validator_callback may only be invoked by the scheduler".to_string()));
}

fn room_of(game_id: u64, status: RoomStatus) -> GameRoom {
    GameRoom {
        room_id: "AAAAAE".to_string(),
        game_id,
        host_identity: who(1),
        player_one: Some(who(1)),
        player_two: Some(who(2)),
        status,
        created_at: ts(0),
        updated_at: ts(0),
        terminated_at: None,
        timer_started_at_ms: Some(0),
        timer_deadline_at_ms: Some(180_000),
        timer_duration_ms: 180_000,
    }
}

#[test]
fn input_after_expiry_records_the_disqualification() {
    let late = submit_terminal_for_game(
        5, "hi".to_string(), false, Some(game(5)), false, Some(round(5)), Some(room_of(5, RoomStatus::Ready)), who(2), ts(200_000),
    )
    .unwrap();
    match late {
        SubmitOutcome::Expired { game_state, room } => {
            assert!(game_state.is_game_disqualified);
            assert_eq!(game_state.timer_remaining_ms, Some(0));
            assert_eq!(game_state.disqualified_at_ms, Some(200_000));
            assert_eq!(game_state.last_terminal_message, Some("Time limit reached. Players were disqualified.".to_string()));
            let room = room.unwrap();
            assert_eq!(room.status, RoomStatus::Terminated);
            assert_eq!(room.terminated_at, Some(ts(200_000)));
        }
        other => panic!("expected the expiry to be recorded, got {:?}", other),
    }
    let mut disqualified = game(5);
    disqualified.is_game_disqualified = true;
    let again = submit_terminal_for_game(
        5, "hi".to_string(), false, Some(disqualified), false, Some(round(5)), None, who(2), ts(200_000),
    );
    assert_eq!(again.err(), Some("the game has already been disqualified by the match timer".to_string()));
    let by_room = submit_terminal_for_room(
        "AAAAAE", Some(room_of(5, RoomStatus::Ready)), "hi".to_string(), Some(game(5)), false, Some(round(5)), who(2), ts(190_000),
    )
    .unwrap();
    assert!(matches!(by_room, SubmitOutcome::Expired { room: Some(_), .. }));
}

#[test]
fn configuring_after_expiry_records_the_disqualification() {
    let setup = TerminalRoundSetupPayload {
        round_key: "round_2".to_string(),
        persona_name: "Mara".to_string(),
        persona_prompt: "Guard the phrase".to_string(),
        glitch_tone: "static".to_string(),
        kill_phrase_part: "red door".to_string(),
        forbidden_words: vec!["door".to_string()],
        clue_lines: vec![TerminalClueLine { clue_id: "c1".to_string(), clue_text: "look".to_string(), delivery_style: None }],
        max_strikes: 3,
    };
    let late = configure_terminal_round_for_room(
        "AAAAAE", Some(room_of(5, RoomStatus::Ready)), setup.clone(), None, Some(game(5)), who(1), ts(181_000),
    )
    .unwrap();
    match late {
        ConfigureOutcome::Expired { game_state, room } => {
            assert!(game_state.is_game_disqualified);
            assert_eq!(room.unwrap().status, RoomStatus::Terminated);
        }
        other => panic!("expected the expiry to be recorded, got {:?}", other),
    }
    let early = configure_terminal_round_for_room(
        "AAAAAE", Some(room_of(5, RoomStatus::Ready)), setup, None, Some(game(5)), who(1), ts(1_000),
    )
    .unwrap();
    match early {
        ConfigureOutcome::Configured(out) => {
            assert_eq!(out.round_state.round_key, "round_2");
            assert_eq!(out.secret.hidden_answer, "red door");
            assert_eq!(out.game_state.active_persona_name, Some("Mara".to_string()));
        }
        other => panic!("expected a configured round, got {:?}", other),
    }
}
