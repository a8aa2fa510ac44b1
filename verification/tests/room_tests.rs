use the_entity::room::{
    format_room_id, get_my_room_info, initiate_room, join_room, load_room, normalize_room_id,
    normalize_villain_name, ping_room_ticket, refresh_timer_snapshot, resolve_room_game_id,
    room_code_digit_char, terminate_room, terminate_room_for_testing, timestamp_millis,
};
use the_entity::state::{GameRoom, Identity, RoomStatus, RoomTicket, Timestamp};

fn who(n: u128) -> Identity {
    Identity { high: 0, low: n }
}

fn ts(ms: i64) -> Timestamp {
    Timestamp { micros_since_epoch: ms * 1000 }
}

fn new_room(seq: u64, host: Identity, at: i64) -> (GameRoom, the_entity::state::GameState) {
    let created = initiate_room(host, ts(at), seq, Some("  Doctor Null ".to_string()));
    (created.room, created.game_state)
}

#[test]
fn room_ids_are_six_base32_characters() {
    assert_eq!(format_room_id(0), "AAAAAA");
    assert_eq!(format_room_id(1), "AAAAAB");
    assert_eq!(format_room_id(31), "AAAAA9");
    assert_eq!(format_room_id(32), "AAAABA");
    assert_eq!(format_room_id(32u64.pow(6)), "AAAAAA");
    assert_eq!(room_code_digit_char(8), 'J');
    assert_eq!(room_code_digit_char(13), 'P');
    assert_eq!(room_code_digit_char(24), '2');
}

#[test]
fn room_id_and_villain_name_normalization() {
    assert_eq!(normalize_room_id("  abc12 "), Ok("ABC12".to_string()));
    assert_eq!(normalize_room_id("   "), Err("room_id must not be empty".to_string()));
    assert_eq!(normalize_villain_name(Some("  Hex ".to_string())), "Hex");
    assert_eq!(normalize_villain_name(Some("  ".to_string())), "AI Villain");
    assert_eq!(normalize_villain_name(None), "AI Villain");
}

#[test]
fn timestamps_are_read_in_milliseconds() {
    assert_eq!(timestamp_millis(Timestamp { micros_since_epoch: 1_234_567 }), 1_234);
    assert_eq!(timestamp_millis(Timestamp { micros_since_epoch: -5 }), 0);
}

#[test]
fn initiate_room_makes_host_player_one_and_waits() {
    let host = who(7);
    let created = initiate_room(host, ts(1_000), 5, None);
    assert_eq!(created.room.room_id, "AAAAAF");
    assert_eq!(created.room.game_id, 10_005);
    assert_eq!(created.room.status, RoomStatus::WaitingForPlayers);
    assert_eq!(created.room.player_one, Some(host));
    assert_eq!(created.room.player_two, None);
    assert_eq!(created.room.timer_started_at_ms, None);
    assert_eq!(created.room.timer_duration_ms, 180_000);
    assert_eq!(created.game_state.game_id, 10_005);
    assert_eq!(created.game_state.villain_name, "AI Villain");
    assert_eq!(created.game_secret.hidden_answer, "");
    assert_eq!(created.ticket.room_id, Some("AAAAAF".to_string()));
    assert_eq!(created.ticket.room_status, Some(RoomStatus::WaitingForPlayers));
}

#[test]
fn join_starts_the_three_minute_timer() {
    let host = who(1);
    let guest = who(2);
    let (room, state) = new_room(3, host, 1_000);
    assert_eq!(state.villain_name, "Doctor Null");
    let update = join_room("aaaaad", Some(room), Some(state), guest, ts(5_000)).unwrap();
    let joined = update.room.unwrap();
    assert_eq!(joined.status, RoomStatus::Ready);
    assert_eq!(joined.player_two, Some(guest));
    assert_eq!(joined.timer_started_at_ms, Some(5_000));
    assert_eq!(joined.timer_deadline_at_ms, Some(185_000));
    let game = update.game_state.unwrap();
    assert_eq!(game.player_two, Some(guest));
    assert_eq!(game.timer_deadline_at_ms, Some(185_000));
    assert_eq!(game.timer_remaining_ms, Some(180_000));
    assert_eq!(update.ticket.unwrap().room_status, Some(RoomStatus::Ready));
}

#[test]
fn join_refuses_missing_full_and_terminated_rooms() {
    let host = who(1);
    let (room, state) = new_room(3, host, 1_000);
    assert_eq!(
        join_room("ZZZZZZ", None, None, who(2), ts(2_000)).err(),
        Some("room ZZZZZZ does not exist".to_string())
    );
    let full = join_room("AAAAAD", Some(room.clone()), Some(state.clone()), who(2), ts(2_000)).unwrap();
    let full_room = full.room.unwrap();
    assert_eq!(
        join_room("AAAAAD", Some(full_room.clone()), full.game_state.clone(), who(3), ts(3_000)).err(),
        Some("room AAAAAD is already full".to_string())
    );
    let again = join_room("AAAAAD", Some(full_room), full.game_state, who(2), ts(3_000)).unwrap();
    assert!(again.room.is_none());
    assert!(again.ticket.is_some());
    let closed = terminate_room("AAAAAD", Some(room), Some(state), host, ts(4_000)).unwrap();
    assert_eq!(
        join_room("AAAAAD", closed.room, closed.game_state, who(2), ts(5_000)).err(),
        Some("room AAAAAD has already been terminated".to_string())
    );
}

#[test]
fn only_the_host_terminates_a_room() {
    let host = who(1);
    let (room, state) = new_room(4, host, 1_000);
    assert_eq!(
        terminate_room("AAAAAE", Some(room.clone()), Some(state.clone()), who(9), ts(2_000)).err(),
        Some("only the room host may terminate the room".to_string())
    );
    let update = terminate_room("AAAAAE", Some(room.clone()), Some(state.clone()), host, ts(2_000)).unwrap();
    let closed = update.room.unwrap();
    assert_eq!(closed.status, RoomStatus::Terminated);
    assert_eq!(closed.terminated_at, Some(ts(2_000)));
    let game = update.game_state.unwrap();
    assert!(!game.is_processing_terminal);
    assert_eq!(game.last_terminal_message, Some("Room terminated by host".to_string()));
    let testing = terminate_room_for_testing("AAAAAE", Some(room), Some(state), who(9), ts(2_000)).unwrap();
    assert_eq!(
        testing.game_state.unwrap().last_terminal_message,
        Some("Room terminated in testing mode".to_string())
    );
}

#[test]
fn room_lookups_and_tickets() {
    let host = who(1);
    let (room, _) = new_room(2, host, 1_000);
    assert_eq!(load_room("AAAAAC", None).err(), Some("room AAAAAC does not exist".to_string()));
    assert_eq!(resolve_room_game_id("AAAAAC", Some(room.clone())), Ok(10_002));
    let mut closed = room.clone();
    closed.status = RoomStatus::Terminated;
    assert_eq!(
        resolve_room_game_id("AAAAAC", Some(closed)).err(),
        Some("room AAAAAC has already been terminated".to_string())
    );
    let ticket = RoomTicket {
        owner_identity: host,
        room_id: Some("AAAAAC".to_string()),
        room_status: Some(RoomStatus::Ready),
        updated_at: ts(1),
    };
    let info = get_my_room_info(Some(ticket.clone()));
    assert_eq!(info.room_id, Some("AAAAAC".to_string()));
    assert_eq!(info.room_status, Some(RoomStatus::Ready));
    assert!(get_my_room_info(None).room_id.is_none());
    assert_eq!(ping_room_ticket(Some(ticket), ts(99)).unwrap().updated_at, ts(99));
    assert!(ping_room_ticket(None, ts(99)).is_none());
}

#[test]
fn remaining_time_counts_down_and_stops_at_zero() {
    let (room, state) = new_room(1, who(1), 0);
    let update = join_room("AAAAAB", Some(room), Some(state), who(2), ts(10_000)).unwrap();
    let mut game = update.game_state.unwrap();
    refresh_timer_snapshot(&mut game, 70_000);
    assert_eq!(game.timer_remaining_ms, Some(120_000));
    refresh_timer_snapshot(&mut game, 100_000);
    assert_eq!(game.timer_remaining_ms, Some(90_000));
    refresh_timer_snapshot(&mut game, 500_000);
    assert_eq!(game.timer_remaining_ms, Some(0));
    game.is_game_disqualified = true;
    refresh_timer_snapshot(&mut game, 20_000);
    assert_eq!(game.timer_remaining_ms, Some(0));
}

#[test]
fn distinct_sequence_numbers_give_distinct_room_ids() {
    let mut seen = std::collections::HashSet::new();
    for seq in (0..3000u64).chain([32u64.pow(6) - 1, 32u64.pow(5) + 17]) {
        assert!(seen.insert(format_room_id(seq)), "duplicate room id for {seq}");
    }
}
