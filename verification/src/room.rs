//! Room lifecycle: creating a room, joining it as Player 2 (which starts the match timer),
//! terminating it, and the per-player room tickets.
use vstd::prelude::*;

use crate::state::{
    has_text, GameRoom, GameSecret, GameState, Identity, RoomStatus, RoomTicket, TerminalStatus, Timestamp,
    GAME_TIME_LIMIT_MS, ROOM_GAME_ID_OFFSET,
};
use crate::text::{cat3, decimal, is_blank, str_to_uppercase, trim, trim_str, unicode_uppercase};

verus! {

broadcast use vstd::string::group_string_axioms;

/// Result object of `get_my_room_info`.
#[derive(Debug, Clone)]
pub struct MyRoomInfo {
    pub room_id: Option<String>,
    pub room_status: Option<RoomStatus>,
}

// ---------------------------------------------------------------------------------------------
// Identifiers and names
// ---------------------------------------------------------------------------------------------

/// A room id as looked up: trimmed, then upper-cased.
pub open spec fn normalized_room_id(room_id: Seq<char>) -> Seq<char> {
    unicode_uppercase(trim(room_id))
}

/// Trims and upper-cases a room id; a blank id is refused.
pub fn normalize_room_id(room_id: &str) -> (r: Result<String, String>)
    ensures
        r is Ok <==> normalized_room_id(room_id@).len() > 0,
        r matches Ok(id) ==> id@ == normalized_room_id(room_id@),
        r matches Err(e) ==> e@ == "room_id must not be empty"@,
{
    let trimmed = trim_str(room_id);
    let normalized = str_to_uppercase(trimmed.as_str());
    if normalized.as_str().is_empty() {
        return Err("room_id must not be empty".to_string());
    }
    Ok(normalized)
}

/// The villain name a room gets: the trimmed given name, or "AI Villain" when none is given
/// or it is blank.
pub open spec fn villain_name_for(name: Option<Seq<char>>) -> Seq<char> {
    match name {
        Some(n) => if trim(n).len() > 0 {
            trim(n)
        } else {
            "AI Villain"@
        },
        None => "AI Villain"@,
    }
}

pub fn normalize_villain_name(villain_name: Option<String>) -> (r: String)
    ensures
        r@ == villain_name_for(match villain_name {
            Some(n) => Some(n@),
            None => None,
        }),
{
    match villain_name {
        Some(n) => {
            let t = trim_str(n.as_str());
            if is_blank(t.as_str()) || t.as_str().is_empty() {
                proof {
                    crate::text::lemma_trim_idempotent(n@);
                }
                "AI Villain".to_string()
            } else {
                t
            }
        },
        None => "AI Villain".to_string(),
    }
}

/// The character for a base-32 digit of a room code: letters without `I` and `O`, then the
/// digits `2` to `9`.
pub open spec fn room_code_char(d: nat) -> char {
    if d < 8 {
        ((65 + d) as u32) as char
    } else if d < 13 {
        ((74 + (d - 8)) as u32) as char
    } else if d < 24 {
        ((80 + (d - 13)) as u32) as char
    } else {
        ((50 + (d - 24)) as u32) as char
    }
}

/// The `k`-th base-32 digit of `n`, counting from the least significant one.
pub open spec fn base32_digit(n: nat, k: nat) -> nat
    decreases k,
{
    if k == 0 {
        n % 32
    } else {
        base32_digit(n / 32, (k - 1) as nat)
    }
}

/// The six-character code of a room sequence number: its six lowest base-32 digits, most
/// significant first.
pub open spec fn room_code(seq: nat) -> Seq<char> {
    Seq::new(6, |i: int| room_code_char(base32_digit(seq, (5 - i) as nat)))
}

pub fn room_code_digit_char(d: u64) -> (c: char)
    requires
        d < 32,
    ensures
        c == room_code_char(d as nat),
{
    let b: u8 = if d < 8 {
        65 + (d as u8)
    } else if d < 13 {
        74 + ((d - 8) as u8)
    } else if d < 24 {
        80 + ((d - 13) as u8)
    } else {
        50 + ((d - 24) as u8)
    };
    b as char
}

/// Renders a room sequence number as a six-character room id.
pub fn format_room_id(room_seq: u64) -> (r: String)
    ensures
        r@ == room_code(room_seq as nat),
{
    let mut code: Vec<char> = Vec::new();
    let mut k: usize = 0;
    while k < 6
        invariant
            k <= 6,
            code@.len() == k,
            forall|i: int| 0 <= i < k ==> code@[i] == room_code_char(base32_digit(room_seq as nat, (5 - i) as nat)),
        decreases 6 - k,
    {
        let mut value = room_seq;
        let mut j: usize = 0;
        while j < 5 - k
            invariant
                k < 6,
                j <= 5 - k,
                base32_digit(value as nat, (5 - k - j) as nat) == base32_digit(room_seq as nat, (5 - k) as nat),
            decreases 5 - k - j,
        {
            value = value / 32;
            j = j + 1;
        }
        let c = room_code_digit_char(value % 32);
        code.push(c);
        k = k + 1;
    }
    let r = crate::text::string_from_chars(&code);
    assert(r@ =~= room_code(room_seq as nat));
    r
}

proof fn lemma_room_code_char_injective(a: nat, b: nat)
    requires
        a < 32,
        b < 32,
        room_code_char(a) == room_code_char(b),
    ensures
        a == b,
{
    assert(room_code_char(a) as u32 == room_code_char(b) as u32);
}

proof fn lemma_base32_digit_value(n: nat, k: nat)
    ensures
        base32_digit(n, k) < 32,
    decreases k,
{
    if k > 0 {
        lemma_base32_digit_value(n / 32, (k - 1) as nat);
    }
}

pub open spec fn pow32(m: nat) -> nat
    decreases m,
{
    if m == 0 {
        1
    } else {
        32 * pow32((m - 1) as nat)
    }
}

/// Two numbers below `32^m` with the same `m` lowest base-32 digits are equal.
proof fn lemma_base32_digits_determine(a: nat, b: nat, m: nat)
    requires
        a < pow32(m),
        b < pow32(m),
        forall|k: nat| k < m ==> base32_digit(a, k) == base32_digit(b, k),
    ensures
        a == b,
    decreases m,
{
    if m > 0 {
        let p = pow32((m - 1) as nat);
        assert(base32_digit(a, 0) == base32_digit(b, 0));
        let a1 = a / 32;
        let b1 = b / 32;
        assert forall|k: nat| k < (m - 1) as nat implies #[trigger] base32_digit(a1, k) == base32_digit(b1, k) by {
            assert(base32_digit(a, k + 1) == base32_digit(a / 32, k));
            assert(base32_digit(b, k + 1) == base32_digit(b / 32, k));
        }
        assert(a / 32 < p) by (nonlinear_arith)
            requires a < 32 * p;
        assert(b / 32 < p) by (nonlinear_arith)
            requires b < 32 * p;
        lemma_base32_digits_determine(a / 32, b / 32, (m - 1) as nat);
        assert(a == 32 * (a / 32) + a % 32) by (nonlinear_arith);
        assert(b == 32 * (b / 32) + b % 32) by (nonlinear_arith);
    }
}

/// Distinct room sequence numbers below `32^6` get distinct room ids, so every room minted
/// from the sequence allocator has a unique id.
pub proof fn law_room_ids_unique(a: u64, b: u64)
    requires
        a < 1073741824,
        b < 1073741824,
        a != b,
    ensures
        room_code(a as nat) != room_code(b as nat),
{
    if room_code(a as nat) == room_code(b as nat) {
        assert forall|k: nat| k < 6 implies base32_digit(a as nat, k) == base32_digit(b as nat, k) by {
            let i = 5 - k;
            assert(room_code(a as nat)[i] == room_code(b as nat)[i]);
            lemma_base32_digit_value(a as nat, k);
            lemma_base32_digit_value(b as nat, k);
            lemma_room_code_char_injective(base32_digit(a as nat, k), base32_digit(b as nat, k));
        }
        assert(pow32(0) == 1);
        assert(pow32(1) == 32);
        assert(pow32(2) == 1024);
        assert(pow32(3) == 32768);
        assert(pow32(4) == 1048576);
        assert(pow32(5) == 33554432);
        assert(pow32(6) == 1073741824);
        lemma_base32_digits_determine(a as nat, b as nat, 6);
    }
}

// ---------------------------------------------------------------------------------------------
// Time
// ---------------------------------------------------------------------------------------------

/// Milliseconds since the epoch for a timestamp; times before the epoch count as zero.
pub open spec fn millis_of(ts: Timestamp) -> nat {
    if ts.micros_since_epoch < 0 {
        0
    } else {
        (ts.micros_since_epoch / 1000) as nat
    }
}

pub fn timestamp_millis(ts: Timestamp) -> (r: u64)
    ensures
        r == millis_of(ts),
        r <= 9223372036854775807int / 1000,
{
    if ts.micros_since_epoch < 0 {
        0
    } else {
        (ts.micros_since_epoch / 1000) as u64
    }
}

/// The remaining time a game state shows at `now_ms`: zero once disqualified, otherwise the
/// time left until the deadline (never negative), and none before the timer starts.
pub open spec fn remaining_at(state: GameState, now_ms: u64) -> Option<u64> {
    if state.is_game_disqualified {
        Some(0)
    } else {
        match state.timer_deadline_at_ms {
            Some(d) => Some(if d >= now_ms {
                (d - now_ms) as u64
            } else {
                0
            }),
            None => None,
        }
    }
}

/// Recomputes `timer_remaining_ms` for the time `now_ms`; nothing else changes.
pub fn refresh_timer_snapshot(state: &mut GameState, now_ms: u64)
    ensures
        *final(state) == (GameState { timer_remaining_ms: remaining_at(*old(state), now_ms), ..*old(state) }),
{
    let remaining = if state.is_game_disqualified {
        Some(0)
    } else {
        match state.timer_deadline_at_ms {
            Some(d) => Some(if d >= now_ms { d - now_ms } else { 0 }),
            None => None,
        }
    };
    state.timer_remaining_ms = remaining;
}

// ---------------------------------------------------------------------------------------------
// Tickets and lookups
// ---------------------------------------------------------------------------------------------

/// The ticket row written for `owner` after a room action.
pub fn upsert_room_ticket(
    owner_identity: Identity,
    room_id: Option<String>,
    room_status: Option<RoomStatus>,
    now: Timestamp,
) -> (t: RoomTicket)
    ensures
        t == (RoomTicket { owner_identity, room_id, room_status, updated_at: now }),
{
    RoomTicket { owner_identity, room_id, room_status, updated_at: now }
}

pub open spec fn room_missing_message(room_id: Seq<char>) -> Seq<char> {
    "room "@ + room_id + " does not exist"@
}

pub open spec fn room_terminated_message(room_id: Seq<char>) -> Seq<char> {
    "room "@ + room_id + " has already been terminated"@
}

pub open spec fn room_full_message(room_id: Seq<char>) -> Seq<char> {
    "room "@ + room_id + " is already full"@
}

pub open spec fn game_state_missing_message(game_id: u64) -> Seq<char> {
    "game state "@ + decimal(game_id as nat) + " is missing for the room"@
}

/// The room found under `room_id`, or the error for an unknown room.
pub fn load_room(room_id: &str, found: Option<GameRoom>) -> (r: Result<GameRoom, String>)
    ensures
        found matches Some(room) ==> r == Ok::<GameRoom, String>(room),
        found is None ==> (r matches Err(e) && e@ == room_missing_message(room_id@)),
{
    match found {
        Some(room) => Ok(room),
        None => Err(cat3("room ", room_id, " does not exist")),
    }
}

/// The game id behind a room, for rooms that still run.
pub fn resolve_room_game_id(room_id: &str, found: Option<GameRoom>) -> (r: Result<u64, String>)
    ensures
        found is None ==> (r matches Err(e) && e@ == room_missing_message(room_id@)),
        found matches Some(room) ==> (room.status == RoomStatus::Terminated ==> (r matches Err(e)
            && e@ == room_terminated_message(room.room_id@))),
        found matches Some(room) ==> (room.status != RoomStatus::Terminated ==> r == Ok::<
            u64,
            String,
        >(room.game_id)),
{
    let room = load_room(room_id, found)?;
    if room.status == RoomStatus::Terminated {
        return Err(cat3("room ", room.room_id.as_str(), " has already been terminated"));
    }
    Ok(room.game_id)
}

fn load_game_state(game_id: u64, found: Option<GameState>) -> (r: Result<GameState, String>)
    ensures
        found matches Some(gs) ==> r == Ok::<GameState, String>(gs),
        found is None ==> (r matches Err(e) && e@ == game_state_missing_message(game_id)),
{
    match found {
        Some(gs) => Ok(gs),
        None => {
            let id = crate::text::u64_to_decimal(game_id);
            Err(cat3("game state ", id.as_str(), " is missing for the room"))
        },
    }
}

/// The caller's room mapping, read from their ticket.
pub fn get_my_room_info(ticket: Option<RoomTicket>) -> (r: MyRoomInfo)
    ensures
        ticket matches Some(t) ==> r == (MyRoomInfo { room_id: t.room_id, room_status: t.room_status }),
        ticket is None ==> r == (MyRoomInfo { room_id: None, room_status: None }),
{
    match ticket {
        Some(t) => MyRoomInfo { room_id: t.room_id, room_status: t.room_status },
        None => MyRoomInfo { room_id: None, room_status: None },
    }
}

/// Refreshes the caller's ticket timestamp; callers without a ticket get none.
pub fn ping_room_ticket(ticket: Option<RoomTicket>, now: Timestamp) -> (r: Option<RoomTicket>)
    ensures
        ticket matches Some(t) ==> r == Some(RoomTicket { updated_at: now, ..t }),
        ticket is None ==> r is None,
{
    match ticket {
        Some(t) => Some(RoomTicket { updated_at: now, ..t }),
        None => None,
    }
}

// ---------------------------------------------------------------------------------------------
// Creating a room
// ---------------------------------------------------------------------------------------------

/// The rows written when a room is created.
#[derive(Debug, Clone)]
pub struct NewRoom {
    pub game_state: GameState,
    pub game_secret: GameSecret,
    pub room: GameRoom,
    pub ticket: RoomTicket,
}

/// The game id of the room minted from a sequence number.
pub open spec fn room_game_id(room_seq: u64) -> u64 {
    (ROOM_GAME_ID_OFFSET + room_seq) as u64
}

/// Creates a room for the sequence number the allocator handed out. The caller becomes host
/// and Player 1; the room waits for Player 2 with its timer not started.
pub fn initiate_room(
    sender: Identity,
    now: Timestamp,
    room_seq: u64,
    villain_name: Option<String>,
) -> (r: NewRoom)
    requires
        room_seq <= u64::MAX - ROOM_GAME_ID_OFFSET,
    ensures
        r.room.room_id@ == room_code(room_seq as nat),
        r.room.game_id == room_game_id(room_seq),
        r.room.host_identity == sender,
        r.room.player_one == Some(sender),
        r.room.player_two is None,
        r.room.status == RoomStatus::WaitingForPlayers,
        r.room.created_at == now && r.room.updated_at == now,
        r.room.terminated_at is None,
        r.room.timer_started_at_ms is None && r.room.timer_deadline_at_ms is None,
        r.room.timer_duration_ms == GAME_TIME_LIMIT_MS,
        r.game_state.game_id == room_game_id(room_seq),
        r.game_state.player_one == Some(sender),
        r.game_state.player_two is None,
        r.game_state.villain_name@ == villain_name_for(match villain_name {
            Some(n) => Some(n@),
            None => None,
        }),
        r.game_state.active_round_key is None,
        r.game_state.active_persona_name is None,
        !r.game_state.is_processing_terminal,
        r.game_state.active_terminal_request is None,
        r.game_state.terminal_status == TerminalStatus::Idle,
        r.game_state.terminal_strikes == 0,
        r.game_state.terminal_max_strikes == 3,
        !r.game_state.is_terminal_dead,
        r.game_state.completed_rounds == 0,
        r.game_state.revealed_clue_count == 0,
        r.game_state.last_terminal_result is None,
        r.game_state.last_terminal_message matches Some(m) && m@
            == "Room initialized and waiting for Player 2"@,
        r.game_state.last_terminal_reply is None,
        r.game_state.last_terminal_actor == Some(sender),
        r.game_state.updated_at == now,
        r.game_state.timer_started_at_ms is None,
        r.game_state.timer_deadline_at_ms is None,
        r.game_state.timer_duration_ms == GAME_TIME_LIMIT_MS,
        r.game_state.timer_remaining_ms is None,
        !r.game_state.is_game_disqualified,
        r.game_state.disqualified_at_ms is None,
        r.game_secret.game_id == room_game_id(room_seq),
        r.game_secret.hidden_answer@.len() == 0,
        r.game_secret.updated_at == now,
        r.ticket.owner_identity == sender,
        r.ticket.room_id matches Some(id) && id@ == room_code(room_seq as nat),
        r.ticket.room_status == Some(RoomStatus::WaitingForPlayers),
        r.ticket.updated_at == now,
{
    let room_id = format_room_id(room_seq);
    let game_id = ROOM_GAME_ID_OFFSET + room_seq;
    let villain = normalize_villain_name(villain_name);
    let game_state = GameState {
        game_id,
        player_one: Some(sender),
        player_two: None,
        villain_name: villain,
        active_round_key: None,
        active_persona_name: None,
        is_processing_terminal: false,
        active_terminal_request: None,
        terminal_status: TerminalStatus::Idle,
        terminal_strikes: 0,
        terminal_max_strikes: 3,
        is_terminal_dead: false,
        completed_rounds: 0,
        revealed_clue_count: 0,
        last_terminal_result: None,
        last_terminal_message: Some("Room initialized and waiting for Player 2".to_string()),
        last_terminal_reply: None,
        last_terminal_actor: Some(sender),
        updated_at: now,
        timer_started_at_ms: None,
        timer_deadline_at_ms: None,
        timer_duration_ms: GAME_TIME_LIMIT_MS,
        timer_remaining_ms: None,
        is_game_disqualified: false,
        disqualified_at_ms: None,
    };
    let game_secret = GameSecret { game_id, hidden_answer: String::new(), updated_at: now };
    let ticket_room_id = room_id.clone();
    let room = GameRoom {
        room_id,
        game_id,
        host_identity: sender,
        player_one: Some(sender),
        player_two: None,
        status: RoomStatus::WaitingForPlayers,
        created_at: now,
        updated_at: now,
        terminated_at: None,
        timer_started_at_ms: None,
        timer_deadline_at_ms: None,
        timer_duration_ms: GAME_TIME_LIMIT_MS,
    };
    let ticket = upsert_room_ticket(
        sender,
        Some(ticket_room_id),
        Some(RoomStatus::WaitingForPlayers),
        now,
    );
    NewRoom { game_state, game_secret, room, ticket }
}

// ---------------------------------------------------------------------------------------------
// Joining and terminating
// ---------------------------------------------------------------------------------------------

/// The rows a room action writes: `None` leaves a row as it is.
#[derive(Debug, Clone)]
pub struct RoomUpdate {
    pub room: Option<GameRoom>,
    pub game_state: Option<GameState>,
    pub ticket: Option<RoomTicket>,
}

/// The room after Player 2 joined at `now`: ready, with the match timer started.
pub open spec fn joined_room(room: GameRoom, sender: Identity, now: Timestamp) -> GameRoom {
    GameRoom {
        player_two: Some(sender),
        status: RoomStatus::Ready,
        updated_at: now,
        timer_started_at_ms: Some(millis_of(now) as u64),
        timer_deadline_at_ms: Some((millis_of(now) + GAME_TIME_LIMIT_MS) as u64),
        timer_duration_ms: GAME_TIME_LIMIT_MS,
        ..room
    }
}

/// Joins a room as Player 2, which starts the three-minute match timer. Callers that are
/// already in the room get their ticket refreshed and nothing else changes.
pub fn join_room(
    room_id: &str,
    found_room: Option<GameRoom>,
    found_state: Option<GameState>,
    sender: Identity,
    now: Timestamp,
) -> (r: Result<RoomUpdate, String>)
    ensures
        found_room is None ==> (r matches Err(e) && e@ == room_missing_message(room_id@)),
        found_room matches Some(room) ==> {
            &&& room.status == RoomStatus::Terminated ==> (r matches Err(e) && e@
                == room_terminated_message(room.room_id@))
            &&& room.status != RoomStatus::Terminated && (room.player_one == Some(sender)
                || room.player_two == Some(sender)) ==> r == Ok::<RoomUpdate, String>(
                RoomUpdate {
                    room: None,
                    game_state: None,
                    ticket: Some(
                        RoomTicket {
                            owner_identity: sender,
                            room_id: Some(room.room_id),
                            room_status: Some(room.status),
                            updated_at: now,
                        },
                    ),
                },
            )
            &&& room.status != RoomStatus::Terminated && room.player_one != Some(sender)
                && room.player_two != Some(sender) && room.player_two is Some ==> (r matches Err(e)
                && e@ == room_full_message(room.room_id@))
            &&& room.status != RoomStatus::Terminated && room.player_one != Some(sender)
                && room.player_two is None && found_state is None ==> (r matches Err(e) && e@
                == game_state_missing_message(room.game_id))
            &&& room.status != RoomStatus::Terminated && room.player_one != Some(sender)
                && room.player_two is None && found_state is Some ==> {
                let gs = found_state->0;
                let started = GameState {
                    timer_started_at_ms: Some(millis_of(now) as u64),
                    timer_deadline_at_ms: Some((millis_of(now) + GAME_TIME_LIMIT_MS) as u64),
                    timer_duration_ms: GAME_TIME_LIMIT_MS,
                    ..gs
                };
                &&& r matches Ok(u)
                &&& u.room == Some(joined_room(room, sender, now))
                &&& u.game_state matches Some(g) && g == GameState {
                    player_one: room.player_one,
                    player_two: Some(sender),
                    last_terminal_message: g.last_terminal_message,
                    last_terminal_actor: Some(sender),
                    updated_at: now,
                    timer_remaining_ms: remaining_at(started, millis_of(now) as u64),
                    ..started
                } && has_text(g.last_terminal_message, "Player 2 joined the room"@)
                &&& u.ticket matches Some(t) && t == RoomTicket {
                    owner_identity: sender,
                    room_id: t.room_id,
                    room_status: Some(RoomStatus::Ready),
                    updated_at: now,
                } && has_text(t.room_id, room.room_id@)
            }
        },
{
    let room = load_room(room_id, found_room)?;
    if room.status == RoomStatus::Terminated {
        return Err(cat3("room ", room.room_id.as_str(), " has already been terminated"));
    }
    if crate::state::same_identity(room.player_one, sender) || crate::state::same_identity(
        room.player_two,
        sender,
    ) {
        let status = room.status;
        let ticket = upsert_room_ticket(sender, Some(room.room_id), Some(status), now);
        return Ok(RoomUpdate { room: None, game_state: None, ticket: Some(ticket) });
    }
    if room.player_two.is_some() {
        return Err(cat3("room ", room.room_id.as_str(), " is already full"));
    }
    let now_ms = timestamp_millis(now);
    let deadline = now_ms + GAME_TIME_LIMIT_MS;
    let game_id = room.game_id;
    let player_one = room.player_one;
    let ticket_room_id = room.room_id.clone();
    let updated_room = GameRoom {
        player_two: Some(sender),
        status: RoomStatus::Ready,
        updated_at: now,
        timer_started_at_ms: Some(now_ms),
        timer_deadline_at_ms: Some(deadline),
        timer_duration_ms: GAME_TIME_LIMIT_MS,
        ..room
    };
    let gs = load_game_state(game_id, found_state)?;
    let mut game_state = GameState {
        player_one,
        player_two: Some(sender),
        last_terminal_message: Some("Player 2 joined the room".to_string()),
        last_terminal_actor: Some(sender),
        updated_at: now,
        timer_started_at_ms: Some(now_ms),
        timer_deadline_at_ms: Some(deadline),
        timer_duration_ms: GAME_TIME_LIMIT_MS,
        ..gs
    };
    refresh_timer_snapshot(&mut game_state, now_ms);
    let ticket = upsert_room_ticket(sender, Some(ticket_room_id), Some(RoomStatus::Ready), now);
    Ok(RoomUpdate { room: Some(updated_room), game_state: Some(game_state), ticket: Some(ticket) })
}

pub open spec fn terminated_room(room: GameRoom, now: Timestamp) -> GameRoom {
    GameRoom { status: RoomStatus::Terminated, updated_at: now, terminated_at: Some(now), ..room }
}

/// What terminating a room states: the room closes (its row stays), the game stops any
/// terminal work and reports a failed result with `message`, and the caller's ticket says the
/// room is terminated. An already terminated room is left as it is.
pub open spec fn terminate_outcome(
    room_id: Seq<char>,
    found_room: Option<GameRoom>,
    found_state: Option<GameState>,
    sender: Identity,
    now: Timestamp,
    host_only: bool,
    message: Seq<char>,
    r: Result<RoomUpdate, String>,
) -> bool {
    &&& found_room is None ==> (r matches Err(e) && e@ == room_missing_message(room_id))
    &&& found_room matches Some(room) ==> {
        &&& host_only && room.host_identity != sender ==> (r matches Err(e) && e@
            == "only the room host may terminate the room"@)
        &&& (!host_only || room.host_identity == sender) && room.status
            == RoomStatus::Terminated ==> r == Ok::<RoomUpdate, String>(
            RoomUpdate { room: None, game_state: None, ticket: None },
        )
        &&& (!host_only || room.host_identity == sender) && room.status
            != RoomStatus::Terminated && found_state is None ==> (r matches Err(e) && e@
            == game_state_missing_message(room.game_id))
        &&& (!host_only || room.host_identity == sender) && room.status
            != RoomStatus::Terminated && found_state is Some ==> {
            let gs = found_state->0;
            &&& r matches Ok(u)
            &&& u.room == Some(terminated_room(room, now))
            &&& u.game_state matches Some(g) && g == GameState {
                is_processing_terminal: false,
                active_terminal_request: None,
                last_terminal_result: Some(false),
                last_terminal_message: g.last_terminal_message,
                last_terminal_actor: Some(sender),
                terminal_status: TerminalStatus::Failed,
                updated_at: now,
                ..gs
            } && has_text(g.last_terminal_message, message)
            &&& u.ticket matches Some(t) && t == RoomTicket {
                owner_identity: sender,
                room_id: t.room_id,
                room_status: Some(RoomStatus::Terminated),
                updated_at: now,
            } && has_text(t.room_id, room.room_id@)
        }
    }
}

fn close_room(
    room_id: &str,
    found_room: Option<GameRoom>,
    found_state: Option<GameState>,
    sender: Identity,
    now: Timestamp,
    host_only: bool,
    message: &str,
) -> (r: Result<RoomUpdate, String>)
    ensures
        terminate_outcome(room_id@, found_room, found_state, sender, now, host_only, message@, r),
{
    let room = load_room(room_id, found_room)?;
    if host_only && room.host_identity != sender {
        return Err("only the room host may terminate the room".to_string());
    }
    if room.status == RoomStatus::Terminated {
        return Ok(RoomUpdate { room: None, game_state: None, ticket: None });
    }
    let game_id = room.game_id;
    let ticket_room_id = room.room_id.clone();
    let closed = GameRoom {
        status: RoomStatus::Terminated,
        updated_at: now,
        terminated_at: Some(now),
        ..room
    };
    let gs = load_game_state(game_id, found_state)?;
    let game_state = GameState {
        is_processing_terminal: false,
        active_terminal_request: None,
        last_terminal_result: Some(false),
        last_terminal_message: Some(message.to_string()),
        last_terminal_actor: Some(sender),
        terminal_status: TerminalStatus::Failed,
        updated_at: now,
        ..gs
    };
    let ticket = upsert_room_ticket(
        sender,
        Some(ticket_room_id),
        Some(RoomStatus::Terminated),
        now,
    );
    Ok(RoomUpdate { room: Some(closed), game_state: Some(game_state), ticket: Some(ticket) })
}

/// Terminates a room; only its host may. The room row stays so clients see it closed.
pub fn terminate_room(
    room_id: &str,
    found_room: Option<GameRoom>,
    found_state: Option<GameState>,
    sender: Identity,
    now: Timestamp,
) -> (r: Result<RoomUpdate, String>)
    ensures
        terminate_outcome(
            room_id@,
            found_room,
            found_state,
            sender,
            now,
            true,
            "Room terminated by host"@,
            r,
        ),
{
    close_room(room_id, found_room, found_state, sender, now, true, "Room terminated by host")
}

/// Terminates a room like `terminate_room`, for any caller.
pub fn terminate_room_for_testing(
    room_id: &str,
    found_room: Option<GameRoom>,
    found_state: Option<GameState>,
    sender: Identity,
    now: Timestamp,
) -> (r: Result<RoomUpdate, String>)
    ensures
        terminate_outcome(
            room_id@,
            found_room,
            found_state,
            sender,
            now,
            false,
            "Room terminated in testing mode"@,
            r,
        ),
{
    close_room(
        room_id,
        found_room,
        found_state,
        sender,
        now,
        false,
        "Room terminated in testing mode",
    )
}

} // verus!
