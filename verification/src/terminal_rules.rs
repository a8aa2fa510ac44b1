//! The rules of a terminal round that do not touch the tables: word normalization, forbidden
//! word detection, kill-phrase detection, round setup validation, the conversation window and
//! the lines the terminal speaks.
use vstd::prelude::*;

use crate::models::{TerminalClueLine, TerminalConversationMessage, TerminalRoundSetupPayload};
use crate::state::{GameState, TerminalRoundState, MAX_CONVERSATION_MESSAGES, MAX_ROUNDS};
use crate::text::{
    ascii_lower, ascii_lower_seq, ascii_lowercase_str, cat, cat3, char_ascii_lower,
    char_is_alphanumeric, char_vec, contains_seq, decimal, is_blank, str_contains, str_eq,
    string_from_chars, strings_contain, strings_eq, split_words, trim, trim_str, u64_to_decimal,
    unicode_alphanumeric, views, words,
};

verus! {

broadcast use vstd::string::group_string_axioms;

// ---------------------------------------------------------------------------------------------
// Words
// ---------------------------------------------------------------------------------------------

/// Letters and digits are kept (ASCII letters lower-cased); everything else separates words.
pub open spec fn fold_char(c: char) -> char {
    if unicode_alphanumeric(c) {
        ascii_lower(c)
    } else {
        ' '
    }
}

pub open spec fn folded(s: Seq<char>) -> Seq<char> {
    s.map_values(|c: char| fold_char(c))
}

/// The lower-cased alphanumeric words of a text.
pub open spec fn normalized_words(s: Seq<char>) -> Seq<Seq<char>> {
    words(folded(s))
}

pub fn normalize_words(input: &str) -> (r: Vec<String>)
    ensures
        views(r@) == normalized_words(input@),
{
    let v = char_vec(input);
    let mut out: Vec<char> = Vec::new();
    let mut i: usize = 0;
    while i < v.len()
        invariant
            i <= v.len(),
            out@ == folded(v@.take(i as int)),
        decreases v.len() - i,
    {
        let c = v[i];
        let f = if char_is_alphanumeric(c) {
            char_ascii_lower(c)
        } else {
            ' '
        };
        out.push(f);
        assert(folded(v@.take(i + 1)) =~= folded(v@.take(i as int)).push(fold_char(v@[i as int])));
        i = i + 1;
    }
    assert(v@.take(v.len() as int) =~= v@);
    let joined = string_from_chars(&out);
    split_words(joined.as_str())
}

/// The words of `phrase` are not empty and appear, in order and adjacent, among the words of
/// `text`.
pub open spec fn phrase_in(text: Seq<Seq<char>>, phrase: Seq<Seq<char>>) -> bool {
    phrase.len() > 0 && contains_seq(text, phrase)
}

/// Whether the reply says the phrase, comparing normalized words.
pub open spec fn mentions_phrase(reply: Seq<char>, phrase: Seq<char>) -> bool {
    phrase_in(normalized_words(reply), normalized_words(phrase))
}

pub fn reply_mentions_phrase(reply: &str, phrase: &str) -> (r: bool)
    ensures
        r == mentions_phrase(reply@, phrase@),
{
    let reply_tokens = normalize_words(reply);
    let phrase_tokens = normalize_words(phrase);
    phrase_tokens.len() > 0 && strings_contain(&reply_tokens, &phrase_tokens)
}

/// The first forbidden word, in list order, whose words the input says.
pub open spec fn first_forbidden(input: Seq<char>, list: Seq<Seq<char>>) -> Option<Seq<char>>
    decreases list.len(),
{
    if list.len() == 0 {
        None
    } else if mentions_phrase(input, list[0]) {
        Some(list[0])
    } else {
        first_forbidden(input, list.drop_first())
    }
}

/// The forbidden word the input uses, if any (the first one in list order).
#[verifier::loop_isolation(false)]
pub fn detect_forbidden_word(input: &str, forbidden_words: &Vec<String>) -> (r: Option<String>)
    ensures
        r matches Some(w) ==> first_forbidden(input@, views(forbidden_words@)) == Some(w@),
        r is None ==> first_forbidden(input@, views(forbidden_words@)) is None,
{
    let ghost list = views(forbidden_words@);
    let input_tokens = normalize_words(input);
    assert(list.skip(0) =~= list);
    let mut i: usize = 0;
    while i < forbidden_words.len()
        invariant
            i <= forbidden_words.len(),
            list == views(forbidden_words@),
            first_forbidden(input@, list) == first_forbidden(input@, list.skip(i as int)),
        decreases forbidden_words.len() - i,
    {
        let word = &forbidden_words[i];
        let word_tokens = normalize_words(word.as_str());
        proof {
            assert(list.skip(i as int)[0] == word@);
            assert(list.skip(i as int).drop_first() =~= list.skip(i + 1));
        }
        if word_tokens.len() > 0 && strings_contain(&input_tokens, &word_tokens) {
            return Some(word.clone());
        }
        i = i + 1;
    }
    proof {
        assert(list.skip(i as int).len() == 0);
    }
    None
}

// ---------------------------------------------------------------------------------------------
// Conversation window and clue progression
// ---------------------------------------------------------------------------------------------

/// The last `MAX_CONVERSATION_MESSAGES` messages of a history.
pub open spec fn history_window<A>(h: Seq<A>) -> Seq<A> {
    if h.len() > MAX_CONVERSATION_MESSAGES {
        h.subrange(h.len() - MAX_CONVERSATION_MESSAGES, h.len() as int)
    } else {
        h
    }
}

/// Drops the oldest messages so that at most `MAX_CONVERSATION_MESSAGES` remain.
pub fn trim_conversation_history(history: &mut Vec<TerminalConversationMessage>)
    ensures
        final(history)@ == history_window(old(history)@),
{
    if history.len() > MAX_CONVERSATION_MESSAGES {
        let keep_from = history.len() - MAX_CONVERSATION_MESSAGES;
        let tail = history.split_off(keep_from);
        *history = tail;
    }
}

/// A message as its role and text.
pub open spec fn message_view(m: TerminalConversationMessage) -> (Seq<char>, Seq<char>) {
    (m.role@, m.text@)
}

pub open spec fn history_view(h: Seq<TerminalConversationMessage>) -> Seq<(Seq<char>, Seq<char>)> {
    h.map_values(|m: TerminalConversationMessage| message_view(m))
}

/// The history after the player said `player` and the terminal answered `terminal`, keeping
/// only the last `MAX_CONVERSATION_MESSAGES` messages.
pub open spec fn after_turn(
    h: Seq<(Seq<char>, Seq<char>)>,
    player: Seq<char>,
    terminal: Seq<char>,
) -> Seq<(Seq<char>, Seq<char>)> {
    history_window(h.push(("player"@, player)).push(("terminal"@, terminal)))
}

/// Records one exchange of the player and the terminal in the conversation history.
pub fn append_turn(history: &mut Vec<TerminalConversationMessage>, player_text: String, terminal_text: String)
    ensures
        history_view(final(history)@) == after_turn(
            history_view(old(history)@),
            player_text@,
            terminal_text@,
        ),
{
    let ghost before = history_view(history@);
    let ghost p = player_text@;
    let ghost t = terminal_text@;
    history.push(TerminalConversationMessage { role: "player".to_string(), text: player_text });
    history.push(TerminalConversationMessage { role: "terminal".to_string(), text: terminal_text });
    let ghost pushed = history@;
    assert(history_view(pushed) =~= before.push(("player"@, p)).push(("terminal"@, t)));
    trim_conversation_history(history);
    proof {
        if pushed.len() > MAX_CONVERSATION_MESSAGES {
            assert(history_view(history@) =~= history_view(pushed).subrange(
                pushed.len() - MAX_CONVERSATION_MESSAGES,
                pushed.len() as int,
            ));
        }
    }
}

/// The clue the terminal should reveal next, if any remain.
pub open spec fn pending_clue(round: TerminalRoundState) -> Option<TerminalClueLine> {
    if (round.next_clue_index as int) < round.clue_lines@.len() {
        Some(round.clue_lines@[round.next_clue_index as int])
    } else {
        None
    }
}

pub fn next_pending_clue(round: &TerminalRoundState) -> (r: Option<TerminalClueLine>)
    ensures
        r == pending_clue(*round),
{
    let index = round.next_clue_index as usize;
    if index < round.clue_lines.len() {
        Some(crate::models::copy_clue(&round.clue_lines[index]))
    } else {
        None
    }
}

/// The number of clue lines of the round, saturating at `u32::MAX`.
pub open spec fn clue_count(round: TerminalRoundState) -> u32 {
    if round.clue_lines@.len() > u32::MAX {
        u32::MAX
    } else {
        round.clue_lines@.len() as u32
    }
}

pub fn count_clues(round: &TerminalRoundState) -> (r: u32)
    ensures
        r == clue_count(*round),
{
    let n = round.clue_lines.len();
    if n > 4294967295usize {
        4294967295u32
    } else {
        n as u32
    }
}

// ---------------------------------------------------------------------------------------------
// Lines the terminal speaks
// ---------------------------------------------------------------------------------------------

/// The sentence that frames each round when it boots.
pub open spec fn boot_frame(round_key: Seq<char>) -> Seq<char> {
    if round_key == "round_1"@ {
        "The first riddle is already pacing in the dark."@
    } else if round_key == "round_2"@ {
        "The dead left evidence, and the evidence hates cowards."@
    } else if round_key == "round_3"@ {
        "The text is wrong on purpose, and it knows you are reading it."@
    } else if round_key == "round_4"@ {
        "Final calibration is live. The next wrong step will sound loud."@
    } else {
        "The signal is unstable, but the game has begun."@
    }
}

pub fn build_round_boot_frame(round_key: &str) -> (r: &'static str)
    ensures
        r@ == boot_frame(round_key@),
{
    if str_eq(round_key, "round_1") {
        "The first riddle is already pacing in the dark."
    } else if str_eq(round_key, "round_2") {
        "The dead left evidence, and the evidence hates cowards."
    } else if str_eq(round_key, "round_3") {
        "The text is wrong on purpose, and it knows you are reading it."
    } else if str_eq(round_key, "round_4") {
        "Final calibration is live. The next wrong step will sound loud."
    } else {
        "The signal is unstable, but the game has begun."
    }
}

/// The round that follows `round_key`, for the first three rounds.
pub open spec fn next_round(round_key: Seq<char>) -> Option<Seq<char>> {
    if round_key == "round_1"@ {
        Some("round_2"@)
    } else if round_key == "round_2"@ {
        Some("round_3"@)
    } else if round_key == "round_3"@ {
        Some("round_4"@)
    } else {
        None
    }
}

pub fn next_round_label(round_key: &str) -> (r: Option<&'static str>)
    ensures
        r matches Some(s) ==> next_round(round_key@) == Some(s@),
        r is None ==> next_round(round_key@) is None,
{
    if str_eq(round_key, "round_1") {
        Some("round_2")
    } else if str_eq(round_key, "round_2") {
        Some("round_3")
    } else if str_eq(round_key, "round_3") {
        Some("round_4")
    } else {
        None
    }
}

/// The first words of a persona, chosen by what its lower-cased name mentions.
pub open spec fn boot_opening(persona_name: Seq<char>) -> Seq<char> {
    let n = ascii_lower_seq(persona_name);
    if contains_seq(n, "detective"@) {
        "You finally got through to my desk."@
    } else if contains_seq(n, "cowboy"@) || contains_seq(n, "gunslinger"@) {
        "Well now, somebody finally rode up to the wire."@
    } else if contains_seq(n, "robot"@) || contains_seq(n, "android"@) {
        "Signal acquired. Persona shell active."@
    } else if contains_seq(n, "scientist"@) || contains_seq(n, "doctor"@) {
        "Connection stabilized. I will tolerate precise questions."@
    } else if contains_seq(n, "priest"@) || contains_seq(n, "nun"@) || contains_seq(n, "bishop"@) {
        "The signal opened like a confession booth."@
    } else if contains_seq(n, "captain"@) || contains_seq(n, "admiral"@) {
        "Channel secured. Speak with discipline."@
    } else {
        persona_name + " is listening now."@
    }
}

pub fn build_persona_boot_opening(persona_name: &str) -> (r: String)
    ensures
        r@ == boot_opening(persona_name@),
{
    let normalized = ascii_lowercase_str(persona_name);
    let n = normalized.as_str();
    if str_contains(n, "detective") {
        "You finally got through to my desk.".to_string()
    } else if str_contains(n, "cowboy") || str_contains(n, "gunslinger") {
        "Well now, somebody finally rode up to the wire.".to_string()
    } else if str_contains(n, "robot") || str_contains(n, "android") {
        "Signal acquired. Persona shell active.".to_string()
    } else if str_contains(n, "scientist") || str_contains(n, "doctor") {
        "Connection stabilized. I will tolerate precise questions.".to_string()
    } else if str_contains(n, "priest") || str_contains(n, "nun") || str_contains(n, "bishop") {
        "The signal opened like a confession booth.".to_string()
    } else if str_contains(n, "captain") || str_contains(n, "admiral") {
        "Channel secured. Speak with discipline.".to_string()
    } else {
        cat(persona_name, " is listening now.")
    }
}

/// The stakes line of the boot message.
pub open spec fn boot_stakes(max_strikes: u32) -> Seq<char> {
    if max_strikes <= 1 {
        "One mistake and the line goes dead."@
    } else {
        decimal(max_strikes as nat) + " mistakes and the line goes dead."@
    }
}

/// The line the terminal opens a round with.
pub open spec fn boot_message(
    persona_name: Seq<char>,
    glitch_tone: Seq<char>,
    round_key: Seq<char>,
    max_strikes: u32,
) -> Seq<char> {
    persona_name + "// "@ + glitch_tone + " :: "@ + boot_opening(persona_name) + " "@ + boot_frame(
        round_key,
    ) + " "@ + boot_stakes(max_strikes) + " Fragment locked behind static. Make me say it if you can."@
}

pub fn build_round_boot_message(setup: &TerminalRoundSetupPayload) -> (r: String)
    ensures
        r@ == boot_message(
            setup.persona_name@,
            setup.glitch_tone@,
            setup.round_key@,
            setup.max_strikes,
        ),
{
    let opening = build_persona_boot_opening(setup.persona_name.as_str());
    let round_frame = build_round_boot_frame(setup.round_key.as_str());
    let stakes = if setup.max_strikes <= 1 {
        "One mistake and the line goes dead.".to_string()
    } else {
        let n = u64_to_decimal(setup.max_strikes as u64);
        n.concat(" mistakes and the line goes dead.")
    };
    let mut r = setup.persona_name.clone();
    r.append("// ");
    r.append(setup.glitch_tone.as_str());
    r.append(" :: ");
    r.append(opening.as_str());
    r.append(" ");
    r.append(round_frame);
    r.append(" ");
    r.append(stakes.as_str());
    r.append(" Fragment locked behind static. Make me say it if you can.");
    r
}

/// The message shown when a round is cleared.
pub open spec fn victory_message(round_key: Seq<char>, completed_rounds: u32) -> Seq<char> {
    match next_round(round_key) {
        Some(next) if completed_rounds < MAX_ROUNDS =>
            "Round cleared. The terminal involuntarily yielded the fragment. Prepare "@ + next
                + " next."@,
        _ => "All four rounds cleared. The full kill phrase can now be assembled."@,
    }
}

pub fn build_round_victory_message(round_key: &str, completed_rounds: u32) -> (r: String)
    ensures
        r@ == victory_message(round_key@, completed_rounds),
{
    match next_round_label(round_key) {
        Some(next) if completed_rounds < MAX_ROUNDS => cat3(
            "Round cleared. The terminal involuntarily yielded the fragment. Prepare ",
            next,
            " next.",
        ),
        _ => "All four rounds cleared. The full kill phrase can now be assembled.".to_string(),
    }
}

/// The message shown after a turn in which the terminal did not yield.
pub open spec fn turn_resolved_message(round: TerminalRoundState) -> Seq<char> {
    match pending_clue(round) {
        Some(clue) => round.persona_name@ + " resists. Next clue primed: "@ + clue.clue_id@ + "."@,
        None => round.persona_name@ + " resists. No unused clue beats remain for this round."@,
    }
}

pub fn build_turn_resolved_message(round: &TerminalRoundState) -> (r: String)
    ensures
        r@ == turn_resolved_message(*round),
{
    match next_pending_clue(round) {
        Some(clue) => {
            let mut r = round.persona_name.clone();
            r.append(" resists. Next clue primed: ");
            r.append(clue.clue_id.as_str());
            r.append(".");
            r
        },
        None => cat(round.persona_name.as_str(), " resists. No unused clue beats remain for this round."),
    }
}

/// The reply shown when the match timer disqualifies the players.
pub open spec fn timeout_reply(active_persona_name: Option<String>) -> Seq<char> {
    match active_persona_name {
        Some(p) if trim(p@).len() > 0 => p@
            + "// signal-collapse :: three minutes burned away. session disqualified."@,
        _ => "terminal// signal-collapse :: three minutes burned away. session disqualified."@,
    }
}

pub fn build_timeout_terminal_reply(state: &GameState) -> (r: String)
    ensures
        r@ == timeout_reply(state.active_persona_name),
{
    match &state.active_persona_name {
        Some(p) => {
            if !is_blank(p.as_str()) {
                cat(p.as_str(), "// signal-collapse :: three minutes burned away. session disqualified.")
            } else {
                "terminal// signal-collapse :: three minutes burned away. session disqualified.".to_string()
            }
        },
        None => "terminal// signal-collapse :: three minutes burned away. session disqualified.".to_string(),
    }
}

// ---------------------------------------------------------------------------------------------
// Field normalization
// ---------------------------------------------------------------------------------------------

/// The message for a required field left blank.
pub open spec fn blank_field_message(label: Seq<char>) -> Seq<char> {
    label + " must not be empty"@
}

/// The trimmed value of a required field; a blank value is refused.
pub fn require_trimmed(label: &str, value: String) -> (r: Result<String, String>)
    ensures
        trim(value@).len() > 0 ==> (r matches Ok(v) && v@ == trim(value@)),
        trim(value@).len() == 0 ==> (r matches Err(e) && e@ == blank_field_message(label@)),
{
    let normalized = trim_str(value.as_str());
    if normalized.as_str().is_empty() {
        return Err(cat(label, " must not be empty"));
    }
    Ok(normalized)
}

/// The trimmed value of an optional field, with blank values counting as absent.
pub open spec fn optional_text(value: Option<String>) -> Option<Seq<char>> {
    match value {
        Some(v) => if trim(v@).len() > 0 {
            Some(trim(v@))
        } else {
            None
        },
        None => None,
    }
}

pub fn normalize_optional(value: Option<String>) -> (r: Option<String>)
    ensures
        r matches Some(v) ==> optional_text(value) == Some(v@),
        r is None ==> optional_text(value) is None,
{
    match value {
        Some(v) => {
            let t = trim_str(v.as_str());
            if t.as_str().is_empty() {
                None
            } else {
                Some(t)
            }
        },
        None => None,
    }
}

/// The ArmorIQ key used with the local relay: the given key, or a development placeholder.
pub fn normalize_dev_api_key(value: String) -> (r: String)
    ensures
        trim(value@).len() > 0 ==> r@ == trim(value@),
        trim(value@).len() == 0 ==> r@ == "dev-armoriq-key"@,
{
    match normalize_optional(Some(value)) {
        Some(v) => v,
        None => "dev-armoriq-key".to_string(),
    }
}

// ---------------------------------------------------------------------------------------------
// Round setup
// ---------------------------------------------------------------------------------------------

pub open spec fn is_round_key(k: Seq<char>) -> bool {
    k == "round_1"@ || k == "round_2"@ || k == "round_3"@ || k == "round_4"@
}

/// The forbidden words kept from a list: trimmed, and without a word whose normalized words
/// equal those of an earlier kept word.
pub open spec fn dedup_forbidden(list: Seq<Seq<char>>) -> Seq<Seq<char>>
    decreases list.len(),
{
    if list.len() == 0 {
        Seq::empty()
    } else {
        let kept = dedup_forbidden(list.drop_last());
        let w = trim(list.last());
        if exists|k: int| 0 <= k < kept.len() && normalized_words(#[trigger] kept[k]) == normalized_words(w) {
            kept
        } else {
            kept.push(w)
        }
    }
}

pub proof fn lemma_dedup_forbidden_nonempty(list: Seq<Seq<char>>)
    ensures
        list.len() > 0 <==> dedup_forbidden(list).len() > 0,
    decreases list.len(),
{
    if list.len() > 0 {
        lemma_dedup_forbidden_nonempty(list.drop_last());
    }
}

/// `clue_NN` for a one-based clue position, with at least two digits.
pub open spec fn default_clue_id(position: nat) -> Seq<char> {
    if position < 10 {
        "clue_0"@ + decimal(position)
    } else {
        "clue_"@ + decimal(position)
    }
}

/// A clue line of a valid setup after normalization.
pub open spec fn normalized_clue(c: TerminalClueLine, index: int, out: TerminalClueLine) -> bool {
    &&& out.clue_text@ == trim(c.clue_text@)
    &&& out.clue_id@ == (if trim(c.clue_id@).len() > 0 {
        trim(c.clue_id@)
    } else {
        default_clue_id((index + 1) as nat)
    })
    &&& match optional_text(c.delivery_style) {
        Some(t) => out.delivery_style matches Some(d) && d@ == t,
        None => out.delivery_style is None,
    }
}

/// The first problem of a round setup, in the order the fields are checked.
pub open spec fn setup_error(setup: TerminalRoundSetupPayload) -> Option<Seq<char>> {
    if trim(setup.round_key@).len() == 0 {
        Some(blank_field_message("round_key"@))
    } else if !is_round_key(trim(setup.round_key@)) {
        Some("round_key must be one of round_1, round_2, round_3, or round_4"@)
    } else if trim(setup.persona_name@).len() == 0 {
        Some(blank_field_message("persona_name"@))
    } else if trim(setup.persona_prompt@).len() == 0 {
        Some(blank_field_message("persona_prompt"@))
    } else if trim(setup.kill_phrase_part@).len() == 0 {
        Some(blank_field_message("kill_phrase_part"@))
    } else if exists|i: int| 0 <= i < setup.forbidden_words@.len() && trim(#[trigger] setup.forbidden_words@[i]@).len() == 0 {
        Some(blank_field_message("forbidden_words[]"@))
    } else if setup.forbidden_words@.len() == 0 {
        Some("forbidden_words must contain at least one non-empty word"@)
    } else if exists|i: int| 0 <= i < setup.clue_lines@.len() && trim(#[trigger] setup.clue_lines@[i].clue_text@).len() == 0 {
        Some(blank_field_message("clue_lines[].clue_text"@))
    } else if setup.clue_lines@.len() == 0 {
        Some("clue_lines must contain at least one clue"@)
    } else {
        None
    }
}

/// `out` is `setup` after normalization (for a setup without problems).
pub open spec fn normalized_setup(setup: TerminalRoundSetupPayload, out: TerminalRoundSetupPayload) -> bool {
    &&& out.round_key@ == trim(setup.round_key@)
    &&& out.persona_name@ == trim(setup.persona_name@)
    &&& out.persona_prompt@ == trim(setup.persona_prompt@)
    &&& out.glitch_tone@ == (if trim(setup.glitch_tone@).len() > 0 {
        trim(setup.glitch_tone@)
    } else {
        "corrupted, cold, theatrical"@
    })
    &&& out.kill_phrase_part@ == trim(setup.kill_phrase_part@)
    &&& views(out.forbidden_words@) == dedup_forbidden(views(setup.forbidden_words@))
    &&& out.clue_lines@.len() == setup.clue_lines@.len()
    &&& forall|i: int|
        0 <= i < out.clue_lines@.len() ==> normalized_clue(
            #[trigger] setup.clue_lines@[i],
            i,
            out.clue_lines@[i],
        )
    &&& out.max_strikes == (if setup.max_strikes == 0 {
        3
    } else {
        setup.max_strikes
    })
}

/// Validates and normalizes a round setup: required fields trimmed, the round key one of the
/// four rounds, forbidden words de-duplicated by their normalized words, clue ids filled in,
/// and a strike limit of zero replaced by three.
#[verifier::loop_isolation(false)]
pub fn normalize_terminal_round_setup(setup: TerminalRoundSetupPayload) -> (r: Result<
    TerminalRoundSetupPayload,
    String,
>)
    ensures
        setup_error(setup) matches Some(msg) ==> (r matches Err(e) && e@ == msg),
        setup_error(setup) is None ==> (r matches Ok(out) && normalized_setup(setup, out)),
{
    let ghost given = setup;
    let round_key = require_trimmed("round_key", setup.round_key)?;
    if !(str_eq(round_key.as_str(), "round_1") || str_eq(round_key.as_str(), "round_2") || str_eq(
        round_key.as_str(),
        "round_3",
    ) || str_eq(round_key.as_str(), "round_4")) {
        return Err("round_key must be one of round_1, round_2, round_3, or round_4".to_string());
    }
    let persona_name = require_trimmed("persona_name", setup.persona_name)?;
    let persona_prompt = require_trimmed("persona_prompt", setup.persona_prompt)?;
    let glitch_tone = match normalize_optional(Some(setup.glitch_tone)) {
        Some(t) => t,
        None => "corrupted, cold, theatrical".to_string(),
    };
    let kill_phrase_part = require_trimmed("kill_phrase_part", setup.kill_phrase_part)?;
    let forbidden_words = setup.forbidden_words;
    let clue_lines = setup.clue_lines;
    let max_strikes = setup.max_strikes;
    assert(forbidden_words@ == given.forbidden_words@);
    assert(clue_lines@ == given.clue_lines@);

    let ghost fw = views(forbidden_words@);
    let mut kept: Vec<String> = Vec::new();
    let mut kept_words: Vec<Vec<String>> = Vec::new();
    let mut i: usize = 0;
    while i < forbidden_words.len()
        invariant
            i <= forbidden_words.len(),
            fw == views(forbidden_words@),
            forall|k: int| 0 <= k < i ==> trim(#[trigger] fw[k]).len() > 0,
            views(kept@) == dedup_forbidden(fw.take(i as int)),
            kept_words@.len() == kept@.len(),
            forall|k: int| 0 <= k < kept@.len() ==> views(#[trigger] kept_words@[k]@) == normalized_words(kept@[k]@),
        decreases forbidden_words.len() - i,
    {
        let word = trim_str(forbidden_words[i].as_str());
        if word.as_str().is_empty() {
            proof {
                assert(trim(fw[i as int]).len() == 0);
                assert(exists|k: int| 0 <= k < forbidden_words@.len() && trim(#[trigger] forbidden_words@[k]@).len() == 0);
            }
            return Err(cat("forbidden_words[]", " must not be empty"));
        }
        let word_tokens = normalize_words(word.as_str());
        let ghost prev = views(kept@);
        let mut duplicate = false;
        let mut k: usize = 0;
        while k < kept_words.len()
            invariant
                kept_words@.len() == kept@.len(),
                prev == views(kept@),
                k <= kept_words.len(),
                forall|j: int| 0 <= j < kept@.len() ==> views(#[trigger] kept_words@[j]@) == normalized_words(kept@[j]@),
                duplicate == exists|j: int| 0 <= j < k && normalized_words(#[trigger] prev[j]) == normalized_words(word@),
            decreases kept_words.len() - k,
        {
            let same = strings_eq(&kept_words[k], &word_tokens);
            proof {
                assert(prev[k as int] == kept@[k as int]@);
                assert(views(kept_words@[k as int]@) == normalized_words(kept@[k as int]@));
                assert(views(word_tokens@) == normalized_words(word@));
                assert(same == (normalized_words(prev[k as int]) == normalized_words(word@)));
            }
            let ghost before = duplicate;
            if same {
                duplicate = true;
            }
            proof {
                if same {
                    assert(normalized_words(prev[k as int]) == normalized_words(word@));
                } else if !before {
                    assert forall|j: int| 0 <= j < k + 1 implies !(normalized_words(#[trigger] prev[j]) == normalized_words(word@)) by {
                        if j < k {
                        }
                    }
                }
            }
            k = k + 1;
        }
        proof {
            assert(fw.take(i + 1).drop_last() =~= fw.take(i as int));
            assert(fw.take(i + 1).last() == fw[i as int]);
        }
        if !duplicate {
            kept.push(word);
            kept_words.push(word_tokens);
            proof {
                assert(views(kept@) =~= prev.push(trim(fw[i as int])));
            }
        }
        i = i + 1;
    }
    proof {
        assert(fw.take(forbidden_words.len() as int) =~= fw);
        lemma_dedup_forbidden_nonempty(fw);
        assert forall|k: int| 0 <= k < given.forbidden_words@.len() implies trim(
            #[trigger] given.forbidden_words@[k]@,
        ).len() > 0 by {
            assert(fw[k] == given.forbidden_words@[k]@);
        }
    }
    if kept.len() == 0 {
        return Err("forbidden_words must contain at least one non-empty word".to_string());
    }

    let mut clues: Vec<TerminalClueLine> = Vec::new();
    let mut j: usize = 0;
    while j < clue_lines.len()
        invariant
            j <= clue_lines.len(),
            clues@.len() == j,
            forall|k: int| 0 <= k < j ==> trim(#[trigger] clue_lines@[k].clue_text@).len() > 0,
            forall|k: int| 0 <= k < j ==> normalized_clue(#[trigger] clue_lines@[k], k, clues@[k]),
        decreases clue_lines.len() - j,
    {
        let clue = &clue_lines[j];
        let clue_text = trim_str(clue.clue_text.as_str());
        if clue_text.as_str().is_empty() {
            return Err(cat("clue_lines[].clue_text", " must not be empty"));
        }
        let clue_id = match normalize_optional(Some(clue.clue_id.clone())) {
            Some(id) => id,
            None => {
                let position = (j as u64) + 1;
                let digits = u64_to_decimal(position);
                if position < 10 {
                    cat("clue_0", digits.as_str())
                } else {
                    cat("clue_", digits.as_str())
                }
            },
        };
        let delivery_style = normalize_optional(crate::state::copy_opt_string(&clue.delivery_style));
        clues.push(TerminalClueLine { clue_id, clue_text, delivery_style });
        j = j + 1;
    }
    assert forall|k: int| 0 <= k < given.clue_lines@.len() implies trim(
        #[trigger] given.clue_lines@[k].clue_text@,
    ).len() > 0 by {
        assert(clue_lines@[k] == given.clue_lines@[k]);
    }
    if clues.len() == 0 {
        return Err("clue_lines must contain at least one clue".to_string());
    }
    let max_strikes = if max_strikes == 0 {
        3
    } else {
        max_strikes
    };
    Ok(
        TerminalRoundSetupPayload {
            round_key,
            persona_name,
            persona_prompt,
            glitch_tone,
            kill_phrase_part,
            forbidden_words: kept,
            clue_lines: clues,
            max_strikes,
        },
    )
}

} // verus!
