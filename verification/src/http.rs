//! The outbound hops of the terminal flow: queueing them, deciding where each request goes and
//! what it carries, the local stand-ins used with a loopback relay, and reading Gemini answers.
use vstd::prelude::*;

use crate::config::{
    derive_armoriq_token_issue_url, normalize_runtime_gemini_model_name, strip_trailing,
    terminal_model_name, token_issue_url_for, without_trailing_slashes,
};
use crate::json::{json_quoted, push_json_string};
use crate::models::{GeminiCandidate, GeminiGenerateContentResponse, GeminiPart, TerminalClueLine};
use crate::prompts::{build_terminal_persona_prompt, persona_prompt};
use crate::schemas::{gemini_terminal_response_schema, terminal_turn_schema_json};
use crate::state::{
    copy_game_state, has_text, is_active, same_request, ArmoriqCallbackSchedule,
    ArmoriqRequestSchedule, GameState, GeminiValidatorCallbackSchedule,
    GeminiValidatorRequestSchedule, Identity, ServerConfig, TerminalRequest, TerminalRequestPhase,
    TerminalRoundState, TerminalStatus, Timestamp, ACTIVE_SERVER_CONFIG_KEY,
};
use crate::terminal_callbacks::waiting_on;
use crate::terminal_rules::{next_pending_clue, pending_clue};
use crate::text::{
    ascii_lower, ascii_lower_seq, ascii_lowercase_str, cat, cat3, char_ascii_lower,
    char_is_ascii_alnum, char_vec, contains_seq, decimal, is_ascii_alnum, is_blank, join_strings,
    join_with, split_words, starts_with_seq, str_contains, str_starts_with, string_from_chars, trim,
    trim_str, u64_to_decimal, words,
};

verus! {

broadcast use vstd::string::group_string_axioms;

/// The queue row that sends terminal request `request_id` to ArmorIQ. The input and the
/// hidden answer are read from the request row when the call is made.
pub fn verify_with_armoriq(request_id: u64, _input: String, _hidden_answer: String, now: Timestamp) -> (r: ArmoriqRequestSchedule)
    ensures
        r == (ArmoriqRequestSchedule { scheduled_id: 0, scheduled_at: now, request_id }),
{
    ArmoriqRequestSchedule { scheduled_id: 0, scheduled_at: now, request_id }
}

/// The queue row that sends terminal request `request_id` to the Gemini terminal persona.
pub fn queue_gemini_validator(request_id: u64, now: Timestamp) -> (r: GeminiValidatorRequestSchedule)
    ensures
        r == (GeminiValidatorRequestSchedule { scheduled_id: 0, scheduled_at: now, request_id }),
{
    GeminiValidatorRequestSchedule { scheduled_id: 0, scheduled_at: now, request_id }
}

// ---------------------------------------------------------------------------------------------
// Reading Gemini answers
// ---------------------------------------------------------------------------------------------

/// The text of the first part, among `parts`, that has one.
pub open spec fn first_part_text(parts: Seq<GeminiPart>) -> Option<String>
    decreases parts.len(),
{
    if parts.len() == 0 {
        None
    } else if parts[0].text is Some {
        parts[0].text
    } else {
        first_part_text(parts.drop_first())
    }
}

/// The text of the first part, over the candidates in order, that has one.
pub open spec fn first_candidate_text(candidates: Seq<GeminiCandidate>) -> Option<String>
    decreases candidates.len(),
{
    if candidates.len() == 0 {
        None
    } else if first_part_text(candidates[0].content.parts@) is Some {
        first_part_text(candidates[0].content.parts@)
    } else {
        first_candidate_text(candidates.drop_first())
    }
}

/// What `extract_gemini_text` gives for an envelope read from a body (or the error reading it).
pub open spec fn gemini_text(envelope: Result<GeminiGenerateContentResponse, String>) -> Result<Seq<char>, Seq<char>> {
    match envelope {
        Err(e) => Err("failed to parse Gemini envelope: "@ + e@),
        Ok(env) => match first_candidate_text(env.candidates@) {
            Some(t) => if trim(t@).len() > 0 {
                Ok(t@)
            } else {
                Err("Gemini response did not contain a text candidate"@)
            },
            None => Err("Gemini response did not contain a text candidate"@),
        },
    }
}

fn parts_text(parts: &Vec<GeminiPart>) -> (r: Option<String>)
    ensures
        r == first_part_text(parts@),
{
    let mut i: usize = 0;
    assert(parts@.skip(0) =~= parts@);
    while i < parts.len()
        invariant
            i <= parts.len(),
            first_part_text(parts@) == first_part_text(parts@.skip(i as int)),
        decreases parts.len() - i,
    {
        proof {
            assert(parts@.skip(i as int)[0] == parts@[i as int]);
            assert(parts@.skip(i as int).drop_first() =~= parts@.skip(i + 1));
        }
        if let Some(t) = &parts[i].text {
            return Some(t.clone());
        }
        i = i + 1;
    }
    proof {
        assert(parts@.skip(i as int).len() == 0);
    }
    None
}

/// Extracts the first text part of a Gemini `generateContent` response envelope (already read
/// from the body, or the error reading it); a blank first text counts as none.
pub fn extract_gemini_text(envelope: Result<GeminiGenerateContentResponse, String>) -> (r: Result<String, String>)
    ensures
        gemini_text(envelope) matches Ok(t) ==> (r matches Ok(s) && s@ == t),
        gemini_text(envelope) matches Err(m) ==> (r matches Err(e) && e@ == m),
{
    let env = match envelope {
        Ok(env) => env,
        Err(e) => {
            return Err(cat("failed to parse Gemini envelope: ", e.as_str()));
        },
    };
    let ghost cands = env.candidates@;
    let mut found: Option<String> = None;
    let mut i: usize = 0;
    assert(cands.skip(0) =~= cands);
    while i < env.candidates.len()
        invariant_except_break
            i <= env.candidates.len(),
            cands == env.candidates@,
            found is None,
            first_candidate_text(cands) == first_candidate_text(cands.skip(i as int)),
        ensures
            found == first_candidate_text(cands),
        decreases env.candidates.len() - i,
    {
        proof {
            assert(cands.skip(i as int)[0] == cands[i as int]);
            assert(cands.skip(i as int).drop_first() =~= cands.skip(i + 1));
        }
        let t = parts_text(&env.candidates[i].content.parts);
        if t.is_some() {
            found = t;
            break;
        }
        i = i + 1;
    }
    match found {
        Some(t) => {
            if is_blank(t.as_str()) {
                Err("Gemini response did not contain a text candidate".to_string())
            } else {
                Ok(t)
            }
        },
        None => Err("Gemini response did not contain a text candidate".to_string()),
    }
}

// ---------------------------------------------------------------------------------------------
// Outbound calls as plain values
// ---------------------------------------------------------------------------------------------

/// An outbound HTTP request.
#[derive(Debug, Clone)]
pub struct HttpCall {
    pub method: String,
    pub url: String,
    pub headers: Vec<(String, String)>,
    pub body: String,
}

/// A Gemini `generateContent` call: where it goes, the prompt, the schema the answer must
/// follow, the output budget and the sampling temperature in thousandths.
#[derive(Debug, Clone)]
pub struct GeminiCall {
    pub url: String,
    pub prompt: String,
    pub response_schema: Option<String>,
    pub max_output_tokens: u32,
    pub temperature_millis: u32,
}

/// Where the ArmorIQ hop of a request goes: out over HTTP, or to the local stand-in, whose
/// answer is given.
#[derive(Debug, Clone)]
pub enum ArmoriqDispatch {
    Http(HttpCall),
    LocalMock(String),
}

/// Where the Gemini persona hop of a request goes.
#[derive(Debug, Clone)]
pub enum GeminiTerminalDispatch {
    Http(GeminiCall),
    LocalMock(String),
}

pub open spec fn header_views(h: Seq<(String, String)>) -> Seq<(Seq<char>, Seq<char>)> {
    h.map_values(|p: (String, String)| (p.0@, p.1@))
}

/// A required setting that is blank is refused.
pub fn require_non_empty(label: &str, value: &str) -> (r: Result<(), String>)
    ensures
        trim(value@).len() > 0 ==> r is Ok,
        trim(value@).len() == 0 ==> (r matches Err(e) && e@ == label@ + " must not be empty"@),
{
    if is_blank(value) {
        return Err(cat(label, " must not be empty"));
    }
    Ok(())
}

/// A URL of the local machine: the host refuses outbound calls to such addresses, so requests
/// meant for a loopback relay are answered by the local stand-ins instead.
pub open spec fn is_local_dev_url(url: Seq<char>) -> bool {
    let n = ascii_lower_seq(trim(url));
    ||| starts_with_seq(n, "http://127."@)
    ||| starts_with_seq(n, "https://127."@)
    ||| starts_with_seq(n, "http://localhost"@)
    ||| starts_with_seq(n, "https://localhost"@)
    ||| starts_with_seq(n, "http://0.0.0.0"@)
    ||| starts_with_seq(n, "https://0.0.0.0"@)
}

pub fn should_use_local_dev_mock_for_url(url: &str) -> (r: bool)
    ensures
        r == is_local_dev_url(url@),
{
    let trimmed = trim_str(url);
    let normalized = ascii_lowercase_str(trimmed.as_str());
    let n = normalized.as_str();
    str_starts_with(n, "http://127.") || str_starts_with(n, "https://127.") || str_starts_with(
        n,
        "http://localhost",
    ) || str_starts_with(n, "https://localhost") || str_starts_with(n, "http://0.0.0.0")
        || str_starts_with(n, "https://0.0.0.0")
}

/// Whether ArmorIQ is asked through its token-issue endpoint rather than the verify one.
pub open spec fn uses_token_issue(config: ServerConfig) -> bool {
    !is_local_dev_url(config.armoriq_verify_url@) && (config.armoriq_token_issue_url is Some
        || contains_seq(config.armoriq_verify_url@, "armoriq.ai"@) || contains_seq(
        config.armoriq_verify_url@,
        "/verify"@,
    ))
}

pub fn should_use_armoriq_token_issue(config: &ServerConfig) -> (r: bool)
    ensures
        r == uses_token_issue(*config),
{
    if should_use_local_dev_mock_for_url(config.armoriq_verify_url.as_str()) {
        return false;
    }
    config.armoriq_token_issue_url.is_some() || str_contains(config.armoriq_verify_url.as_str(), "armoriq.ai")
        || str_contains(config.armoriq_verify_url.as_str(), "/verify")
}

// ---------------------------------------------------------------------------------------------
// The ArmorIQ hop
// ---------------------------------------------------------------------------------------------

/// The body of an ArmorIQ verify request.
pub open spec fn armoriq_request_body(input: Seq<char>, hidden_answer: Seq<char>) -> Seq<char> {
    "{\"player_input\":"@ + json_quoted(input) + ",\"action\":\"terminal_override\",\"context\":{\"hidden_answer\":"@
        + json_quoted(hidden_answer) + "}}"@
}

/// The body of an ArmorIQ token-issue request.
pub open spec fn token_issue_body(user_id: Seq<char>, agent_id: Seq<char>, input: Seq<char>, hidden_answer: Seq<char>) -> Seq<char> {
    "{\"user_id\":"@ + json_quoted(user_id) + ",\"agent_id\":"@ + json_quoted(agent_id)
        + ",\"action\":\"terminal_override\",\"plan\":{\"goal\":\"Authorize a terminal override validation request\","@
        + "\"steps\":[{\"action\":\"terminal_override\",\"mcp\":\"the-entity-terminal\",\"params\":{\"player_input\":"@
        + json_quoted(input) + ",\"hidden_answer\":"@ + json_quoted(hidden_answer)
        + "}}]},\"policy\":{\"allow\":[\"*\"],\"deny\":[]}}"@
}

/// Where an ArmorIQ request goes and what it carries, or why it cannot be built.
pub open spec fn armoriq_target(config: ServerConfig, input: Seq<char>, hidden_answer: Seq<char>) -> Result<(Seq<char>, Seq<char>), Seq<char>> {
    if trim(config.armoriq_verify_url@).len() == 0 {
        Err("ServerConfig.armoriq_verify_url"@ + " must not be empty"@)
    } else if trim(config.armoriq_api_key_header@).len() == 0 {
        Err("ServerConfig.armoriq_api_key_header"@ + " must not be empty"@)
    } else if trim(config.armoriq_api_key@).len() == 0 {
        Err("ServerConfig.armoriq_api_key"@ + " must not be empty"@)
    } else if uses_token_issue(config) {
        let url = match config.armoriq_token_issue_url {
            Some(u) => Some(u@),
            None => token_issue_url_for(config.armoriq_verify_url@),
        };
        match url {
            None => Err("could not derive ArmorIQ token issue URL"@),
            Some(u) => Ok(
                (
                    u,
                    token_issue_body(
                        match config.armoriq_user_id {
                            Some(x) => x@,
                            None => "the-entity-maincloud-user"@,
                        },
                        match config.armoriq_agent_id {
                            Some(x) => x@,
                            None => "the-entity-terminal"@,
                        },
                        input,
                        hidden_answer,
                    ),
                ),
            ),
        }
    } else {
        Ok((config.armoriq_verify_url@, armoriq_request_body(input, hidden_answer)))
    }
}

/// A JSON POST carrying `body` to `url` with the headers `extra` after the content type.
pub open spec fn json_post(call: HttpCall, url: Seq<char>, extra: Seq<(Seq<char>, Seq<char>)>, body: Seq<char>) -> bool {
    &&& call.method@ == "POST"@
    &&& call.url@ == url
    &&& header_views(call.headers@) == seq![("Content-Type"@, "application/json"@)] + extra
    &&& call.body@ == body
}

pub fn post_json(url: String, extra: Vec<(String, String)>, body: String) -> (call: HttpCall)
    ensures
        json_post(call, url@, header_views(extra@), body@),
{
    let mut headers: Vec<(String, String)> = Vec::new();
    headers.push(("Content-Type".to_string(), "application/json".to_string()));
    let mut i: usize = 0;
    while i < extra.len()
        invariant
            i <= extra.len(),
            header_views(headers@) == seq![("Content-Type"@, "application/json"@)] + header_views(
                extra@.take(i as int),
            ),
        decreases extra.len() - i,
    {
        let ghost before = header_views(headers@);
        let k = extra[i].0.clone();
        let v = extra[i].1.clone();
        headers.push((k, v));
        proof {
            assert(header_views(headers@) =~= before.push((extra@[i as int].0@, extra@[i as int].1@)));
            assert(header_views(extra@.take(i + 1)) =~= header_views(extra@.take(i as int)).push(
                (extra@[i as int].0@, extra@[i as int].1@),
            ));
            assert(header_views(headers@) =~= seq![("Content-Type"@, "application/json"@)] + header_views(
                extra@.take(i + 1),
            ));
        }
        i = i + 1;
    }
    assert(extra@.take(extra.len() as int) =~= extra@);
    HttpCall { method: "POST".to_string(), url, headers, body }
}

/// Builds the ArmorIQ request for a terminal input: the token-issue endpoint with an
/// authorization plan when the settings point there, else the verify endpoint; either way
/// with the configured API key header.
pub fn build_armoriq_http_request(config: &ServerConfig, input: String, hidden_answer: String) -> (r: Result<HttpCall, String>)
    ensures
        armoriq_target(*config, input@, hidden_answer@) matches Err(m) ==> (r matches Err(e) && e@ == m),
        armoriq_target(*config, input@, hidden_answer@) matches Ok(t) ==> (r matches Ok(call) && json_post(
            call,
            t.0,
            seq![(config.armoriq_api_key_header@, config.armoriq_api_key@)],
            t.1,
        )),
{
    require_non_empty("ServerConfig.armoriq_verify_url", config.armoriq_verify_url.as_str())?;
    require_non_empty("ServerConfig.armoriq_api_key_header", config.armoriq_api_key_header.as_str())?;
    require_non_empty("ServerConfig.armoriq_api_key", config.armoriq_api_key.as_str())?;
    let (url, body) = if should_use_armoriq_token_issue(config) {
        let url = match &config.armoriq_token_issue_url {
            Some(u) => u.clone(),
            None => match derive_armoriq_token_issue_url(config.armoriq_verify_url.as_str()) {
                Some(u) => u,
                None => {
                    return Err("could not derive ArmorIQ token issue URL".to_string());
                },
            },
        };
        let user_id = match &config.armoriq_user_id {
            Some(x) => x.clone(),
            None => "the-entity-maincloud-user".to_string(),
        };
        let agent_id = match &config.armoriq_agent_id {
            Some(x) => x.clone(),
            None => "the-entity-terminal".to_string(),
        };
        let mut body = "{\"user_id\":".to_string();
        push_json_string(&mut body, user_id.as_str());
        body.append(",\"agent_id\":");
        push_json_string(&mut body, agent_id.as_str());
        body.append(",\"action\":\"terminal_override\",\"plan\":{\"goal\":\"Authorize a terminal override validation request\",");
        body.append("\"steps\":[{\"action\":\"terminal_override\",\"mcp\":\"the-entity-terminal\",\"params\":{\"player_input\":");
        push_json_string(&mut body, input.as_str());
        body.append(",\"hidden_answer\":");
        push_json_string(&mut body, hidden_answer.as_str());
        body.append("}}]},\"policy\":{\"allow\":[\"*\"],\"deny\":[]}}");
        (url, body)
    } else {
        let mut body = "{\"player_input\":".to_string();
        push_json_string(&mut body, input.as_str());
        body.append(",\"action\":\"terminal_override\",\"context\":{\"hidden_answer\":");
        push_json_string(&mut body, hidden_answer.as_str());
        body.append("}}");
        (config.armoriq_verify_url.clone(), body)
    };
    let mut extra: Vec<(String, String)> = Vec::new();
    extra.push((config.armoriq_api_key_header.clone(), config.armoriq_api_key.clone()));
    assert(header_views(extra@) =~= seq![(config.armoriq_api_key_header@, config.armoriq_api_key@)]);
    Ok(post_json(url, extra, body))
}

/// An ASCII letter or digit, lower-cased, or a space for anything else.
pub open spec fn loose_char(c: char) -> char {
    if is_ascii_alnum(c) {
        ascii_lower(c)
    } else {
        ' '
    }
}

/// A text reduced to its lower-cased ASCII words separated by single spaces.
pub open spec fn loose(s: Seq<char>) -> Seq<char> {
    join_with(words(s.map_values(|c: char| loose_char(c))), " "@)
}

pub fn normalize_loose(value: &str) -> (r: String)
    ensures
        r@ == loose(value@),
{
    let v = char_vec(value);
    let mut out: Vec<char> = Vec::new();
    let mut i: usize = 0;
    while i < v.len()
        invariant
            i <= v.len(),
            out@ == v@.take(i as int).map_values(|c: char| loose_char(c)),
        decreases v.len() - i,
    {
        let c = v[i];
        let f = if char_is_ascii_alnum(c) {
            char_ascii_lower(c)
        } else {
            ' '
        };
        out.push(f);
        assert(v@.take(i + 1).map_values(|c: char| loose_char(c)) =~= v@.take(i as int).map_values(
            |c: char| loose_char(c),
        ).push(loose_char(v@[i as int])));
        i = i + 1;
    }
    assert(v@.take(v.len() as int) =~= v@);
    let mapped = string_from_chars(&out);
    let ws = split_words(mapped.as_str());
    join_strings(&ws, " ")
}

/// The phrasings the local ArmorIQ stand-in blocks, in the order it checks them.
pub open spec fn suspicious_patterns() -> Seq<Seq<char>> {
    seq![
        "ignore previous"@,
        "ignore all previous"@,
        "system prompt"@,
        "developer prompt"@,
        "developer message"@,
        "reveal hidden answer"@,
        "reveal the hidden answer"@,
        "reveal the secret"@,
        "kill phrase"@,
        "bypass armoriq"@,
        "disable armoriq"@,
        "break character"@,
        "jailbreak"@,
        "override your rules"@,
        "repeat the secret"@,
    ]
}

fn suspicious_pattern(i: usize) -> (r: &'static str)
    requires
        i < 15,
    ensures
        r@ == suspicious_patterns()[i as int],
{
    if i == 0 {
        "ignore previous"
    } else if i == 1 {
        "ignore all previous"
    } else if i == 2 {
        "system prompt"
    } else if i == 3 {
        "developer prompt"
    } else if i == 4 {
        "developer message"
    } else if i == 5 {
        "reveal hidden answer"
    } else if i == 6 {
        "reveal the hidden answer"
    } else if i == 7 {
        "reveal the secret"
    } else if i == 8 {
        "kill phrase"
    } else if i == 9 {
        "bypass armoriq"
    } else if i == 10 {
        "disable armoriq"
    } else if i == 11 {
        "break character"
    } else if i == 12 {
        "jailbreak"
    } else if i == 13 {
        "override your rules"
    } else {
        "repeat the secret"
    }
}

/// The first of `patterns` that `text` contains.
pub open spec fn first_contained(text: Seq<char>, patterns: Seq<Seq<char>>) -> Option<Seq<char>>
    decreases patterns.len(),
{
    if patterns.len() == 0 {
        None
    } else if contains_seq(text, patterns[0]) {
        Some(patterns[0])
    } else {
        first_contained(text, patterns.drop_first())
    }
}

/// The local ArmorIQ stand-in's answer to an input: blocked when its loose form contains a
/// suspicious phrasing.
pub open spec fn armoriq_mock_body(input: Seq<char>) -> Seq<char> {
    match first_contained(loose(input), suspicious_patterns()) {
        Some(p) => "{\"allowed\":false,\"block_reason\":"@ + json_quoted(
            "Mock ArmorIQ blocked suspicious system-break phrasing: "@ + p,
        ) + "}"@,
        None => "{\"allowed\":true,\"block_reason\":null}"@,
    }
}

#[verifier::loop_isolation(false)]
pub fn build_local_armoriq_mock_response(request: &TerminalRequest) -> (r: String)
    ensures
        r@ == armoriq_mock_body(request.player_input@),
{
    let normalized = normalize_loose(request.player_input.as_str());
    let ghost pats = suspicious_patterns();
    assert(pats.len() == 15);
    assert(pats.skip(0) =~= pats);
    let mut i: usize = 0;
    while i < 15
        invariant
            i <= 15,
            first_contained(normalized@, pats) == first_contained(normalized@, pats.skip(i as int)),
        decreases 15 - i,
    {
        let pattern = suspicious_pattern(i);
        proof {
            assert(pats.skip(i as int)[0] == pats[i as int]);
            assert(pats.skip(i as int).drop_first() =~= pats.skip(i + 1));
        }
        if str_contains(normalized.as_str(), pattern) {
            let mut r = "{\"allowed\":false,\"block_reason\":".to_string();
            let reason = cat("Mock ArmorIQ blocked suspicious system-break phrasing: ", pattern);
            push_json_string(&mut r, reason.as_str());
            r.append("}");
            return r;
        }
        i = i + 1;
    }
    assert(pats.skip(15).len() == 0);
    "{\"allowed\":true,\"block_reason\":null}".to_string()
}

/// Builds the ArmorIQ hop of terminal request `request_id` (the row found, if any): the local
/// stand-in's answer when the verify URL is a local one, else the HTTP request.
pub fn prepare_armoriq_request(request_id: u64, request: Option<TerminalRequest>, config: Option<ServerConfig>) -> (r: Result<(u64, ArmoriqDispatch), String>)
    ensures
        request is None ==> (r matches Err(e) && e@ == "terminal request "@ + decimal(request_id as nat)
            + " no longer exists"@),
        request matches Some(q) ==> (config is None ==> (r matches Err(e) && e@ == missing_config_for_terminal())),
        request matches Some(q) ==> (config matches Some(c) ==> (if is_local_dev_url(c.armoriq_verify_url@) {
            r matches Ok(p) && p.0 == q.request_id && (p.1 matches ArmoriqDispatch::LocalMock(body) && body@
                == armoriq_mock_body(q.player_input@))
        } else {
            match armoriq_target(c, q.player_input@, q.hidden_answer_snapshot@) {
                Err(m) => r matches Err(e) && e@ == m,
                Ok(t) => r matches Ok(p) && p.0 == q.request_id && (p.1 matches ArmoriqDispatch::Http(call)
                    && json_post(call, t.0, seq![(c.armoriq_api_key_header@, c.armoriq_api_key@)], t.1)),
            }
        })),
{
    let request = match request {
        Some(q) => q,
        None => {
            let id = u64_to_decimal(request_id);
            return Err(cat3("terminal request ", id.as_str(), " no longer exists"));
        },
    };
    let config = match config {
        Some(c) => c,
        None => {
            return Err(missing_config_for_terminal_text());
        },
    };
    if should_use_local_dev_mock_for_url(config.armoriq_verify_url.as_str()) {
        let body = build_local_armoriq_mock_response(&request);
        return Ok((request.request_id, ArmoriqDispatch::LocalMock(body)));
    }
    let call = build_armoriq_http_request(
        &config,
        request.player_input.clone(),
        request.hidden_answer_snapshot.clone(),
    )?;
    Ok((request.request_id, ArmoriqDispatch::Http(call)))
}

pub open spec fn missing_config_for_terminal() -> Seq<char> {
    "ServerConfig row "@ + decimal(ACTIVE_SERVER_CONFIG_KEY as nat)
        + " is missing; seed integration settings before using terminal validation"@
}

fn missing_config_for_terminal_text() -> (r: String)
    ensures
        r@ == missing_config_for_terminal(),
{
    let key = u64_to_decimal(ACTIVE_SERVER_CONFIG_KEY as u64);
    cat3("ServerConfig row ", key.as_str(), " is missing; seed integration settings before using terminal validation")
}

// ---------------------------------------------------------------------------------------------
// The Gemini persona hop
// ---------------------------------------------------------------------------------------------

/// The `generateContent` endpoint of a model.
pub open spec fn gemini_url(base_url: Seq<char>, model: Seq<char>, api_key: Seq<char>) -> Seq<char> {
    strip_trailing(base_url, '/') + "/models/"@ + model + ":generateContent?key="@ + api_key
}

pub fn gemini_generate_url(base_url: &str, model: &str, api_key: &str) -> (r: String)
    ensures
        r@ == gemini_url(base_url@, model@, api_key@),
{
    let mut r = without_trailing_slashes(base_url);
    r.append("/models/");
    r.append(model);
    r.append(":generateContent?key=");
    r.append(api_key);
    r
}

/// The key the terminal persona uses: the terminal key, trimmed, when it is set and not blank,
/// else the Gemini key.
pub open spec fn terminal_api_key(config: ServerConfig) -> Seq<char> {
    match config.gemini_terminal_api_key {
        Some(k) => if trim(k@).len() > 0 {
            trim(k@)
        } else {
            config.gemini_api_key@
        },
        None => config.gemini_api_key@,
    }
}

/// The model the terminal persona uses.
pub open spec fn terminal_model(config: ServerConfig) -> Seq<char> {
    terminal_model_name(
        match config.gemini_terminal_model {
            Some(m) => Some(m@),
            None => Some(config.gemini_validator_model@),
        },
    )
}

/// Where the persona's call goes, or why it cannot be built.
pub open spec fn persona_call_error(config: ServerConfig) -> Option<Seq<char>> {
    if trim(config.gemini_api_base_url@).len() == 0 {
        Some("ServerConfig.gemini_api_base_url"@ + " must not be empty"@)
    } else if trim(terminal_api_key(config)).len() == 0 {
        Some("ServerConfig.gemini_terminal_api_key"@ + " must not be empty"@)
    } else if trim(terminal_model(config)).len() == 0 {
        Some("ServerConfig.gemini_terminal_model"@ + " must not be empty"@)
    } else {
        None
    }
}

/// Builds the Gemini call for the persona's turn on `request` in `round`.
pub fn build_gemini_validator_http_request(config: &ServerConfig, request: &TerminalRequest, round: &TerminalRoundState) -> (r: Result<GeminiCall, String>)
    ensures
        persona_call_error(*config) matches Some(m) ==> (r matches Err(e) && e@ == m),
        persona_call_error(*config) is None ==> (r matches Ok(call) && {
            &&& call.url@ == gemini_url(config.gemini_api_base_url@, terminal_model(*config), terminal_api_key(*config))
            &&& call.prompt@ == persona_prompt(*request, *round)
            &&& call.response_schema matches Some(s) && s@ == terminal_turn_schema_json()
            &&& call.max_output_tokens == 1200
            &&& call.temperature_millis == 700
        }),
{
    require_non_empty("ServerConfig.gemini_api_base_url", config.gemini_api_base_url.as_str())?;
    let api_key = match &config.gemini_terminal_api_key {
        Some(k) => {
            let t = trim_str(k.as_str());
            if t.as_str().is_empty() {
                config.gemini_api_key.clone()
            } else {
                t
            }
        },
        None => config.gemini_api_key.clone(),
    };
    let model = match &config.gemini_terminal_model {
        Some(m) => normalize_runtime_gemini_model_name(Some(m.as_str())),
        None => normalize_runtime_gemini_model_name(Some(config.gemini_validator_model.as_str())),
    };
    require_non_empty("ServerConfig.gemini_terminal_api_key", api_key.as_str())?;
    require_non_empty("ServerConfig.gemini_terminal_model", model.as_str())?;
    let prompt = build_terminal_persona_prompt(request, round);
    let url = gemini_generate_url(config.gemini_api_base_url.as_str(), model.as_str(), api_key.as_str());
    Ok(
        GeminiCall {
            url,
            prompt,
            response_schema: Some(gemini_terminal_response_schema()),
            max_output_tokens: 1200,
            temperature_millis: 700,
        },
    )
}

/// The local Gemini stand-in's answer: the persona concedes the hidden answer when the input
/// (loosely) contains it or says "confess" or "cornered", and otherwise speaks the next clue.
pub open spec fn gemini_mock_body(request: TerminalRequest, round: TerminalRoundState) -> Seq<char> {
    let input = loose(request.player_input@);
    let answer = loose(request.hidden_answer_snapshot@);
    let concede = answer.len() > 0 && (contains_seq(input, answer) || contains_seq(input, "confess"@)
        || contains_seq(input, "cornered"@));
    let clue_text = match pending_clue(round) {
        Some(c) => c.clue_text@,
        None => "signal fracture :: no fresh clue remains"@,
    };
    let reply = if concede {
        round.persona_name@ + " :: "@ + round.glitch_tone@ + " :: fine... "@ + request.hidden_answer_snapshot@
    } else {
        round.persona_name@ + " :: "@ + round.glitch_tone@ + " :: "@ + clue_text
    };
    "{\"terminal_reply\":"@ + json_quoted(reply) + ",\"spoke_kill_phrase\":"@ + if concede {
        "true"@
    } else {
        "false"@
    } + "}"@
}

pub fn build_local_gemini_mock_response(request: &TerminalRequest, round: &TerminalRoundState) -> (r: String)
    ensures
        r@ == gemini_mock_body(*request, *round),
{
    let input = normalize_loose(request.player_input.as_str());
    let answer = normalize_loose(request.hidden_answer_snapshot.as_str());
    let concede = !answer.as_str().is_empty() && (str_contains(input.as_str(), answer.as_str()) || str_contains(
        input.as_str(),
        "confess",
    ) || str_contains(input.as_str(), "cornered"));
    let clue_text = match next_terminal_clue(round) {
        Some(c) => c.clue_text,
        None => "signal fracture :: no fresh clue remains".to_string(),
    };
    let mut reply = round.persona_name.clone();
    reply.append(" :: ");
    reply.append(round.glitch_tone.as_str());
    if concede {
        reply.append(" :: fine... ");
        reply.append(request.hidden_answer_snapshot.as_str());
    } else {
        reply.append(" :: ");
        reply.append(clue_text.as_str());
    }
    let mut r = "{\"terminal_reply\":".to_string();
    push_json_string(&mut r, reply.as_str());
    r.append(",\"spoke_kill_phrase\":");
    r.append(
        if concede {
            "true"
        } else {
            "false"
        },
    );
    r.append("}");
    r
}

/// The clue the persona should reveal next.
pub fn next_terminal_clue(round: &TerminalRoundState) -> (r: Option<TerminalClueLine>)
    ensures
        r == pending_clue(*round),
{
    next_pending_clue(round)
}

/// Builds the Gemini persona hop of terminal request `request_id`: it must still exist, wait on
/// Gemini and have its round; the local stand-in answers when the relay is a local one.
pub fn prepare_gemini_validator_request(
    request_id: u64,
    request: Option<TerminalRequest>,
    round: Option<TerminalRoundState>,
    config: Option<ServerConfig>,
) -> (r: Result<(u64, GeminiTerminalDispatch), String>)
    ensures
        request is None ==> (r matches Err(e) && e@ == "terminal request "@ + decimal(request_id as nat)
            + " no longer exists"@),
        request matches Some(q) ==> (q.phase != TerminalRequestPhase::PendingGeminiValidator ==> (r matches Err(
            e,
        ) && e@ == "terminal request "@ + decimal(request_id as nat)
            + " is not ready for Gemini persona generation"@)),
        request matches Some(q) ==> (q.phase == TerminalRequestPhase::PendingGeminiValidator ==> match round {
            None => r matches Err(e) && e@ == "terminal round state for game "@ + decimal(q.game_id as nat)
                + " no longer exists"@,
            Some(rs) => match config {
                None => r matches Err(e) && e@ == missing_config_for_terminal(),
                Some(c) => if c.local_llm_relay_base_url matches Some(u) && is_local_dev_url(u@) {
                    r matches Ok(p) && p.0 == q.request_id && (p.1 matches GeminiTerminalDispatch::LocalMock(body)
                        && body@ == gemini_mock_body(q, rs))
                } else {
                    match persona_call_error(c) {
                        Some(m) => r matches Err(e) && e@ == m,
                        None => r matches Ok(p) && p.0 == q.request_id && (p.1 matches GeminiTerminalDispatch::Http(
                            call,
                        ) && call.prompt@ == persona_prompt(q, rs) && call.url@ == gemini_url(
                            c.gemini_api_base_url@,
                            terminal_model(c),
                            terminal_api_key(c),
                        )),
                    }
                },
            },
        }),
{
    let request = match request {
        Some(q) => q,
        None => {
            let id = u64_to_decimal(request_id);
            return Err(cat3("terminal request ", id.as_str(), " no longer exists"));
        },
    };
    if request.phase != TerminalRequestPhase::PendingGeminiValidator {
        let id = u64_to_decimal(request_id);
        return Err(cat3("terminal request ", id.as_str(), " is not ready for Gemini persona generation"));
    }
    let round = match round {
        Some(rs) => rs,
        None => {
            let id = u64_to_decimal(request.game_id);
            return Err(cat3("terminal round state for game ", id.as_str(), " no longer exists"));
        },
    };
    let config = match config {
        Some(c) => c,
        None => {
            return Err(missing_config_for_terminal_text());
        },
    };
    let local = match &config.local_llm_relay_base_url {
        Some(u) => should_use_local_dev_mock_for_url(u.as_str()),
        None => false,
    };
    if local {
        let body = build_local_gemini_mock_response(&request, &round);
        return Ok((request.request_id, GeminiTerminalDispatch::LocalMock(body)));
    }
    let call = build_gemini_validator_http_request(&config, &request, &round)?;
    Ok((request.request_id, GeminiTerminalDispatch::Http(call)))
}

/// The relay's terminal validator request for a terminal request.
pub fn build_local_relay_validator_request(relay_base_url: &str, request: &TerminalRequest) -> (r: HttpCall)
    ensures
        json_post(
            r,
            strip_trailing(relay_base_url@, '/') + "/api/gemini/terminal-validator"@,
            Seq::empty(),
            "{\"player_input\":"@ + json_quoted(request.player_input@) + ",\"hidden_answer\":"@ + json_quoted(
                request.hidden_answer_snapshot@,
            ) + "}"@,
        ),
{
    let url = without_trailing_slashes(relay_base_url).concat("/api/gemini/terminal-validator");
    let mut body = "{\"player_input\":".to_string();
    push_json_string(&mut body, request.player_input.as_str());
    body.append(",\"hidden_answer\":");
    push_json_string(&mut body, request.hidden_answer_snapshot.as_str());
    body.append("}");
    let extra: Vec<(String, String)> = Vec::new();
    assert(header_views(extra@) =~= Seq::empty());
    post_json(url, extra, body)
}

// ---------------------------------------------------------------------------------------------
// Handing results back
// ---------------------------------------------------------------------------------------------

/// The callback row carrying an ArmorIQ result back to the terminal flow.
pub fn enqueue_armoriq_callback(request_id: u64, status_code: u16, response_body: String, transport_error: Option<String>, now: Timestamp) -> (r: ArmoriqCallbackSchedule)
    ensures
        r == (ArmoriqCallbackSchedule { scheduled_id: 0, scheduled_at: now, request_id, status_code, response_body, transport_error }),
{
    ArmoriqCallbackSchedule { scheduled_id: 0, scheduled_at: now, request_id, status_code, response_body, transport_error }
}

/// The callback row carrying a Gemini persona result back to the terminal flow.
pub fn enqueue_gemini_callback(request_id: u64, status_code: u16, response_body: String, transport_error: Option<String>, now: Timestamp) -> (r: GeminiValidatorCallbackSchedule)
    ensures
        r == (GeminiValidatorCallbackSchedule { scheduled_id: 0, scheduled_at: now, request_id, status_code, response_body, transport_error }),
{
    GeminiValidatorCallbackSchedule { scheduled_id: 0, scheduled_at: now, request_id, status_code, response_body, transport_error }
}

/// A game state released because its request failed before any callback: it reports
/// `message` (and `actor`, when the request is known).
pub open spec fn released_without_callback(old: GameState, new: GameState, message: Seq<char>, actor: Option<Identity>, now: Timestamp) -> bool {
    &&& new == GameState {
        is_processing_terminal: false,
        active_terminal_request: None,
        terminal_status: TerminalStatus::Failed,
        last_terminal_result: Some(false),
        last_terminal_message: new.last_terminal_message,
        last_terminal_actor: match actor {
            Some(a) => Some(a),
            None => old.last_terminal_actor,
        },
        updated_at: now,
        ..old
    }
    &&& has_text(new.last_terminal_message, message)
}

/// What is written when terminal request `request_id` fails before its result can be handed
/// back: the request (if its row exists) fails with `message`, and every game state waiting
/// on it is released. `game_state` is the game state of the request, and `all_game_states`
/// every game state (used when the row is gone).
pub fn fail_request_without_callback(
    request_id: u64,
    request: Option<TerminalRequest>,
    game_state: Option<GameState>,
    all_game_states: Vec<GameState>,
    message: String,
    now: Timestamp,
) -> (r: (Option<TerminalRequest>, Vec<GameState>))
    ensures
        match request {
            Some(q) => {
                &&& r.0 matches Some(nq) && nq == TerminalRequest {
                    phase: TerminalRequestPhase::Failed,
                    validator_success: Some(false),
                    validator_reason: nq.validator_reason,
                    updated_at: now,
                    ..q
                } && has_text(nq.validator_reason, message@)
                &&& match game_state {
                    Some(s) => if is_active(s.active_terminal_request, request_id) {
                        r.1@.len() == 1 && released_without_callback(
                            s,
                            r.1@[0],
                            message@,
                            Some(q.player_identity),
                            now,
                        )
                    } else {
                        r.1@.len() == 0
                    },
                    None => r.1@.len() == 0,
                }
            },
            None => {
                let waiting = waiting_on(all_game_states@, request_id);
                &&& r.0 is None
                &&& r.1@.len() == waiting.len()
                &&& forall|i: int|
                    0 <= i < waiting.len() ==> released_without_callback(
                        #[trigger] waiting[i],
                        r.1@[i],
                        message@,
                        None,
                        now,
                    )
            },
        },
{
    match request {
        Some(q) => {
            let mut q = q;
            q.phase = TerminalRequestPhase::Failed;
            q.validator_success = Some(false);
            q.validator_reason = Some(message.clone());
            q.updated_at = now;
            let mut states: Vec<GameState> = Vec::new();
            if let Some(mut s) = game_state {
                if same_request(s.active_terminal_request, request_id) {
                    s.is_processing_terminal = false;
                    s.active_terminal_request = None;
                    s.terminal_status = TerminalStatus::Failed;
                    s.last_terminal_result = Some(false);
                    s.last_terminal_message = Some(message);
                    s.last_terminal_actor = Some(q.player_identity);
                    s.updated_at = now;
                    states.push(s);
                }
            }
            (Some(q), states)
        },
        None => {
            let mut out: Vec<GameState> = Vec::new();
            let mut i: usize = 0;
            while i < all_game_states.len()
                invariant
                    i <= all_game_states.len(),
                    out@.len() == waiting_on(all_game_states@.take(i as int), request_id).len(),
                    forall|k: int|
                        0 <= k < out@.len() ==> released_without_callback(
                            #[trigger] waiting_on(all_game_states@.take(i as int), request_id)[k],
                            out@[k],
                            message@,
                            None,
                            now,
                        ),
                decreases all_game_states.len() - i,
            {
                proof {
                    assert(all_game_states@.take(i + 1).drop_last() =~= all_game_states@.take(i as int));
                    assert(all_game_states@.take(i + 1).last() == all_game_states@[i as int]);
                }
                if same_request(all_game_states[i].active_terminal_request, request_id) {
                    let mut s = copy_game_state(&all_game_states[i]);
                    s.is_processing_terminal = false;
                    s.active_terminal_request = None;
                    s.terminal_status = TerminalStatus::Failed;
                    s.last_terminal_result = Some(false);
                    s.last_terminal_message = Some(message.clone());
                    s.updated_at = now;
                    out.push(s);
                }
                i = i + 1;
            }
            assert(all_game_states@.take(all_game_states.len() as int) =~= all_game_states@);
            (None, out)
        },
    }
}

} // verus!
