//! Administration: the module owner, and the integration settings for ArmorIQ, Gemini and
//! ElevenLabs that only the owner may change.
use vstd::prelude::*;

use crate::state::{
    ModuleOwner, ServerConfig, Timestamp, VoiceConfig, ACTIVE_SERVER_CONFIG_KEY,
    ACTIVE_VOICE_CONFIG_KEY, MODULE_OWNER_KEY,
};
use crate::terminal_rules::{
    blank_field_message, normalize_optional, optional_text, require_trimmed,
};
use crate::state::Identity;
use crate::text::{
    ascii_lower_seq, ascii_lowercase_str, cat, char_vec, decimal, ends_with_seq, occurs_at,
    starts_with_seq, str_ends_with, str_starts_with, string_from_range, trim, trim_str,
    u64_to_decimal, chars_occur_at, str_eq,
};

verus! {

broadcast use vstd::string::group_string_axioms;

// ---------------------------------------------------------------------------------------------
// Owner
// ---------------------------------------------------------------------------------------------

/// The owner row written at module initialization: the first caller becomes the owner, and an
/// existing owner is kept.
pub fn init(existing: Option<ModuleOwner>, sender: Identity, now: Timestamp) -> (r: Option<ModuleOwner>)
    ensures
        existing is Some ==> r is None,
        existing is None ==> r == Some(
            ModuleOwner { owner_key: MODULE_OWNER_KEY, owner_identity: sender, created_at: now },
        ),
{
    match existing {
        Some(_) => None,
        None => Some(ModuleOwner { owner_key: MODULE_OWNER_KEY, owner_identity: sender, created_at: now }),
    }
}

/// Whether `sender` may run the admin reducers.
pub open spec fn owner_check(owner: Option<ModuleOwner>, sender: Identity) -> Result<(), Seq<char>> {
    match owner {
        None => Err("module owner is not initialized; republish with clear to run init reducer"@),
        Some(o) => if o.owner_identity != sender {
            Err("only the module owner may call this reducer"@)
        } else {
            Ok(())
        },
    }
}

pub fn ensure_module_owner(owner: &Option<ModuleOwner>, sender: Identity) -> (r: Result<(), String>)
    ensures
        owner_check(*owner, sender) is Ok <==> r is Ok,
        owner_check(*owner, sender) matches Err(m) ==> (r matches Err(e) && e@ == m),
{
    match owner {
        None => Err("module owner is not initialized; republish with clear to run init reducer".to_string()),
        Some(o) => {
            if o.owner_identity != sender {
                return Err("only the module owner may call this reducer".to_string());
            }
            Ok(())
        },
    }
}

// ---------------------------------------------------------------------------------------------
// Model names and URLs
// ---------------------------------------------------------------------------------------------

/// `s` without every leading copy of `p` (`str::trim_start_matches` with a string pattern).
pub open spec fn strip_prefixes(s: Seq<char>, p: Seq<char>) -> Seq<char>
    decreases s.len(),
{
    if p.len() > 0 && starts_with_seq(s, p) {
        strip_prefixes(s.skip(p.len() as int), p)
    } else {
        s
    }
}

/// `s` without its trailing `c` characters (`str::trim_end_matches` with a character).
pub open spec fn strip_trailing(s: Seq<char>, c: char) -> Seq<char>
    decreases s.len(),
{
    if s.len() > 0 && s.last() == c {
        strip_trailing(s.drop_last(), c)
    } else {
        s
    }
}

/// The Gemini model the terminal uses: the given name (trimmed, without `models/` prefixes), or
/// `gemini-2.5-flash` when none is given or a `gemini-3.0` model is named.
pub open spec fn terminal_model_name(model: Option<Seq<char>>) -> Seq<char> {
    let candidate = match model {
        Some(m) => if trim(m).len() > 0 {
            strip_prefixes(trim(m), "models/"@)
        } else {
            strip_prefixes("gemini-2.5-flash"@, "models/"@)
        },
        None => strip_prefixes("gemini-2.5-flash"@, "models/"@),
    };
    if starts_with_seq(ascii_lower_seq(candidate), "gemini-3.0"@) {
        "gemini-2.5-flash"@
    } else {
        candidate
    }
}

fn strip_prefix_copies(v: &Vec<char>, p: &Vec<char>) -> (r: usize)
    ensures
        r <= v.len(),
        v@.skip(r as int) == strip_prefixes(v@, p@),
{
    let mut i: usize = 0;
    assert(v@.skip(0) =~= v@);
    while p.len() > 0 && chars_occur_at(v, p, i)
        invariant
            i <= v.len(),
            strip_prefixes(v@, p@) == strip_prefixes(v@.skip(i as int), p@),
        decreases v.len() - i,
    {
        proof {
            assert(v@.skip(i as int).subrange(0, p@.len() as int) =~= v@.subrange(i as int, i + p@.len()));
            assert(v@.skip(i as int).skip(p@.len() as int) =~= v@.skip(i + p@.len()));
        }
        i = i + p.len();
    }
    proof {
        if p@.len() > 0 && starts_with_seq(v@.skip(i as int), p@) {
            assert(v@.skip(i as int).subrange(0, p@.len() as int) =~= v@.subrange(i as int, i + p@.len()));
        }
    }
    i
}

pub fn normalize_terminal_gemini_model_name(model: Option<&str>) -> (r: String)
    ensures
        r@ == terminal_model_name(match model {
            Some(m) => Some(m@),
            None => None,
        }),
{
    let base = match model {
        Some(m) => {
            let t = trim_str(m);
            if t.as_str().is_empty() {
                "gemini-2.5-flash".to_string()
            } else {
                t
            }
        },
        None => "gemini-2.5-flash".to_string(),
    };
    let v = char_vec(base.as_str());
    let p = char_vec("models/");
    let start = strip_prefix_copies(&v, &p);
    let candidate = string_from_range(&v, start, v.len());
    proof {
        assert(v@.subrange(start as int, v@.len() as int) =~= v@.skip(start as int));
    }
    let lowered = ascii_lowercase_str(candidate.as_str());
    if str_starts_with(lowered.as_str(), "gemini-3.0") {
        "gemini-2.5-flash".to_string()
    } else {
        candidate
    }
}

/// The model used at request time; the same rule as `normalize_terminal_gemini_model_name`.
pub fn normalize_runtime_gemini_model_name(model: Option<&str>) -> (r: String)
    ensures
        r@ == terminal_model_name(match model {
            Some(m) => Some(m@),
            None => None,
        }),
{
    normalize_terminal_gemini_model_name(model)
}

/// The position of the first occurrence of `p` in `s` at or after `i`.
pub open spec fn find_from(s: Seq<char>, p: Seq<char>, i: int) -> Option<int>
    decreases s.len() + 1 - i,
{
    if i < 0 || i + p.len() > s.len() {
        None
    } else if occurs_at(s, p, i) {
        Some(i)
    } else {
        find_from(s, p, i + 1)
    }
}

fn find_chars(v: &Vec<char>, p: &Vec<char>) -> (r: Option<usize>)
    ensures
        r matches Some(i) ==> find_from(v@, p@, 0) == Some(i as int) && i + p.len() <= v.len(),
        r is None ==> find_from(v@, p@, 0) is None,
{
    if p.len() > v.len() {
        return None;
    }
    let last = v.len() - p.len();
    let mut i: usize = 0;
    while i <= last
        invariant_except_break
            last + p.len() == v.len(),
            i <= last,
            find_from(v@, p@, 0) == find_from(v@, p@, i as int),
        ensures
            find_from(v@, p@, 0) is None,
        decreases last - i,
    {
        if chars_occur_at(v, p, i) {
            return Some(i);
        }
        if i == last {
            assert(find_from(v@, p@, i + 1) is None);
            break;
        }
        i = i + 1;
    }
    None
}

fn strip_trailing_len(v: &Vec<char>, end: usize, c: char) -> (r: usize)
    requires
        end <= v.len(),
    ensures
        r <= end,
        v@.subrange(0, r as int) == strip_trailing(v@.subrange(0, end as int), c),
{
    let mut j = end;
    while j > 0 && v[j - 1] == c
        invariant
            j <= end <= v.len(),
            strip_trailing(v@.subrange(0, end as int), c) == strip_trailing(v@.subrange(0, j as int), c),
        decreases j,
    {
        assert(v@.subrange(0, j as int).drop_last() =~= v@.subrange(0, j - 1));
        j = j - 1;
    }
    j
}

/// `s` without its trailing slashes (`str::trim_end_matches('/')`).
pub fn without_trailing_slashes(s: &str) -> (r: String)
    ensures
        r@ == strip_trailing(s@, '/'),
{
    let v = char_vec(s);
    let cut = strip_trailing_len(&v, v.len(), '/');
    proof {
        assert(v@.subrange(0, v@.len() as int) =~= v@);
    }
    string_from_range(&v, 0, cut)
}

/// The ArmorIQ token-issue endpoint that goes with a verify endpoint.
pub open spec fn token_issue_url_for(verify_url: Seq<char>) -> Option<Seq<char>> {
    let t = trim(verify_url);
    if t.len() == 0 {
        None
    } else if ends_with_seq(t, "/token/issue"@) {
        Some(t)
    } else {
        match find_from(t, "/verify"@, 0) {
            Some(i) => Some(strip_trailing(t.subrange(0, i), '/') + "/token/issue"@),
            None => Some(strip_trailing(t, '/') + "/token/issue"@),
        }
    }
}

pub fn derive_armoriq_token_issue_url(verify_url: &str) -> (r: Option<String>)
    ensures
        r matches Some(u) ==> token_issue_url_for(verify_url@) == Some(u@),
        r is None ==> token_issue_url_for(verify_url@) is None,
{
    let trimmed = trim_str(verify_url);
    if trimmed.as_str().is_empty() {
        return None;
    }
    if str_ends_with(trimmed.as_str(), "/token/issue") {
        return Some(trimmed);
    }
    let v = char_vec(trimmed.as_str());
    let marker = char_vec("/verify");
    let end = match find_chars(&v, &marker) {
        Some(i) => i,
        None => v.len(),
    };
    let cut = strip_trailing_len(&v, end, '/');
    let base = string_from_range(&v, 0, cut);
    proof {
        assert(v@.subrange(0, v@.len() as int) =~= v@);
    }
    Some(base.concat("/token/issue"))
}

// ---------------------------------------------------------------------------------------------
// Integration settings
// ---------------------------------------------------------------------------------------------

/// The message for a configuration reducer that needs the server configuration row.
pub open spec fn missing_server_config_message() -> Seq<char> {
    "ServerConfig row "@ + decimal(ACTIVE_SERVER_CONFIG_KEY as nat)
        + " is missing; configure integrations first"@
}

fn missing_server_config() -> (e: String)
    ensures
        e@ == missing_server_config_message(),
{
    let key = u64_to_decimal(ACTIVE_SERVER_CONFIG_KEY as u64);
    let mut e = "ServerConfig row ".to_string();
    e.append(key.as_str());
    e.append(" is missing; configure integrations first");
    e
}

/// The first error of `configure_integrations`, in the order the arguments are checked.
pub open spec fn integrations_error(
    owner: Option<ModuleOwner>,
    sender: Identity,
    armoriq_verify_url: Seq<char>,
    armoriq_api_key_header: Seq<char>,
    armoriq_api_key: Seq<char>,
    relay: Option<Seq<char>>,
    gemini_api_base_url: Seq<char>,
    gemini_api_key: Seq<char>,
    gemini_validator_model: Seq<char>,
    gemini_clue_generator_model: Seq<char>,
    gemini_villain_model: Seq<char>,
) -> Option<Seq<char>> {
    if owner_check(owner, sender) is Err {
        Some(owner_check(owner, sender)->Err_0)
    } else if trim(armoriq_verify_url).len() == 0 {
        Some(blank_field_message("armoriq_verify_url"@))
    } else if trim(armoriq_api_key_header).len() == 0 {
        Some(blank_field_message("armoriq_api_key_header"@))
    } else if trim(armoriq_api_key).len() == 0 {
        Some(blank_field_message("armoriq_api_key"@))
    } else if trim(gemini_validator_model).len() == 0 {
        Some(blank_field_message("gemini_validator_model"@))
    } else if trim(gemini_clue_generator_model).len() == 0 {
        Some(blank_field_message("gemini_clue_generator_model"@))
    } else if trim(gemini_villain_model).len() == 0 {
        Some(blank_field_message("gemini_villain_model"@))
    } else if relay is None && trim(gemini_api_base_url).len() == 0 {
        Some(blank_field_message("gemini_api_base_url"@))
    } else if relay is None && trim(gemini_api_key).len() == 0 {
        Some(blank_field_message("gemini_api_key"@))
    } else {
        None
    }
}

/// Stores the ArmorIQ and Gemini settings. With a local relay, the Gemini base URL and key may
/// be blank and no token-issue URL is derived; otherwise they are required and the token-issue
/// URL is derived from the verify URL. The terminal uses the validator model and the Gemini key.
#[verifier::loop_isolation(false)]
pub fn configure_integrations(
    owner: &Option<ModuleOwner>,
    sender: Identity,
    armoriq_verify_url: String,
    armoriq_api_key_header: String,
    armoriq_api_key: String,
    local_llm_relay_base_url: Option<String>,
    gemini_api_base_url: String,
    gemini_api_key: String,
    gemini_validator_model: String,
    gemini_clue_generator_model: String,
    gemini_villain_model: String,
) -> (r: Result<ServerConfig, String>)
    ensures
        ({
            let relay = optional_text(local_llm_relay_base_url);
            let err = integrations_error(
                *owner,
                sender,
                armoriq_verify_url@,
                armoriq_api_key_header@,
                armoriq_api_key@,
                relay,
                gemini_api_base_url@,
                gemini_api_key@,
                gemini_validator_model@,
                gemini_clue_generator_model@,
                gemini_villain_model@,
            );
            &&& err matches Some(m) ==> (r matches Err(e) && e@ == m)
            &&& err is None ==> (r matches Ok(c) && {
                let key = if relay is Some && trim(gemini_api_key@).len() == 0 {
                    Seq::<char>::empty()
                } else {
                    trim(gemini_api_key@)
                };
                &&& c.config_key == ACTIVE_SERVER_CONFIG_KEY
                &&& c.armoriq_verify_url@ == trim(armoriq_verify_url@)
                &&& c.armoriq_api_key_header@ == trim(armoriq_api_key_header@)
                &&& c.armoriq_api_key@ == trim(armoriq_api_key@)
                &&& optional_text(local_llm_relay_base_url) == match c.local_llm_relay_base_url {
                    Some(u) => Some(u@),
                    None => None,
                }
                &&& c.gemini_api_base_url@ == (if relay is Some && trim(gemini_api_base_url@).len()
                    == 0 {
                    Seq::<char>::empty()
                } else {
                    trim(gemini_api_base_url@)
                })
                &&& c.gemini_api_key@ == key
                &&& c.gemini_validator_model@ == trim(gemini_validator_model@)
                &&& c.gemini_clue_generator_model@ == trim(gemini_clue_generator_model@)
                &&& c.gemini_villain_model@ == trim(gemini_villain_model@)
                &&& c.gemini_terminal_api_key matches Some(k) && k@ == key
                &&& c.gemini_terminal_model matches Some(m) && m@ == terminal_model_name(
                    Some(trim(gemini_validator_model@)),
                )
                &&& (relay is Some ==> c.armoriq_token_issue_url is None)
                &&& (relay is None ==> match c.armoriq_token_issue_url {
                    Some(u) => token_issue_url_for(trim(armoriq_verify_url@)) == Some(u@),
                    None => token_issue_url_for(trim(armoriq_verify_url@)) is None,
                })
                &&& c.armoriq_user_id matches Some(u) && u@ == "the-entity-maincloud-user"@
                &&& c.armoriq_agent_id matches Some(a) && a@ == "the-entity-terminal"@
            })
        }),
{
    ensure_module_owner(owner, sender)?;
    let verify_url = require_trimmed("armoriq_verify_url", armoriq_verify_url)?;
    let api_key_header = require_trimmed("armoriq_api_key_header", armoriq_api_key_header)?;
    let api_key = require_trimmed("armoriq_api_key", armoriq_api_key)?;
    let validator_model = require_trimmed("gemini_validator_model", gemini_validator_model)?;
    let clue_model = require_trimmed("gemini_clue_generator_model", gemini_clue_generator_model)?;
    let villain_model = require_trimmed("gemini_villain_model", gemini_villain_model)?;
    let terminal_model = normalize_terminal_gemini_model_name(Some(validator_model.as_str()));

    let relay_base_url = normalize_optional(local_llm_relay_base_url);
    let armoriq_token_issue_url = if relay_base_url.is_some() {
        None
    } else {
        derive_armoriq_token_issue_url(verify_url.as_str())
    };
    let gemini_base = if relay_base_url.is_some() {
        match normalize_optional(Some(gemini_api_base_url)) {
            Some(b) => b,
            None => String::new(),
        }
    } else {
        require_trimmed("gemini_api_base_url", gemini_api_base_url)?
    };
    let gemini_key = if relay_base_url.is_some() {
        match normalize_optional(Some(gemini_api_key)) {
            Some(k) => k,
            None => String::new(),
        }
    } else {
        require_trimmed("gemini_api_key", gemini_api_key)?
    };
    let terminal_key = gemini_key.clone();
    Ok(
        ServerConfig {
            config_key: ACTIVE_SERVER_CONFIG_KEY,
            armoriq_verify_url: verify_url,
            armoriq_api_key_header: api_key_header,
            armoriq_api_key: api_key,
            local_llm_relay_base_url: relay_base_url,
            gemini_api_base_url: gemini_base,
            gemini_api_key: gemini_key,
            gemini_validator_model: validator_model,
            gemini_clue_generator_model: clue_model,
            gemini_villain_model: villain_model,
            gemini_terminal_api_key: Some(terminal_key),
            gemini_terminal_model: Some(terminal_model),
            armoriq_token_issue_url,
            armoriq_user_id: Some("the-entity-maincloud-user".to_string()),
            armoriq_agent_id: Some("the-entity-terminal".to_string()),
        },
    )
}

/// Points ArmorIQ and the terminal at a local relay, with development defaults elsewhere.
pub fn configure_local_dev_integrations(
    owner: &Option<ModuleOwner>,
    sender: Identity,
    relay_base_url: String,
    armoriq_api_key: String,
) -> (r: Result<ServerConfig, String>)
    ensures
        owner_check(*owner, sender) matches Err(m) ==> (r matches Err(e) && e@ == m),
        owner_check(*owner, sender) is Ok && trim(relay_base_url@).len() == 0 ==> (r matches Err(e)
            && e@ == blank_field_message("relay_base_url"@)),
        owner_check(*owner, sender) is Ok && trim(relay_base_url@).len() > 0 ==> (r matches Ok(c)
            && {
            &&& c.config_key == ACTIVE_SERVER_CONFIG_KEY
            &&& c.armoriq_verify_url@ == strip_trailing(trim(relay_base_url@), '/')
                + "/api/armoriq/verify"@
            &&& c.armoriq_api_key_header@ == "x-api-key"@
            &&& c.armoriq_api_key@ == (if trim(armoriq_api_key@).len() > 0 {
                trim(armoriq_api_key@)
            } else {
                "dev-armoriq-key"@
            })
            &&& c.local_llm_relay_base_url matches Some(u) && u@ == trim(relay_base_url@)
            &&& c.gemini_api_base_url@ == "https://generativelanguage.googleapis.com/v1beta"@
            &&& c.gemini_api_key@.len() == 0
            &&& c.gemini_validator_model@ == "gemini-2.5-flash"@
            &&& c.gemini_clue_generator_model@ == "gemini-2.5-flash"@
            &&& c.gemini_villain_model@ == "gemini-2.5-flash"@
            &&& c.gemini_terminal_api_key is None
            &&& c.gemini_terminal_model matches Some(m) && m@ == "gemini-2.5-flash"@
            &&& c.armoriq_token_issue_url is None
            &&& c.armoriq_user_id matches Some(u) && u@ == "the-entity-local-user"@
            &&& c.armoriq_agent_id matches Some(a) && a@ == "the-entity-relay"@
        }),
{
    ensure_module_owner(owner, sender)?;
    let relay_base = require_trimmed("relay_base_url", relay_base_url)?;
    let api_key = crate::terminal_rules::normalize_dev_api_key(armoriq_api_key);
    let v = char_vec(relay_base.as_str());
    let cut = strip_trailing_len(&v, v.len(), '/');
    proof {
        assert(v@.subrange(0, v@.len() as int) =~= v@);
    }
    let base = string_from_range(&v, 0, cut);
    let verify_url = base.concat("/api/armoriq/verify");
    Ok(
        ServerConfig {
            config_key: ACTIVE_SERVER_CONFIG_KEY,
            armoriq_verify_url: verify_url,
            armoriq_api_key_header: "x-api-key".to_string(),
            armoriq_api_key: api_key,
            local_llm_relay_base_url: Some(relay_base),
            gemini_api_base_url: "https://generativelanguage.googleapis.com/v1beta".to_string(),
            gemini_api_key: String::new(),
            gemini_validator_model: "gemini-2.5-flash".to_string(),
            gemini_clue_generator_model: "gemini-2.5-flash".to_string(),
            gemini_villain_model: "gemini-2.5-flash".to_string(),
            gemini_terminal_api_key: None,
            gemini_terminal_model: Some("gemini-2.5-flash".to_string()),
            armoriq_token_issue_url: None,
            armoriq_user_id: Some("the-entity-local-user".to_string()),
            armoriq_agent_id: Some("the-entity-relay".to_string()),
        },
    )
}

/// Sets the Gemini key and model the terminal uses.
pub fn configure_terminal_gemini(
    owner: &Option<ModuleOwner>,
    sender: Identity,
    config: Option<ServerConfig>,
    gemini_terminal_api_key: String,
    gemini_terminal_model: String,
) -> (r: Result<ServerConfig, String>)
    ensures
        owner_check(*owner, sender) matches Err(m) ==> (r matches Err(e) && e@ == m),
        owner_check(*owner, sender) is Ok && config is None ==> (r matches Err(e) && e@
            == missing_server_config_message()),
        owner_check(*owner, sender) is Ok && config is Some && trim(gemini_terminal_api_key@).len()
            == 0 ==> (r matches Err(e) && e@ == blank_field_message("gemini_terminal_api_key"@)),
        owner_check(*owner, sender) is Ok && config is Some && trim(gemini_terminal_api_key@).len()
            > 0 && trim(gemini_terminal_model@).len() == 0 ==> (r matches Err(e) && e@
            == blank_field_message("gemini_terminal_model"@)),
        owner_check(*owner, sender) is Ok && config is Some && trim(gemini_terminal_api_key@).len()
            > 0 && trim(gemini_terminal_model@).len() > 0 ==> (r matches Ok(c) && c == ServerConfig {
            gemini_terminal_api_key: c.gemini_terminal_api_key,
            gemini_terminal_model: c.gemini_terminal_model,
            ..config->0
        } && crate::state::has_text(c.gemini_terminal_api_key, trim(gemini_terminal_api_key@))
            && crate::state::has_text(
            c.gemini_terminal_model,
            terminal_model_name(Some(trim(gemini_terminal_model@))),
        )),
{
    ensure_module_owner(owner, sender)?;
    let mut config = match config {
        Some(c) => c,
        None => {
            return Err(missing_server_config());
        },
    };
    let key = require_trimmed("gemini_terminal_api_key", gemini_terminal_api_key)?;
    let model = require_trimmed("gemini_terminal_model", gemini_terminal_model)?;
    config.gemini_terminal_api_key = Some(key);
    config.gemini_terminal_model = Some(normalize_terminal_gemini_model_name(Some(model.as_str())));
    Ok(config)
}

/// Sets the ArmorIQ token-issue endpoint and the optional user and agent ids.
pub fn configure_armoriq_upstream(
    owner: &Option<ModuleOwner>,
    sender: Identity,
    config: Option<ServerConfig>,
    armoriq_token_issue_url: String,
    armoriq_user_id: Option<String>,
    armoriq_agent_id: Option<String>,
) -> (r: Result<ServerConfig, String>)
    ensures
        owner_check(*owner, sender) matches Err(m) ==> (r matches Err(e) && e@ == m),
        owner_check(*owner, sender) is Ok && config is None ==> (r matches Err(e) && e@
            == missing_server_config_message()),
        owner_check(*owner, sender) is Ok && config is Some && trim(armoriq_token_issue_url@).len()
            == 0 ==> (r matches Err(e) && e@ == blank_field_message("armoriq_token_issue_url"@)),
        owner_check(*owner, sender) is Ok && config is Some && trim(armoriq_token_issue_url@).len()
            > 0 ==> (r matches Ok(c) && c == ServerConfig {
            armoriq_token_issue_url: c.armoriq_token_issue_url,
            armoriq_user_id: c.armoriq_user_id,
            armoriq_agent_id: c.armoriq_agent_id,
            ..config->0
        } && crate::state::has_text(c.armoriq_token_issue_url, trim(armoriq_token_issue_url@))
            && optional_text(armoriq_user_id) == match c.armoriq_user_id {
            Some(u) => Some(u@),
            None => None,
        } && optional_text(armoriq_agent_id) == match c.armoriq_agent_id {
            Some(a) => Some(a@),
            None => None,
        }),
{
    ensure_module_owner(owner, sender)?;
    let mut config = match config {
        Some(c) => c,
        None => {
            return Err(missing_server_config());
        },
    };
    let url = require_trimmed("armoriq_token_issue_url", armoriq_token_issue_url)?;
    config.armoriq_token_issue_url = Some(url);
    config.armoriq_user_id = normalize_optional(armoriq_user_id);
    config.armoriq_agent_id = normalize_optional(armoriq_agent_id);
    Ok(config)
}

/// The terminal settings a stored configuration should have: a terminal key (falling back to the
/// Gemini key when blank) and a normalized terminal model (falling back to the validator model).
/// `None` when the row already has them.
pub open spec fn runtime_terminal_config(config: Option<ServerConfig>, r: Option<ServerConfig>) -> bool {
    &&& config is None ==> r is None
    &&& config matches Some(c) ==> {
        let key_missing = match c.gemini_terminal_api_key {
            Some(k) => trim(k@).len() == 0,
            None => true,
        };
        let fill_key = key_missing && trim(c.gemini_api_key@).len() > 0;
        let model = terminal_model_name(match c.gemini_terminal_model {
            Some(m) => Some(m@),
            None => Some(c.gemini_validator_model@),
        });
        let model_ok = match c.gemini_terminal_model {
            Some(m) => trim(m@) == model,
            None => false,
        };
        &&& (!fill_key && model_ok) ==> r is None
        &&& (fill_key || !model_ok) ==> (r matches Some(n) && n == ServerConfig {
            gemini_terminal_api_key: n.gemini_terminal_api_key,
            gemini_terminal_model: n.gemini_terminal_model,
            ..c
        } && (fill_key ==> crate::state::has_text(n.gemini_terminal_api_key, trim(c.gemini_api_key@)))
            && (!fill_key ==> n.gemini_terminal_api_key == c.gemini_terminal_api_key)
            && (!model_ok ==> crate::state::has_text(n.gemini_terminal_model, model))
            && (model_ok ==> n.gemini_terminal_model == c.gemini_terminal_model))
    }
}

/// Brings a stored configuration's terminal settings up to date.
pub fn ensure_runtime_terminal_gemini_config(config: Option<ServerConfig>) -> (r: Option<ServerConfig>)
    ensures
        runtime_terminal_config(config, r),
{
    let mut config = match config {
        Some(c) => c,
        None => {
            return None;
        },
    };
    let mut changed = false;
    let key_missing = match &config.gemini_terminal_api_key {
        Some(k) => crate::text::is_blank(k.as_str()),
        None => true,
    };
    if key_missing && !crate::text::is_blank(config.gemini_api_key.as_str()) {
        config.gemini_terminal_api_key = Some(trim_str(config.gemini_api_key.as_str()));
        changed = true;
    }
    let normalized_model = match &config.gemini_terminal_model {
        Some(m) => normalize_terminal_gemini_model_name(Some(m.as_str())),
        None => normalize_terminal_gemini_model_name(Some(config.gemini_validator_model.as_str())),
    };
    let model_ok = match &config.gemini_terminal_model {
        Some(m) => {
            let t = trim_str(m.as_str());
            str_eq(t.as_str(), normalized_model.as_str())
        },
        None => false,
    };
    if !model_ok {
        config.gemini_terminal_model = Some(normalized_model);
        changed = true;
    }
    if changed {
        Some(config)
    } else {
        None
    }
}

/// Stores the ElevenLabs settings; every field is required.
pub fn configure_voice_integrations(
    owner: &Option<ModuleOwner>,
    sender: Identity,
    elevenlabs_api_base_url: String,
    elevenlabs_api_key: String,
    elevenlabs_default_voice_id: String,
    elevenlabs_default_model_id: String,
) -> (r: Result<VoiceConfig, String>)
    ensures
        owner_check(*owner, sender) matches Err(m) ==> (r matches Err(e) && e@ == m),
        owner_check(*owner, sender) is Ok ==> {
            &&& trim(elevenlabs_api_base_url@).len() == 0 ==> (r matches Err(e) && e@
                == blank_field_message("elevenlabs_api_base_url"@))
            &&& trim(elevenlabs_api_base_url@).len() > 0 && trim(elevenlabs_api_key@).len() == 0
                ==> (r matches Err(e) && e@ == blank_field_message("elevenlabs_api_key"@))
            &&& trim(elevenlabs_api_base_url@).len() > 0 && trim(elevenlabs_api_key@).len() > 0
                && trim(elevenlabs_default_voice_id@).len() == 0 ==> (r matches Err(e) && e@
                == blank_field_message("elevenlabs_default_voice_id"@))
            &&& trim(elevenlabs_api_base_url@).len() > 0 && trim(elevenlabs_api_key@).len() > 0
                && trim(elevenlabs_default_voice_id@).len() > 0 && trim(
                elevenlabs_default_model_id@,
            ).len() == 0 ==> (r matches Err(e) && e@ == blank_field_message(
                "elevenlabs_default_model_id"@,
            ))
            &&& trim(elevenlabs_api_base_url@).len() > 0 && trim(elevenlabs_api_key@).len() > 0
                && trim(elevenlabs_default_voice_id@).len() > 0 && trim(
                elevenlabs_default_model_id@,
            ).len() > 0 ==> (r matches Ok(c) && c.config_key == ACTIVE_VOICE_CONFIG_KEY
                && c.elevenlabs_api_base_url@ == trim(elevenlabs_api_base_url@)
                && c.elevenlabs_api_key@ == trim(elevenlabs_api_key@)
                && c.elevenlabs_default_voice_id@ == trim(elevenlabs_default_voice_id@)
                && c.elevenlabs_default_model_id@ == trim(elevenlabs_default_model_id@))
        },
{
    ensure_module_owner(owner, sender)?;
    let base = require_trimmed("elevenlabs_api_base_url", elevenlabs_api_base_url)?;
    let key = require_trimmed("elevenlabs_api_key", elevenlabs_api_key)?;
    let voice = require_trimmed("elevenlabs_default_voice_id", elevenlabs_default_voice_id)?;
    let model = require_trimmed("elevenlabs_default_model_id", elevenlabs_default_model_id)?;
    Ok(
        VoiceConfig {
            config_key: ACTIVE_VOICE_CONFIG_KEY,
            elevenlabs_api_base_url: base,
            elevenlabs_api_key: key,
            elevenlabs_default_voice_id: voice,
            elevenlabs_default_model_id: model,
        },
    )
}

/// Whether speech can be synthesized: a voice configuration exists and none of its fields is
/// blank.
pub open spec fn voice_ready(config: Option<VoiceConfig>) -> bool {
    match config {
        Some(c) => trim(c.elevenlabs_api_base_url@).len() > 0 && trim(c.elevenlabs_api_key@).len()
            > 0 && trim(c.elevenlabs_default_voice_id@).len() > 0 && trim(
            c.elevenlabs_default_model_id@,
        ).len() > 0,
        None => false,
    }
}

pub fn voice_config_ready(config: &Option<VoiceConfig>) -> (r: bool)
    ensures
        r == voice_ready(*config),
{
    match config {
        Some(c) => !crate::text::is_blank(c.elevenlabs_api_base_url.as_str())
            && !crate::text::is_blank(c.elevenlabs_api_key.as_str()) && !crate::text::is_blank(
            c.elevenlabs_default_voice_id.as_str(),
        ) && !crate::text::is_blank(c.elevenlabs_default_model_id.as_str()),
        None => false,
    }
}

} // verus!
