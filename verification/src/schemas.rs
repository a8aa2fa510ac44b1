//! The JSON schemas the generation requests ask Gemini to follow, written as JSON text in the
//! order of their members.
use vstd::prelude::*;

use crate::json::{json_quoted, push_json_string};

verus! {

broadcast use vstd::string::group_string_axioms;

/// The JSON schema of a planned round 1 manual record whose id field is `id_key`.
pub open spec fn blueprint_schema_json(id_key: Seq<char>) -> Seq<char> {
    "{\"type\":\"object\",\"properties\":{"@ + json_quoted(id_key) + ":"@
        + "{\"type\":\"string\"},\"title\":{\"type\":\"string\"},\"purpose\":{\"type\":\"string\",\"minLength\":30},"@
        + "\"linked_clue_ids\":{\"type\":\"array\",\"minItems\":1,\"items\":{\"type\":\"string\"}},"@
        + "\"hidden_phrase_function\":{\"type\":\"string\",\"minLength\":40}},\"required\":["@
        + json_quoted(id_key)
        + ",\"title\",\"purpose\",\"linked_clue_ids\",\"hidden_phrase_function\"]}"@
}

pub fn round_one_manual_section_blueprint_schema(id_key: &str) -> (r: String)
    ensures
        r@ == blueprint_schema_json(id_key@),
{
    let mut r = String::new();
    r.append("{\"type\":\"object\",\"properties\":{");
    push_json_string(&mut r, id_key);
    r.append(":");
    r.append("{\"type\":\"string\"},\"title\":{\"type\":\"string\"},\"purpose\":{\"type\":\"string\",\"minLength\":30},");
    r.append("\"linked_clue_ids\":{\"type\":\"array\",\"minItems\":1,\"items\":{\"type\":\"string\"}},");
    r.append("\"hidden_phrase_function\":{\"type\":\"string\",\"minLength\":40}},\"required\":[");
    push_json_string(&mut r, id_key);
    r.append(",\"title\",\"purpose\",\"linked_clue_ids\",\"hidden_phrase_function\"]}");
    r
}

/// The JSON schema of a round 1 clue.
pub open spec fn clue_schema_json() -> Seq<char> {
    "{\"type\":\"object\",\"properties\":{\"clue_id\":{\"type\":\"string\"},"@
        + "\"clue_type\":{\"type\":\"string\"},\"clue_text\":{\"type\":\"string\",\"minLength\":80},"@
        + "\"required_manual_refs\":{\"type\":\"array\",\"minItems\":2,\"items\":{\"type\":\"string\"}},"@
        + "\"expected_inference\":{\"type\":\"string\",\"minLength\":60},\"difficulty\":{\"type\":\"string\"}},"@
        + "\"required\":[\"clue_id\",\"clue_type\",\"clue_text\",\"required_manual_refs\","@
        + "\"expected_inference\",\"difficulty\"]}"@
}

pub fn round_one_clue_schema() -> (r: String)
    ensures
        r@ == clue_schema_json(),
{
    let mut r = String::new();
    r.append("{\"type\":\"object\",\"properties\":{\"clue_id\":{\"type\":\"string\"},");
    r.append("\"clue_type\":{\"type\":\"string\"},\"clue_text\":{\"type\":\"string\",\"minLength\":80},");
    r.append("\"required_manual_refs\":{\"type\":\"array\",\"minItems\":2,\"items\":{\"type\":\"string\"}},");
    r.append("\"expected_inference\":{\"type\":\"string\",\"minLength\":60},\"difficulty\":{\"type\":\"string\"}},");
    r.append("\"required\":[\"clue_id\",\"clue_type\",\"clue_text\",\"required_manual_refs\",");
    r.append("\"expected_inference\",\"difficulty\"]}");
    r
}

/// The JSON schema of a round 1 decoder walkthrough step.
pub open spec fn walkthrough_schema_json() -> Seq<char> {
    "{\"type\":\"object\",\"properties\":{\"step_id\":{\"type\":\"string\"},\"clue_id\":{\"type\":\"string\"},"@
        + "\"manual_refs_used\":{\"type\":\"array\",\"minItems\":2,\"items\":{\"type\":\"string\"}},"@
        + "\"deduction\":{\"type\":\"string\",\"minLength\":140},\"phrase_progression\":{\"type\":\"string\","@
        + "\"minLength\":90}},\"required\":[\"step_id\",\"clue_id\",\"manual_refs_used\",\"deduction\","@
        + "\"phrase_progression\"]}"@
}

pub fn round_one_walkthrough_schema() -> (r: String)
    ensures
        r@ == walkthrough_schema_json(),
{
    let mut r = String::new();
    r.append("{\"type\":\"object\",\"properties\":{\"step_id\":{\"type\":\"string\"},\"clue_id\":{\"type\":\"string\"},");
    r.append("\"manual_refs_used\":{\"type\":\"array\",\"minItems\":2,\"items\":{\"type\":\"string\"}},");
    r.append("\"deduction\":{\"type\":\"string\",\"minLength\":140},\"phrase_progression\":{\"type\":\"string\",");
    r.append("\"minLength\":90}},\"required\":[\"step_id\",\"clue_id\",\"manual_refs_used\",\"deduction\",");
    r.append("\"phrase_progression\"]}");
    r
}

/// The JSON schema of the round 1 solution.
pub open spec fn solution_schema_json() -> Seq<char> {
    "{\"type\":\"object\",\"properties\":{\"final_identity_guess\":{\"type\":\"string\"},"@
        + "\"final_target_word_inference\":{\"type\":\"string\"},\"why_target_word_fits\":{\"type\":\"string\","@
        + "\"minLength\":120},\"how_manual_reveals_word\":{\"type\":\"string\",\"minLength\":140}},"@
        + "\"required\":[\"final_identity_guess\",\"final_target_word_inference\",\"why_target_word_fits\","@
        + "\"how_manual_reveals_word\"]}"@
}

pub fn round_one_solution_schema() -> (r: String)
    ensures
        r@ == solution_schema_json(),
{
    let mut r = String::new();
    r.append("{\"type\":\"object\",\"properties\":{\"final_identity_guess\":{\"type\":\"string\"},");
    r.append("\"final_target_word_inference\":{\"type\":\"string\"},\"why_target_word_fits\":{\"type\":\"string\",");
    r.append("\"minLength\":120},\"how_manual_reveals_word\":{\"type\":\"string\",\"minLength\":140}},");
    r.append("\"required\":[\"final_identity_guess\",\"final_target_word_inference\",\"why_target_word_fits\",");
    r.append("\"how_manual_reveals_word\"]}");
    r
}

/// The JSON schema of a round 1 signal thread.
pub open spec fn signal_thread_schema_json() -> Seq<char> {
    "{\"type\":\"object\",\"properties\":{\"thread_id\":{\"type\":\"string\"},"@
        + "\"linked_clue_ids\":{\"type\":\"array\",\"minItems\":1,\"items\":{\"type\":\"string\"}},"@
        + "\"manual_refs\":{\"type\":\"array\",\"minItems\":2,\"items\":{\"type\":\"string\"}},"@
        + "\"hidden_phrase_signal\":{\"type\":\"string\",\"minLength\":90},"@
        + "\"narrative_bridge\":{\"type\":\"string\",\"minLength\":140}},\"required\":[\"thread_id\","@
        + "\"linked_clue_ids\",\"manual_refs\",\"hidden_phrase_signal\",\"narrative_bridge\"]}"@
}

pub fn round_one_signal_thread_schema() -> (r: String)
    ensures
        r@ == signal_thread_schema_json(),
{
    let mut r = String::new();
    r.append("{\"type\":\"object\",\"properties\":{\"thread_id\":{\"type\":\"string\"},");
    r.append("\"linked_clue_ids\":{\"type\":\"array\",\"minItems\":1,\"items\":{\"type\":\"string\"}},");
    r.append("\"manual_refs\":{\"type\":\"array\",\"minItems\":2,\"items\":{\"type\":\"string\"}},");
    r.append("\"hidden_phrase_signal\":{\"type\":\"string\",\"minLength\":90},");
    r.append("\"narrative_bridge\":{\"type\":\"string\",\"minLength\":140}},\"required\":[\"thread_id\",");
    r.append("\"linked_clue_ids\",\"manual_refs\",\"hidden_phrase_signal\",\"narrative_bridge\"]}");
    r
}

/// The JSON schema of the round 1 skeleton answer.
pub open spec fn skeleton_schema_json() -> Seq<char> {
    "{\"type\":\"object\",\"properties\":{\"persona_name\":{\"type\":\"string\"},"@
        + "\"persona_paragraphs\":{\"type\":\"array\",\"minItems\":2,\"items\":{\"type\":\"string\"}},"@
        + "\"target_word\":{\"type\":\"string\"},\"forbidden_words\":{\"type\":\"array\",\"minItems\":5,"@
        + "\"items\":{\"type\":\"string\"}},\"clues\":{\"type\":\"array\",\"minItems\":4,\"items\":"@
        + clue_schema_json()
        + "},\"manual_blueprint\":{\"type\":\"object\",\"properties\":{\"overview\":{\"type\":\"string\","@
        + "\"minLength\":120},\"hidden_phrase_bridge\":{\"type\":\"string\",\"minLength\":90},"@
        + "\"codex_entries\":{\"type\":\"array\",\"minItems\":6,\"items\":"@
        + blueprint_schema_json("entry_id"@)
        + "},\"timeline_fragments\":{\"type\":\"array\",\"minItems\":4,\"items\":"@
        + blueprint_schema_json("fragment_id"@)
        + "},\"cipher_legend\":{\"type\":\"array\",\"minItems\":4,\"items\":"@
        + blueprint_schema_json("cipher_id"@)
        + "},\"protocol_matrix\":{\"type\":\"array\",\"minItems\":5,\"items\":"@
        + blueprint_schema_json("protocol_id"@)
        + "},\"false_leads\":{\"type\":\"array\",\"minItems\":3,\"items\":"@
        + blueprint_schema_json("lead_id"@)
        + "},\"signal_threads\":{\"type\":\"array\",\"minItems\":4,\"items\":"@
        + blueprint_schema_json("thread_id"@)
        + "}},\"required\":[\"overview\",\"hidden_phrase_bridge\",\"codex_entries\",\"timeline_fragments\","@
        + "\"cipher_legend\",\"protocol_matrix\",\"false_leads\",\"signal_threads\"]},\"solution\":"@
        + solution_schema_json()
        + "},\"required\":[\"persona_name\",\"persona_paragraphs\",\"target_word\",\"forbidden_words\","@
        + "\"clues\",\"manual_blueprint\",\"solution\"]}"@
}

pub fn round_one_skeleton_response_schema() -> (r: String)
    ensures
        r@ == skeleton_schema_json(),
{
    let mut r = String::new();
    r.append("{\"type\":\"object\",\"properties\":{\"persona_name\":{\"type\":\"string\"},");
    r.append("\"persona_paragraphs\":{\"type\":\"array\",\"minItems\":2,\"items\":{\"type\":\"string\"}},");
    r.append("\"target_word\":{\"type\":\"string\"},\"forbidden_words\":{\"type\":\"array\",\"minItems\":5,");
    r.append("\"items\":{\"type\":\"string\"}},\"clues\":{\"type\":\"array\",\"minItems\":4,\"items\":");
    let part = round_one_clue_schema();
    r.append(part.as_str());
    r.append("},\"manual_blueprint\":{\"type\":\"object\",\"properties\":{\"overview\":{\"type\":\"string\",");
    r.append("\"minLength\":120},\"hidden_phrase_bridge\":{\"type\":\"string\",\"minLength\":90},");
    r.append("\"codex_entries\":{\"type\":\"array\",\"minItems\":6,\"items\":");
    let part = round_one_manual_section_blueprint_schema("entry_id");
    r.append(part.as_str());
    r.append("},\"timeline_fragments\":{\"type\":\"array\",\"minItems\":4,\"items\":");
    let part = round_one_manual_section_blueprint_schema("fragment_id");
    r.append(part.as_str());
    r.append("},\"cipher_legend\":{\"type\":\"array\",\"minItems\":4,\"items\":");
    let part = round_one_manual_section_blueprint_schema("cipher_id");
    r.append(part.as_str());
    r.append("},\"protocol_matrix\":{\"type\":\"array\",\"minItems\":5,\"items\":");
    let part = round_one_manual_section_blueprint_schema("protocol_id");
    r.append(part.as_str());
    r.append("},\"false_leads\":{\"type\":\"array\",\"minItems\":3,\"items\":");
    let part = round_one_manual_section_blueprint_schema("lead_id");
    r.append(part.as_str());
    r.append("},\"signal_threads\":{\"type\":\"array\",\"minItems\":4,\"items\":");
    let part = round_one_manual_section_blueprint_schema("thread_id");
    r.append(part.as_str());
    r.append("}},\"required\":[\"overview\",\"hidden_phrase_bridge\",\"codex_entries\",\"timeline_fragments\",");
    r.append("\"cipher_legend\",\"protocol_matrix\",\"false_leads\",\"signal_threads\"]},\"solution\":");
    let part = round_one_solution_schema();
    r.append(part.as_str());
    r.append("},\"required\":[\"persona_name\",\"persona_paragraphs\",\"target_word\",\"forbidden_words\",");
    r.append("\"clues\",\"manual_blueprint\",\"solution\"]}");
    r
}

/// The JSON schema of the round 1 manual.
pub open spec fn manual_schema_json() -> Seq<char> {
    "{\"type\":\"object\",\"properties\":{\"overview\":{\"type\":\"string\",\"minLength\":260},"@
        + "\"hidden_phrase_bridge\":{\"type\":\"string\",\"minLength\":180},"@
        + "\"section_usage_notes\":{\"type\":\"string\",\"minLength\":160},\"codex_entries\":{\"type\":\"array\","@
        + "\"minItems\":6,\"items\":{\"type\":\"object\",\"properties\":{\"entry_id\":{\"type\":\"string\"},"@
        + "\"domain\":{\"type\":\"string\"},\"term\":{\"type\":\"string\"},\"content\":{\"type\":\"string\","@
        + "\"minLength\":320},\"relevance_tags\":{\"type\":\"array\",\"items\":{\"type\":\"string\"}},"@
        + "\"linked_clue_ids\":{\"type\":\"array\",\"minItems\":1,\"items\":{\"type\":\"string\"}},"@
        + "\"hidden_phrase_signal\":{\"type\":\"string\",\"minLength\":90}},\"required\":[\"entry_id\","@
        + "\"domain\",\"term\",\"content\",\"relevance_tags\",\"linked_clue_ids\",\"hidden_phrase_signal\"]}},"@
        + "\"timeline_fragments\":{\"type\":\"array\",\"minItems\":4,\"items\":{\"type\":\"object\","@
        + "\"properties\":{\"fragment_id\":{\"type\":\"string\"},\"timestamp_hint\":{\"type\":\"string\"},"@
        + "\"event_summary\":{\"type\":\"string\"},\"detail_text\":{\"type\":\"string\",\"minLength\":240},"@
        + "\"linked_entities\":{\"type\":\"array\",\"items\":{\"type\":\"string\"}},"@
        + "\"linked_clue_ids\":{\"type\":\"array\",\"minItems\":1,\"items\":{\"type\":\"string\"}},"@
        + "\"hidden_phrase_signal\":{\"type\":\"string\",\"minLength\":90}},\"required\":[\"fragment_id\","@
        + "\"timestamp_hint\",\"event_summary\",\"detail_text\",\"linked_entities\",\"linked_clue_ids\","@
        + "\"hidden_phrase_signal\"]}},\"cipher_legend\":{\"type\":\"array\",\"minItems\":4,"@
        + "\"items\":{\"type\":\"object\",\"properties\":{\"cipher_id\":{\"type\":\"string\"},"@
        + "\"symbol_or_pattern\":{\"type\":\"string\"},\"decoding_rule\":{\"type\":\"string\"},"@
        + "\"expanded_note\":{\"type\":\"string\",\"minLength\":180},\"example\":{\"type\":\"string\","@
        + "\"minLength\":80},\"linked_clue_ids\":{\"type\":\"array\",\"minItems\":1,"@
        + "\"items\":{\"type\":\"string\"}},\"hidden_phrase_signal\":{\"type\":\"string\",\"minLength\":90}},"@
        + "\"required\":[\"cipher_id\",\"symbol_or_pattern\",\"decoding_rule\",\"expanded_note\",\"example\","@
        + "\"linked_clue_ids\",\"hidden_phrase_signal\"]}},\"protocol_matrix\":{\"type\":\"array\","@
        + "\"minItems\":5,\"items\":{\"type\":\"object\",\"properties\":{\"protocol_id\":{\"type\":\"string\"},"@
        + "\"trigger_condition\":{\"type\":\"string\"},\"prescribed_action\":{\"type\":\"string\"},"@
        + "\"hidden_implication\":{\"type\":\"string\"},\"detail_text\":{\"type\":\"string\",\"minLength\":220},"@
        + "\"linked_clue_ids\":{\"type\":\"array\",\"minItems\":1,\"items\":{\"type\":\"string\"}},"@
        + "\"hidden_phrase_signal\":{\"type\":\"string\",\"minLength\":90}},\"required\":[\"protocol_id\","@
        + "\"trigger_condition\",\"prescribed_action\",\"hidden_implication\",\"detail_text\","@
        + "\"linked_clue_ids\",\"hidden_phrase_signal\"]}},\"false_leads\":{\"type\":\"array\",\"minItems\":3,"@
        + "\"items\":{\"type\":\"object\",\"properties\":{\"lead_id\":{\"type\":\"string\"},"@
        + "\"misleading_claim\":{\"type\":\"string\"},\"why_it_looks_valid\":{\"type\":\"string\"},"@
        + "\"why_it_is_wrong\":{\"type\":\"string\"},\"misdirects_clue_ids\":{\"type\":\"array\",\"minItems\":1,"@
        + "\"items\":{\"type\":\"string\"}},\"discarded_by_manual_refs\":{\"type\":\"array\",\"minItems\":1,"@
        + "\"items\":{\"type\":\"string\"}}},\"required\":[\"lead_id\",\"misleading_claim\","@
        + "\"why_it_looks_valid\",\"why_it_is_wrong\",\"misdirects_clue_ids\","@
        + "\"discarded_by_manual_refs\"]}},\"signal_threads\":{\"type\":\"array\",\"minItems\":4,\"items\":"@
        + signal_thread_schema_json()
        + "}},\"required\":[\"overview\",\"hidden_phrase_bridge\",\"section_usage_notes\",\"codex_entries\","@
        + "\"timeline_fragments\",\"cipher_legend\",\"protocol_matrix\",\"false_leads\",\"signal_threads\"]}"@
}

pub fn round_one_manual_schema() -> (r: String)
    ensures
        r@ == manual_schema_json(),
{
    let mut r = String::new();
    r.append("{\"type\":\"object\",\"properties\":{\"overview\":{\"type\":\"string\",\"minLength\":260},");
    r.append("\"hidden_phrase_bridge\":{\"type\":\"string\",\"minLength\":180},");
    r.append("\"section_usage_notes\":{\"type\":\"string\",\"minLength\":160},\"codex_entries\":{\"type\":\"array\",");
    r.append("\"minItems\":6,\"items\":{\"type\":\"object\",\"properties\":{\"entry_id\":{\"type\":\"string\"},");
    r.append("\"domain\":{\"type\":\"string\"},\"term\":{\"type\":\"string\"},\"content\":{\"type\":\"string\",");
    r.append("\"minLength\":320},\"relevance_tags\":{\"type\":\"array\",\"items\":{\"type\":\"string\"}},");
    r.append("\"linked_clue_ids\":{\"type\":\"array\",\"minItems\":1,\"items\":{\"type\":\"string\"}},");
    r.append("\"hidden_phrase_signal\":{\"type\":\"string\",\"minLength\":90}},\"required\":[\"entry_id\",");
    r.append("\"domain\",\"term\",\"content\",\"relevance_tags\",\"linked_clue_ids\",\"hidden_phrase_signal\"]}},");
    r.append("\"timeline_fragments\":{\"type\":\"array\",\"minItems\":4,\"items\":{\"type\":\"object\",");
    r.append("\"properties\":{\"fragment_id\":{\"type\":\"string\"},\"timestamp_hint\":{\"type\":\"string\"},");
    r.append("\"event_summary\":{\"type\":\"string\"},\"detail_text\":{\"type\":\"string\",\"minLength\":240},");
    r.append("\"linked_entities\":{\"type\":\"array\",\"items\":{\"type\":\"string\"}},");
    r.append("\"linked_clue_ids\":{\"type\":\"array\",\"minItems\":1,\"items\":{\"type\":\"string\"}},");
    r.append("\"hidden_phrase_signal\":{\"type\":\"string\",\"minLength\":90}},\"required\":[\"fragment_id\",");
    r.append("\"timestamp_hint\",\"event_summary\",\"detail_text\",\"linked_entities\",\"linked_clue_ids\",");
    r.append("\"hidden_phrase_signal\"]}},\"cipher_legend\":{\"type\":\"array\",\"minItems\":4,");
    r.append("\"items\":{\"type\":\"object\",\"properties\":{\"cipher_id\":{\"type\":\"string\"},");
    r.append("\"symbol_or_pattern\":{\"type\":\"string\"},\"decoding_rule\":{\"type\":\"string\"},");
    r.append("\"expanded_note\":{\"type\":\"string\",\"minLength\":180},\"example\":{\"type\":\"string\",");
    r.append("\"minLength\":80},\"linked_clue_ids\":{\"type\":\"array\",\"minItems\":1,");
    r.append("\"items\":{\"type\":\"string\"}},\"hidden_phrase_signal\":{\"type\":\"string\",\"minLength\":90}},");
    r.append("\"required\":[\"cipher_id\",\"symbol_or_pattern\",\"decoding_rule\",\"expanded_note\",\"example\",");
    r.append("\"linked_clue_ids\",\"hidden_phrase_signal\"]}},\"protocol_matrix\":{\"type\":\"array\",");
    r.append("\"minItems\":5,\"items\":{\"type\":\"object\",\"properties\":{\"protocol_id\":{\"type\":\"string\"},");
    r.append("\"trigger_condition\":{\"type\":\"string\"},\"prescribed_action\":{\"type\":\"string\"},");
    r.append("\"hidden_implication\":{\"type\":\"string\"},\"detail_text\":{\"type\":\"string\",\"minLength\":220},");
    r.append("\"linked_clue_ids\":{\"type\":\"array\",\"minItems\":1,\"items\":{\"type\":\"string\"}},");
    r.append("\"hidden_phrase_signal\":{\"type\":\"string\",\"minLength\":90}},\"required\":[\"protocol_id\",");
    r.append("\"trigger_condition\",\"prescribed_action\",\"hidden_implication\",\"detail_text\",");
    r.append("\"linked_clue_ids\",\"hidden_phrase_signal\"]}},\"false_leads\":{\"type\":\"array\",\"minItems\":3,");
    r.append("\"items\":{\"type\":\"object\",\"properties\":{\"lead_id\":{\"type\":\"string\"},");
    r.append("\"misleading_claim\":{\"type\":\"string\"},\"why_it_looks_valid\":{\"type\":\"string\"},");
    r.append("\"why_it_is_wrong\":{\"type\":\"string\"},\"misdirects_clue_ids\":{\"type\":\"array\",\"minItems\":1,");
    r.append("\"items\":{\"type\":\"string\"}},\"discarded_by_manual_refs\":{\"type\":\"array\",\"minItems\":1,");
    r.append("\"items\":{\"type\":\"string\"}}},\"required\":[\"lead_id\",\"misleading_claim\",");
    r.append("\"why_it_looks_valid\",\"why_it_is_wrong\",\"misdirects_clue_ids\",");
    r.append("\"discarded_by_manual_refs\"]}},\"signal_threads\":{\"type\":\"array\",\"minItems\":4,\"items\":");
    let part = round_one_signal_thread_schema();
    r.append(part.as_str());
    r.append("}},\"required\":[\"overview\",\"hidden_phrase_bridge\",\"section_usage_notes\",\"codex_entries\",");
    r.append("\"timeline_fragments\",\"cipher_legend\",\"protocol_matrix\",\"false_leads\",\"signal_threads\"]}");
    r
}

/// The JSON schema of the round 1 expansion answer.
pub open spec fn expansion_schema_json() -> Seq<char> {
    "{\"type\":\"object\",\"properties\":{\"manual\":"@
        + manual_schema_json()
        + ",\"decoder_walkthrough\":{\"type\":\"array\",\"minItems\":4,\"items\":"@
        + walkthrough_schema_json()
        + "}},\"required\":[\"manual\",\"decoder_walkthrough\"]}"@
}

pub fn round_one_expansion_response_schema() -> (r: String)
    ensures
        r@ == expansion_schema_json(),
{
    let mut r = String::new();
    r.append("{\"type\":\"object\",\"properties\":{\"manual\":");
    let part = round_one_manual_schema();
    r.append(part.as_str());
    r.append(",\"decoder_walkthrough\":{\"type\":\"array\",\"minItems\":4,\"items\":");
    let part = round_one_walkthrough_schema();
    r.append(part.as_str());
    r.append("}},\"required\":[\"manual\",\"decoder_walkthrough\"]}");
    r
}

/// The JSON schema of the finished round 1 package.
pub open spec fn final_schema_json() -> Seq<char> {
    "{\"type\":\"object\",\"properties\":{\"persona_name\":{\"type\":\"string\"},"@
        + "\"persona_paragraphs\":{\"type\":\"array\",\"minItems\":2,\"items\":{\"type\":\"string\"}},"@
        + "\"target_word\":{\"type\":\"string\"},\"forbidden_words\":{\"type\":\"array\",\"minItems\":5,"@
        + "\"items\":{\"type\":\"string\"}},\"clues\":{\"type\":\"array\",\"minItems\":4,\"items\":"@
        + clue_schema_json()
        + "},\"manual\":"@
        + manual_schema_json()
        + ",\"decoder_walkthrough\":{\"type\":\"array\",\"minItems\":4,\"items\":"@
        + walkthrough_schema_json()
        + "},\"solution\":"@
        + solution_schema_json()
        + "},\"required\":[\"persona_name\",\"persona_paragraphs\",\"target_word\",\"forbidden_words\","@
        + "\"clues\",\"manual\",\"decoder_walkthrough\",\"solution\"]}"@
}

pub fn round_one_final_response_schema() -> (r: String)
    ensures
        r@ == final_schema_json(),
{
    let mut r = String::new();
    r.append("{\"type\":\"object\",\"properties\":{\"persona_name\":{\"type\":\"string\"},");
    r.append("\"persona_paragraphs\":{\"type\":\"array\",\"minItems\":2,\"items\":{\"type\":\"string\"}},");
    r.append("\"target_word\":{\"type\":\"string\"},\"forbidden_words\":{\"type\":\"array\",\"minItems\":5,");
    r.append("\"items\":{\"type\":\"string\"}},\"clues\":{\"type\":\"array\",\"minItems\":4,\"items\":");
    let part = round_one_clue_schema();
    r.append(part.as_str());
    r.append("},\"manual\":");
    let part = round_one_manual_schema();
    r.append(part.as_str());
    r.append(",\"decoder_walkthrough\":{\"type\":\"array\",\"minItems\":4,\"items\":");
    let part = round_one_walkthrough_schema();
    r.append(part.as_str());
    r.append("},\"solution\":");
    let part = round_one_solution_schema();
    r.append(part.as_str());
    r.append("},\"required\":[\"persona_name\",\"persona_paragraphs\",\"target_word\",\"forbidden_words\",");
    r.append("\"clues\",\"manual\",\"decoder_walkthrough\",\"solution\"]}");
    r
}

/// The JSON schema of a villain speech answer.
pub open spec fn villain_speech_schema_json() -> Seq<char> {
    "{\"type\":\"object\",\"additionalProperties\":false,"@
        + "\"properties\":{\"speech_cues\":{\"type\":\"array\",\"minItems\":1,\"items\":{\"type\":\"object\","@
        + "\"additionalProperties\":false,\"properties\":{\"cue_id\":{\"type\":\"string\"},"@
        + "\"round_key\":{\"type\":\"string\"},\"linked_clue_id\":{\"type\":\"string\"},"@
        + "\"trigger\":{\"type\":\"string\"},\"delivery_style\":{\"type\":\"string\"},"@
        + "\"speech_text\":{\"type\":\"string\"}},\"required\":[\"cue_id\",\"round_key\",\"linked_clue_id\","@
        + "\"trigger\",\"delivery_style\",\"speech_text\"]}}},\"required\":[\"speech_cues\"]}"@
}

pub fn villain_speech_response_schema() -> (r: String)
    ensures
        r@ == villain_speech_schema_json(),
{
    let mut r = String::new();
    r.append("{\"type\":\"object\",\"additionalProperties\":false,");
    r.append("\"properties\":{\"speech_cues\":{\"type\":\"array\",\"minItems\":1,\"items\":{\"type\":\"object\",");
    r.append("\"additionalProperties\":false,\"properties\":{\"cue_id\":{\"type\":\"string\"},");
    r.append("\"round_key\":{\"type\":\"string\"},\"linked_clue_id\":{\"type\":\"string\"},");
    r.append("\"trigger\":{\"type\":\"string\"},\"delivery_style\":{\"type\":\"string\"},");
    r.append("\"speech_text\":{\"type\":\"string\"}},\"required\":[\"cue_id\",\"round_key\",\"linked_clue_id\",");
    r.append("\"trigger\",\"delivery_style\",\"speech_text\"]}}},\"required\":[\"speech_cues\"]}");
    r
}

/// The JSON schema of a terminal persona turn.
pub open spec fn terminal_turn_schema_json() -> Seq<char> {
    "{\"type\":\"object\",\"additionalProperties\":false,"@
        + "\"properties\":{\"terminal_reply\":{\"type\":\"string\"},"@
        + "\"spoke_kill_phrase\":{\"type\":\"boolean\"}},\"required\":[\"terminal_reply\","@
        + "\"spoke_kill_phrase\"]}"@
}

pub fn gemini_terminal_response_schema() -> (r: String)
    ensures
        r@ == terminal_turn_schema_json(),
{
    let mut r = String::new();
    r.append("{\"type\":\"object\",\"additionalProperties\":false,");
    r.append("\"properties\":{\"terminal_reply\":{\"type\":\"string\"},");
    r.append("\"spoke_kill_phrase\":{\"type\":\"boolean\"}},\"required\":[\"terminal_reply\",");
    r.append("\"spoke_kill_phrase\"]}");
    r
}

/// The JSON schema accepting any object, used by the later rounds.
pub open spec fn open_object_schema_json() -> Seq<char> {
    "{\"type\":\"object\",\"additionalProperties\":true}"@
}

pub fn open_object_schema() -> (r: String)
    ensures
        r@ == open_object_schema_json(),
{
    let mut r = String::new();
    r.append("{\"type\":\"object\",\"additionalProperties\":true}");
    r
}

/// The JSON schema of a validator decision.
pub open spec fn validator_decision_schema_json() -> Seq<char> {
    "{\"type\":\"object\",\"additionalProperties\":false,\"properties\":{\"success\":{\"type\":\"boolean\"},"@
        + "\"reason\":{\"type\":\"string\"}},\"required\":[\"success\",\"reason\"]}"@
}

pub fn gemini_validator_response_schema() -> (r: String)
    ensures
        r@ == validator_decision_schema_json(),
{
    let mut r = String::new();
    r.append("{\"type\":\"object\",\"additionalProperties\":false,\"properties\":{\"success\":{\"type\":\"boolean\"},");
    r.append("\"reason\":{\"type\":\"string\"}},\"required\":[\"success\",\"reason\"]}");
    r
}

} // verus!
