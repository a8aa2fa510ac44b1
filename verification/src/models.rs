//! Request and response shapes exchanged with ArmorIQ, Gemini, ElevenLabs and the local relay,
//! and the round content packages, as plain values.
use vstd::prelude::*;

verus! {

/// ArmorIQ request for validating a terminal override attempt.
#[derive(Debug, Clone)]
pub struct ArmorIqRequest {
    pub player_input: String,
    pub action: String,
    pub context: ArmorIqContext,
}

/// Nested context sent alongside the ArmorIQ intent validation request.
#[derive(Debug, Clone)]
pub struct ArmorIqContext {
    pub hidden_answer: String,
}

/// ArmorIQ response returned by the policy engine.
#[derive(Debug, Clone)]
pub struct ArmorIqResponse {
    pub allowed: bool,
    pub block_reason: Option<String>,
}

/// Upstream ArmorIQ token-issue request used for live intent authorization.
#[derive(Debug, Clone)]
pub struct ArmorIqTokenIssueRequest {
    pub user_id: String,
    pub agent_id: String,
    pub action: String,
    pub plan: ArmorIqTokenIssuePlan,
    pub policy: ArmorIqTokenIssuePolicy,
}

/// Execution plan sent to ArmorIQ for intent-token issuance.
#[derive(Debug, Clone)]
pub struct ArmorIqTokenIssuePlan {
    pub goal: String,
    pub steps: Vec<ArmorIqTokenIssueStep>,
}

/// A single planned terminal action within the ArmorIQ token-issue request.
#[derive(Debug, Clone)]
pub struct ArmorIqTokenIssueStep {
    pub action: String,
    pub mcp: String,
    pub params: ArmorIqTerminalStepParams,
}

/// Parameter payload for the terminal validation step.
#[derive(Debug, Clone)]
pub struct ArmorIqTerminalStepParams {
    pub player_input: String,
    pub hidden_answer: String,
}

/// Policy hints provided alongside the ArmorIQ token-issue request.
#[derive(Debug, Clone)]
pub struct ArmorIqTokenIssuePolicy {
    pub allow: Vec<String>,
    pub deny: Vec<String>,
}

/// Structured object expected from the round 1 clue-generation Gemini agent.
#[derive(Debug, Clone)]
pub struct GeminiRoundOneClueGeneratorResponse {
    pub persona_name: String,
    pub persona_paragraphs: Vec<String>,
    pub target_word: String,
    pub forbidden_words: Vec<String>,
}

/// Structured object expected from the terminal-validation Gemini agent.
#[derive(Debug, Clone)]
pub struct GeminiValidatorDecision {
    pub success: bool,
    pub reason: String,
}

/// A single clue line that the glitching terminal can drip-feed during a round.
#[derive(Debug, Clone)]
pub struct TerminalClueLine {
    pub clue_id: String,
    pub clue_text: String,
    pub delivery_style: Option<String>,
}

/// Round configuration supplied before a terminal round begins.
#[derive(Debug, Clone)]
pub struct TerminalRoundSetupPayload {
    pub round_key: String,
    pub persona_name: String,
    pub persona_prompt: String,
    pub glitch_tone: String,
    pub kill_phrase_part: String,
    pub forbidden_words: Vec<String>,
    pub clue_lines: Vec<TerminalClueLine>,
    pub max_strikes: u32,
}

/// Conversation history item persisted for the terminal persona.
#[derive(Debug, Clone)]
pub struct TerminalConversationMessage {
    pub role: String,
    pub text: String,
}

/// Structured Gemini response for a single terminal persona turn.
#[derive(Debug, Clone)]
pub struct GeminiTerminalTurnResponse {
    pub terminal_reply: String,
    pub spoke_kill_phrase: bool,
}

/// The strike limit a round setup gets when it names none.
pub fn default_terminal_max_strikes() -> (r: u32)
    ensures
        r == 3,
{
    3
}

/// Local relay request for clue generation.
#[derive(Debug, Clone)]
pub struct RelayClueGeneratorRequest {
    pub round_key: String,
    pub requested_persona: Option<String>,
    pub theme: Option<String>,
    pub setting: Option<String>,
    pub difficulty: Option<String>,
    pub villain_name: Option<String>,
    pub objective: Option<String>,
}

/// Local relay request for terminal validation.
#[derive(Debug, Clone)]
pub struct RelayTerminalValidatorRequest {
    pub player_input: String,
    pub hidden_answer: String,
}

/// Local relay request for villain speech generation and TTS synthesis.
#[derive(Debug, Clone)]
pub struct RelayVillainSpeechRequest {
    pub villain_name: String,
    pub scene: String,
    pub tone: String,
    pub voice_id: Option<String>,
    pub selected_cue_id: Option<String>,
}

/// Local relay response returned after speech generation and optional synthesis.
#[derive(Debug, Clone)]
pub struct RelayVillainSpeechResponse {
    pub speech_cues: Vec<VillainSpeechCue>,
    pub selected_cue_id: String,
    pub audio_base64: Option<String>,
    pub mime_type: Option<String>,
    pub tts_provider: String,
}

/// Request payload for room-scoped villain speech generation. Members holding arbitrary JSON
/// (`game_package`, `round_output`, `clue_contexts` and the unknown members) keep their compact
/// JSON text.
#[derive(Debug, Clone)]
pub struct VillainSpeechGenerationPayload {
    pub round_key: Option<String>,
    pub villain_name: Option<String>,
    pub scene: Option<String>,
    pub tone: Option<String>,
    pub voice_id: Option<String>,
    pub voice_model_id: Option<String>,
    pub selected_cue_id: Option<String>,
    pub synthesize_audio: Option<bool>,
    pub game_package: Option<String>,
    pub round_output: Option<String>,
    pub clue_contexts: Option<String>,
    pub extra_fields: Vec<(String, String)>,
}

/// Request payload for room-scoped clue/manual generation: an open JSON object, held as its
/// members in order, each with the compact JSON text of its value.
#[derive(Debug, Clone)]
pub struct RoundGenerationPayload {
    pub fields: Vec<(String, String)>,
}

/// Structured Gemini response for villain speech generation before optional TTS synthesis.
#[derive(Debug, Clone)]
pub struct VillainSpeechGeminiResponse {
    pub speech_cues: Vec<VillainSpeechCue>,
}

/// A clue beat revealed to Player 1 during a round.
#[derive(Debug, Clone)]
pub struct ClueBeat {
    pub cue_id: String,
    pub reveal_stage: String,
    pub clue_text: String,
    pub intended_signal: String,
    pub display_note: String,
}

/// Round 1 UI payload.
#[derive(Debug, Clone)]
pub struct RoundOnePlayerOneUi {
    pub bootup_dialogue: String,
    pub clue_sequence: Vec<ClueBeat>,
}

/// Round 1 manual payload.
#[derive(Debug, Clone)]
pub struct RoundOneManual {
    pub persona_name: String,
    pub target_word: String,
    pub forbidden_words: Vec<String>,
    pub social_engineering_hints: Vec<String>,
    pub operator_notes: String,
}

/// Complete Round 1 package.
#[derive(Debug, Clone)]
pub struct RoundOnePackage {
    pub round_name: String,
    pub round_goal: String,
    pub player_1_ui: RoundOnePlayerOneUi,
    pub player_2_manual: RoundOneManual,
    pub validation_answer: String,
}

/// Round 2 UI payload.
#[derive(Debug, Clone)]
pub struct RoundTwoPlayerOneUi {
    pub incident_logs: String,
    pub clue_sequence: Vec<ClueBeat>,
}

/// Flowchart step used by rounds 2 and 3.
#[derive(Debug, Clone)]
pub struct BranchStep {
    pub step_id: String,
    pub question: String,
    pub yes_branch: String,
    pub no_branch: String,
}

/// Subject-code leaf node for round 2.
#[derive(Debug, Clone)]
pub struct SubjectIdLeaf {
    pub leaf_id: String,
    pub subject_code: String,
}

/// Round 2 manual payload.
#[derive(Debug, Clone)]
pub struct RoundTwoManual {
    pub flowchart: Vec<BranchStep>,
    pub subject_ids: Vec<SubjectIdLeaf>,
    pub analyst_notes: Vec<String>,
}

/// Complete Round 2 package.
#[derive(Debug, Clone)]
pub struct RoundTwoPackage {
    pub round_name: String,
    pub round_goal: String,
    pub player_1_ui: RoundTwoPlayerOneUi,
    pub player_2_manual: RoundTwoManual,
    pub validation_answer: String,
}

/// Round 3 UI payload.
#[derive(Debug, Clone)]
pub struct RoundThreePlayerOneUi {
    pub text_block: String,
    pub clue_sequence: Vec<ClueBeat>,
}

/// Parsing rule used by round 3.
#[derive(Debug, Clone)]
pub struct ParsingRule {
    pub rule_id: String,
    pub instruction: String,
}

/// Round 3 manual payload.
#[derive(Debug, Clone)]
pub struct RoundThreeManual {
    pub flowchart: Vec<BranchStep>,
    pub parsing_rules: Vec<ParsingRule>,
    pub analyst_notes: Vec<String>,
}

/// Complete Round 3 package.
#[derive(Debug, Clone)]
pub struct RoundThreePackage {
    pub round_name: String,
    pub round_goal: String,
    pub player_1_ui: RoundThreePlayerOneUi,
    pub player_2_manual: RoundThreeManual,
    pub validation_answer: String,
    pub kill_phrase_3: String,
}

/// Narrative wrapper for the native round 4 generator.
#[derive(Debug, Clone)]
pub struct NativeRoundBrief {
    pub round_name: String,
    pub round_goal: String,
    pub generation_rule: String,
    pub p1_ui_hint: String,
    pub p2_manual_hint: String,
}

/// A villain speech cue aligned to a clue reveal.
#[derive(Debug, Clone)]
pub struct VillainSpeechCue {
    pub cue_id: String,
    pub round_key: String,
    pub linked_clue_id: String,
    pub trigger: String,
    pub delivery_style: String,
    pub speech_text: String,
}

/// A Gemini content block.
#[derive(Debug, Clone)]
pub struct GeminiContent {
    pub role: Option<String>,
    pub parts: Vec<GeminiPart>,
}

/// A single content part used by Gemini's REST API.
#[derive(Debug, Clone)]
pub struct GeminiPart {
    pub text: Option<String>,
}

/// Gemini controls for hidden-thought budget.
#[derive(Debug, Clone)]
pub struct GeminiThinkingConfig {
    pub thinking_budget: u32,
}

/// Gemini `generateContent` response envelope, as far as text extraction needs it.
#[derive(Debug, Clone)]
pub struct GeminiGenerateContentResponse {
    pub candidates: Vec<GeminiCandidate>,
}

/// A single model candidate from a Gemini response.
#[derive(Debug, Clone)]
pub struct GeminiCandidate {
    pub content: GeminiContent,
}

/// An exact copy of a clue line.
pub fn copy_clue(c: &TerminalClueLine) -> (r: TerminalClueLine)
    ensures
        r == *c,
{
    TerminalClueLine {
        clue_id: c.clue_id.clone(),
        clue_text: c.clue_text.clone(),
        delivery_style: match &c.delivery_style {
            Some(s) => Some(s.clone()),
            None => None,
        },
    }
}

/// An exact copy of a conversation message.
pub fn copy_message(m: &TerminalConversationMessage) -> (r: TerminalConversationMessage)
    ensures
        r == *m,
{
    TerminalConversationMessage { role: m.role.clone(), text: m.text.clone() }
}

pub fn copy_messages(v: &Vec<TerminalConversationMessage>) -> (r: Vec<TerminalConversationMessage>)
    ensures
        r@ == v@,
{
    let mut r: Vec<TerminalConversationMessage> = Vec::new();
    let mut i: usize = 0;
    while i < v.len()
        invariant
            i <= v.len(),
            r@ == v@.take(i as int),
        decreases v.len() - i,
    {
        r.push(copy_message(&v[i]));
        assert(r@ =~= v@.take(i + 1));
        i = i + 1;
    }
    assert(v@.take(v.len() as int) =~= v@);
    r
}

} // verus!
