//! The assistant-chat logic that does not touch the network: the message
//! and response types, the system prompt, extracting the assistant's text
//! from a reply's content blocks, and shaping the outcome the editor is
//! shown. The transport — the HTTP call itself — lives with the host.

use vstd::prelude::*;
use vstd::string::StringExecFns;

use crate::strutil::str_eq;

verus! {

/// One turn of the conversation, by role (`user` or `assistant`).
pub struct Message {
    pub role: String,
    pub content: String,
}

/// What the editor is shown for one chat request: the assistant's text on
/// success, or the error with empty content.
pub struct AIResponse {
    pub content: String,
    pub success: bool,
    pub error: Option<String>,
}

/// One block of a reply: its kind tag, and its text when it has any.
pub struct ContentPart {
    pub kind: String,
    pub text: Option<String>,
}

/// The text of a reply: the text of every `text`-kind block, in order.
pub open spec fn collected_text(parts: Seq<ContentPart>) -> Seq<char>
    decreases parts.len(),
{
    if parts.len() == 0 {
        Seq::empty()
    } else {
        collected_text(parts.drop_last()) + (if parts.last().kind@ == "text"@ {
            match parts.last().text {
                Some(t) => t@,
                None => Seq::empty(),
            }
        } else {
            Seq::empty()
        })
    }
}

/// Joins the text of every `text`-kind block of a reply, in order.
pub fn collect_text(parts: &Vec<ContentPart>) -> (r: String)
    ensures
        r@ == collected_text(parts@),
{
    let mut acc = String::new();
    let mut i: usize = 0;
    while i < parts.len()
        invariant
            i <= parts@.len(),
            acc@ == collected_text(parts@.take(i as int)),
        decreases parts@.len() - i,
    {
        let p = &parts[i];
        if str_eq(p.kind.as_str(), "text") {
            match &p.text {
                Some(t) => acc.append(t.as_str()),
                None => {},
            }
        }
        proof {
            assert(parts@.take(i + 1).drop_last() =~= parts@.take(i as int));
            assert(parts@.take(i + 1).last() == parts@[i as int]);
        }
        i = i + 1;
    }
    proof {
        assert(parts@.take(parts@.len() as int) =~= parts@);
    }
    acc
}

/// The system prompt for a game context: the fixed instructions around the
/// current game description.
pub open spec fn prompt_text(ctx: Seq<char>) -> Seq<char> {
    "You are an AI game development assistant for PromptPlay, a 2D game engine.\nYou help users create and modify games by editing the game specification JSON.\n\nCurrent Game Context:\n"@
        + ctx
        + "\n\nWhen the user asks to modify the game, respond with:\n1. A brief explanation of what you're doing\n2. The updated JSON wrapped in a code block with the format: ```json:game.json\n\nImportant guidelines:\n- Preserve all existing entities unless explicitly asked to remove them\n- Use realistic coordinates (canvas is typically 800x600)\n- Common entity types: player (with input component), platform (static), enemy (with aiBehavior), coin (collectible)\n- All entities need: transform (x, y, rotation, scaleX, scaleY), sprite (texture, width, height, tint)\n- Dynamic entities need: velocity (vx, vy), collider (type, width/height or radius)\n- Players need: input (moveSpeed, jumpForce)\n- Enemies can have: aiBehavior (type: patrol/chase/idle, speed, detectionRadius)\n\nBe concise and helpful. If you can't fulfill a request, explain why and suggest alternatives."@
}

/// Builds the system prompt around the current game context.
pub fn build_system_prompt(game_context: &str) -> (r: String)
    ensures
        r@ == prompt_text(game_context@),
{
    let mut s = String::from_str(
        "You are an AI game development assistant for PromptPlay, a 2D game engine.\nYou help users create and modify games by editing the game specification JSON.\n\nCurrent Game Context:\n",
    );
    s.append(game_context);
    s.append(
        "\n\nWhen the user asks to modify the game, respond with:\n1. A brief explanation of what you're doing\n2. The updated JSON wrapped in a code block with the format: ```json:game.json\n\nImportant guidelines:\n- Preserve all existing entities unless explicitly asked to remove them\n- Use realistic coordinates (canvas is typically 800x600)\n- Common entity types: player (with input component), platform (static), enemy (with aiBehavior), coin (collectible)\n- All entities need: transform (x, y, rotation, scaleX, scaleY), sprite (texture, width, height, tint)\n- Dynamic entities need: velocity (vx, vy), collider (type, width/height or radius)\n- Players need: input (moveSpeed, jumpForce)\n- Enemies can have: aiBehavior (type: patrol/chase/idle, speed, detectionRadius)\n\nBe concise and helpful. If you can't fulfill a request, explain why and suggest alternatives.",
    );
    s
}

/// Shapes a finished chat call for the editor: success carries the
/// assistant's text; failure carries the error and empty content. Nothing
/// is retried.
pub fn chat_outcome(result: Result<String, String>) -> (r: AIResponse)
    ensures
        result matches Ok(content) ==> r.content == content && r.success && r.error is None,
        result matches Err(e) ==> r.content@ == Seq::<char>::empty() && !r.success && r.error
            == Some(e),
{
    match result {
        Ok(content) => AIResponse { content, success: true, error: None },
        Err(e) => AIResponse { content: String::new(), success: false, error: Some(e) },
    }
}

/// The response for a request made before any key is configured: not an
/// error of the transport, but a fixed explanatory failure.
pub fn missing_key_response() -> (r: AIResponse)
    ensures
        r.content@ == Seq::<char>::empty(),
        !r.success,
        r.error matches Some(m) && m@
            == "API key not configured. Set ANTHROPIC_API_KEY environment variable or configure in settings."@,
{
    AIResponse {
        content: String::new(),
        success: false,
        error: Some(
            String::from_str(
                "API key not configured. Set ANTHROPIC_API_KEY environment variable or configure in settings.",
            ),
        ),
    }
}

} // verus!
