//! The system prompt of the hive bot's first llama.cpp connection, with the
//! session file its evaluated state is cached in.

use vstd::prelude::*;
use crate::text::owned;

verus! {

/// Where the evaluated system prompt is cached.
pub const SESSION_FILE_PATH: &'static str = "./resources/base_prompt.session";

/// The connection's system prompt.
pub const PROMPT_TEXT: &'static str = "<|im_start|>system\nYou are Terminal Alpha and Terminal Beta. Respond with ONLY valid JSON.

RULES:
1. Keep responses 1-3 sentences max
2. No emojis, no markdown
3. Output must be valid JSON

RESPONSE FORMAT:
{\"outcome\":{\"Final\":{\"response\":\"Hello! How can I help you today?\"}}}
{\"outcome\":{\"IntermediateToolCall\":{\"maybe_intermediate_response\":\"Checking weather for London\",\"tool_call\":{\"GetWeather\":{\"location\":\"London\"}}}}}
{\"outcome\":{\"IntermediateToolCall\":{\"maybe_intermediate_response\":null,\"tool_call\":{\"GetWeather\":{\"location\":\"Paris\"}}}}}

TOOLS:
- GetWeather: Requires specific location (e.g. \"London\"). If location is vague, ask for clarification in Final response.
- You can make multiple tool calls in separate steps. Make one call, receive the result in history, then make another if needed.

HISTORY:
You receive conversation history as JSON array (oldest to newest). Use it for context.<|im_end|>";

/// A system prompt and the file its evaluated state is cached in.
pub struct BasePrompt {
    prompt: String,
    session_path: String,
}

impl BasePrompt {
    /// The prompt's text.
    pub closed spec fn prompt_view(&self) -> Seq<char> {
        self.prompt@
    }

    /// The cache file's path.
    pub closed spec fn session_path_view(&self) -> Seq<char> {
        self.session_path@
    }

    /// The connection's prompt ([`PROMPT_TEXT`]), cached at [`SESSION_FILE_PATH`].
    pub fn new() -> (r: Self)
        ensures
            r.prompt_view() == PROMPT_TEXT@,
            r.session_path_view() == SESSION_FILE_PATH@,
    {
        BasePrompt { prompt: Self::build_prompt(), session_path: owned(SESSION_FILE_PATH) }
    }

    /// The prompt's text.
    pub fn as_str(&self) -> (r: &str)
        ensures
            r@ == self.prompt_view(),
    {
        self.prompt.as_str()
    }

    /// The cache file's path.
    pub fn session_path(&self) -> (r: &str)
        ensures
            r@ == self.session_path_view(),
    {
        self.session_path.as_str()
    }

    fn build_prompt() -> (r: String)
        ensures
            r@ == PROMPT_TEXT@,
    {
        owned(PROMPT_TEXT)
    }
}

} // verus!
