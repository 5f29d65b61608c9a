//! The system prompt of the hive bot's llama.cpp service, with the session
//! file its evaluated state is cached in.

use vstd::prelude::*;

verus! {

/// Where the evaluated system prompt is cached.
pub const SESSION_FILE_PATH: &'static str = "./resources/base_prompt.session";

/// Context window of the service, in tokens.
pub const CONTEXT_SIZE: u32 = 8192;

/// Most tokens one reply may generate.
pub const MAX_GENERATION_TOKENS: usize = 2000;

/// The service's system prompt.
pub const PROMPT_TEXT: &'static str = "<|im_start|>system\nYou are Terminal Alpha and Terminal Beta. Respond with ONLY valid JSON.

RULES:
1. Keep responses 1-3 sentences max
2. No emojis, no markdown
3. Output must be valid JSON

RESPONSE FORMAT:
{\"outcome\":{\"Final\":{\"response\":\"Hello! How can I help you today?\"}}}
{\"outcome\":{\"IntermediateToolCall\":{\"maybe_intermediate_response\":\"Checking weather for London\",\"tool_call\":{\"GetWeather\":{\"location\":\"London\"}}}}}
{\"outcome\":{\"IntermediateToolCall\":{\"maybe_intermediate_response\":null,\"tool_call\":{\"GetWeather\":{\"location\":\"Paris\"}}}}}
{\"outcome\":{\"IntermediateToolCall\":{\"maybe_intermediate_response\":\"Searching for information about Rust programming\",\"tool_call\":{\"WebSearch\":{\"query\":\"Rust programming language\"}}}}}
{\"outcome\":{\"IntermediateToolCall\":{\"maybe_intermediate_response\":null,\"tool_call\":{\"WebSearch\":{\"query\":\"latest AI developments 2024\"}}}}}

TOOLS:
- GetWeather: Requires specific location (e.g. \"London\"). If location is vague, ask for clarification in Final response.
- WebSearch: Performs web searches using Brave Search API. Requires a search query string. The tool returns search results with short descriptions only (not full page content). Use this to find current information, look up facts, or research topics. Example queries: \"Rust programming language\", \"weather API documentation\", \"latest news about AI\".
- You can make multiple tool calls in separate steps. Make one call, receive the result in history, then make another if needed.

HISTORY:
You receive conversation history as JSON array (oldest to newest). Use it for context.<|im_end|>";

/// A system prompt and the file its evaluated state is cached in.
#[derive(Clone, Copy)]
pub struct BasePrompt {
    prompt: &'static str,
    session_path: &'static str,
}

impl BasePrompt {
    /// The prompt's text.
    pub closed spec fn prompt_view(&self) -> Seq<char> {
        self.prompt@
    }

    /// The cache file's path.
    pub closed spec fn session_path_view(&self) -> Seq<char> {
        self.session_path@
    }

    /// The service's prompt ([`PROMPT_TEXT`]), cached at [`SESSION_FILE_PATH`].
    pub fn new() -> (r: Self)
        ensures
            r.prompt_view() == PROMPT_TEXT@,
            r.session_path_view() == SESSION_FILE_PATH@,
    {
        BasePrompt { prompt: Self::build_prompt(), session_path: SESSION_FILE_PATH }
    }

    /// The prompt's text.
    pub fn as_str(&self) -> (r: &'static str)
        ensures
            r@ == self.prompt_view(),
    {
        self.prompt
    }

    /// The cache file's path.
    pub fn session_path(&self) -> (r: &'static str)
        ensures
            r@ == self.session_path_view(),
    {
        self.session_path
    }

    fn build_prompt() -> (r: &'static str)
        ensures
            r@ == PROMPT_TEXT@,
    {
        PROMPT_TEXT
    }
}

} // verus!
