//! A llama.cpp system prompt of the chat bot: its text, the session file its
//! evaluated state is cached in, and the grammar its replies are held to.

use vstd::prelude::*;

verus! {

/// A system prompt, its cache file and its grammar.
#[derive(Clone, Copy)]
pub struct BasePrompt {
    prompt: &'static str,
    session_path: &'static str,
    associated_grammar: &'static str,
}

impl BasePrompt {
    /// The prompt's text.
    pub closed spec fn prompt_view(&self) -> Seq<char> {
        self.prompt@
    }

    /// The cache file's path.
    pub closed spec fn session_path_view(&self) -> Seq<char> {
        self.session_path@
    }

    /// The grammar replies are held to.
    pub closed spec fn grammar_view(&self) -> Seq<char> {
        self.associated_grammar@
    }

    /// A prompt with its cache file and grammar.
    pub fn new(prompt: &'static str, session_path: &'static str, associated_grammar: &'static str) -> (r: Self)
        ensures
            r.prompt_view() == prompt@,
            r.session_path_view() == session_path@,
            r.grammar_view() == associated_grammar@,
    {
        BasePrompt { prompt, session_path, associated_grammar }
    }

    /// The prompt's text.
    pub fn as_str(&self) -> (r: &'static str)
        ensures
            r@ == self.prompt_view(),
    {
        self.prompt
    }

    /// The cache file's path.
    pub fn session_path(&self) -> (r: &'static str)
        ensures
            r@ == self.session_path_view(),
    {
        self.session_path
    }

    /// The grammar replies are held to.
    pub fn associated_grammar(&self) -> (r: &'static str)
        ensures
            r@ == self.grammar_view(),
    {
        self.associated_grammar
    }
}

} // verus!
