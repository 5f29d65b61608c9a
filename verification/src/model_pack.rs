//! The parts of a model pack's manifest that the runtime reads: context sizes,
//! prompt-format switches and the reasoning close marker.

use vstd::prelude::*;

verus! {

/// Context and batching sizes of a model.
#[derive(PartialEq, Eq, Structural, Clone, Copy, Debug)]
pub struct Context {
    pub n_ctx: u32,
    pub n_batch: i32,
    pub batch_chunk: usize,
    pub max_generation_tokens: usize,
}

/// How the chat template is driven, and which reply parser reads the output.
pub struct Format {
    pub enable_thinking: bool,
    pub add_generation_prompt: bool,
    pub parser: String,
}

/// The marker that closes the model's reasoning block.
pub struct Thinking {
    pub close_marker: String,
}

} // verus!
