//! Text-generation response model.

use vstd::prelude::*;

verus! {

/// Response from text generation. In a streamed exchange each instance is
/// one chunk of the response; the chunk with `done == true` is terminal
/// and is the only one guaranteed to carry the timing and count fields.
#[derive(Debug, Clone, PartialEq, Eq)]
pub struct GenerateResponse {
    /// The model that was used.
    pub model: String,
    /// The generated text; incremental in a streamed exchange.
    pub response: String,
    /// Whether this is the terminal chunk.
    pub done: bool,
    /// Context for conversation continuity.
    pub context: Option<Vec<i32>>,
    /// Total duration in nanoseconds.
    pub total_duration: Option<u64>,
    /// Load duration in nanoseconds.
    pub load_duration: Option<u64>,
    /// Prompt evaluation count.
    pub prompt_eval_count: Option<u32>,
    /// Prompt evaluation duration in nanoseconds.
    pub prompt_eval_duration: Option<u64>,
    /// Evaluation count.
    pub eval_count: Option<u32>,
    /// Evaluation duration in nanoseconds.
    pub eval_duration: Option<u64>,
}

/// Ghost-level model of a `GenerateResponse`.
pub struct GenerateResponseV {
    pub model: Seq<char>,
    pub response: Seq<char>,
    pub done: bool,
    pub context: Option<Seq<i32>>,
    pub total_duration: Option<u64>,
    pub load_duration: Option<u64>,
    pub prompt_eval_count: Option<u32>,
    pub prompt_eval_duration: Option<u64>,
    pub eval_count: Option<u32>,
    pub eval_duration: Option<u64>,
}

impl View for GenerateResponse {
    type V = GenerateResponseV;

    open spec fn view(&self) -> GenerateResponseV {
        GenerateResponseV {
            model: self.model@,
            response: self.response@,
            done: self.done,
            context: match self.context {
                Some(c) => Some(c@),
                None => None,
            },
            total_duration: self.total_duration,
            load_duration: self.load_duration,
            prompt_eval_count: self.prompt_eval_count,
            prompt_eval_duration: self.prompt_eval_duration,
            eval_count: self.eval_count,
            eval_duration: self.eval_duration,
        }
    }
}

} // verus!
