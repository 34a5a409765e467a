//! Normalization stage: records the typed character with its case.

use vstd::prelude::*;
use crate::text::{is_alpha, lower_of, is_upper, char_is_alpha, char_lower};
use crate::pipeline::context::{TypingContext, CharInfo};
use crate::pipeline::stage::{PipelineStage, StageResult};

verus! {

/// Stage 1: normalization.
#[derive(Debug, Clone)]
pub struct NormalizationStage {
    /// Whether to preserve case (unused: the char buffer tracks case)
    pub preserve_case: bool,
}

impl NormalizationStage {
    /// Create the stage.
    pub fn new() -> (r: Self)
        ensures
            !r.preserve_case,
    {
        Self { preserve_case: false }
    }

    /// Lowercase an alphabetic char (first char of its lowercase form);
    /// other chars are unchanged.
    pub fn normalize_char(&self, ch: char) -> (r: char)
        ensures
            r == (if is_alpha(ch) { lower_of(ch) } else { ch }),
    {
        if char_is_alpha(ch) { char_lower(ch) } else { ch }
    }
}

impl Default for NormalizationStage {
    fn default() -> (r: Self)
        ensures
            !r.preserve_case,
    {
        Self::new()
    }
}

impl NormalizationStage {
    /// One key: recorded (lowercased, with its case) in the char buffer; continue.
    pub open spec fn steps(&self, before: TypingContext, input: char, r: StageResult, after: TypingContext) -> bool {
        &&& r == StageResult::Continue
        &&& after.char_buffer@ == before.char_buffer@.push(CharInfo { ch: lower_of(input), is_uppercase: is_upper(input) })
        &&& after == (TypingContext { char_buffer: after.char_buffer, ..before })
    }
}

impl PipelineStage for NormalizationStage {
    /// Record the input (lowercased, with its case) and continue.
    fn process(&self, ctx: &mut TypingContext, input: char) -> (r: StageResult)
        ensures
            self.steps(*old(ctx), input, r, *final(ctx)),
    {
        let _normalized = self.normalize_char(input);
        ctx.push_raw(input);
        StageResult::Continue
    }

    fn name(&self) -> (r: &'static str)
        ensures
            r@ == "NormalizationStage"@,
    {
        "NormalizationStage"
    }

    /// Nothing to reset: the stage keeps no state between keys.
    fn reset(&mut self)
        ensures
            *final(self) == *old(self),
    {
    }
}

} // verus!
