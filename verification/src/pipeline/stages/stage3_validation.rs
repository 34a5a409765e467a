//! Validation stage: in strict mode, input that would make the syllable
//! invalid passes through untouched.

use vstd::prelude::*;
use crate::text::{is_alpha, is_num, char_is_alpha, char_is_num, str_chars, chars_to_string};
use crate::pipeline::config::PipelineConfig;
use crate::pipeline::validation::{is_valid_syllable_spec, SyllableStructure, parts_valid, split_spec, normalize_seq};
use crate::pipeline::context::TypingContext;
use crate::pipeline::stage::{PipelineStage, StageResult};

verus! {

/// Stage 3: validation.
#[derive(Debug, Clone)]
pub struct ValidationStage {
    /// Strict: reject input that makes the syllable invalid
    pub strict_mode: bool,
}

/// Valid for the stage: empty, or a valid Vietnamese syllable.
pub open spec fn stage_valid_syllable(s: Seq<char>) -> bool {
    s.len() == 0 || is_valid_syllable_spec(s)
}

/// What the validation stage answers for `input`.
pub open spec fn validation_result(strict: bool, ctx: TypingContext, input: char) -> StageResult {
    if !is_alpha(input) && !is_num(input) {
        if input == ' ' && ctx.showing_candidates { StageResult::Continue } else { StageResult::PassThrough }
    } else if strict && !stage_valid_syllable(ctx.syllable_buffer@.push(input)) {
        StageResult::PassThrough
    } else {
        StageResult::Continue
    }
}

impl ValidationStage {
    /// Permissive validation.
    pub fn new() -> (r: Self)
        ensures
            !r.strict_mode,
    {
        Self { strict_mode: false }
    }

    /// Strict exactly when the configuration's validation settings do not
    /// allow invalid syllables.
    pub fn from_config(config: &PipelineConfig) -> (r: Self)
        ensures
            r.strict_mode == (match config.validation {
                Some(v) => !v.allow_invalid,
                None => false,
            }),
    {
        match &config.validation {
            Some(v) => Self { strict_mode: !v.allow_invalid },
            None => Self::new(),
        }
    }

    /// Validation with the given strictness.
    pub fn with_strict_mode(strict: bool) -> (r: Self)
        ensures
            r.strict_mode == strict,
    {
        Self { strict_mode: strict }
    }

    /// Alphabetic chars are valid input.
    pub fn is_valid_char(&self, ch: char) -> (r: bool)
        ensures
            r == is_alpha(ch),
    {
        char_is_alpha(ch)
    }

    /// Empty, or a valid Vietnamese syllable.
    pub fn is_valid_syllable(&self, syllable: &str) -> (r: bool)
        ensures
            r == stage_valid_syllable(syllable@),
    {
        let chars = str_chars(syllable);
        if chars.len() == 0 {
            return true;
        }
        let structure = SyllableStructure::parse(syllable);
        structure.is_valid()
    }
}

impl Default for ValidationStage {
    fn default() -> (r: Self)
        ensures
            !r.strict_mode,
    {
        Self::new()
    }
}

impl ValidationStage {
    /// One key: the result of `validation_result`; the context is not changed.
    pub open spec fn steps(&self, before: TypingContext, input: char, r: StageResult, after: TypingContext) -> bool {
        &&& r == validation_result(self.strict_mode, before, input)
        &&& after == before
    }
}

impl PipelineStage for ValidationStage {
    /// Non-letters other than digits pass through (a space continues while
    /// candidates show); in strict mode so does input that invalidates the
    /// syllable. The context is not changed.
    fn process(&self, ctx: &mut TypingContext, input: char) -> (r: StageResult)
        ensures
            self.steps(*old(ctx), input, r, *final(ctx)),
    {
        if !self.is_valid_char(input) && !char_is_num(input) {
            if input == ' ' && ctx.showing_candidates {
                return StageResult::Continue;
            }
            return StageResult::PassThrough;
        }
        if self.strict_mode {
            let mut test = str_chars(ctx.syllable_buffer.as_str());
            test.push(input);
            let s = chars_to_string(test.as_slice());
            if !self.is_valid_syllable(s.as_str()) {
                return StageResult::PassThrough;
            }
        }
        StageResult::Continue
    }

    fn name(&self) -> (r: &'static str)
        ensures
            r@ == "ValidationStage"@,
    {
        "ValidationStage"
    }

    /// Nothing to reset: the stage keeps no state between keys.
    fn reset(&mut self)
        ensures
            *final(self) == *old(self),
    {
    }
}

} // verus!
