//! Learning stage: collects completed syllables for the session.

use vstd::prelude::*;
use crate::pipeline::context::TypingContext;
use crate::pipeline::stage::{PipelineStage, StageResult};

verus! {

/// Stage 10: learning.
#[derive(Clone)]
pub struct LearningStage {
    /// Whether learning is enabled
    pub enabled: bool,
    /// Maximum number of syllables kept
    pub max_history: usize,
}

impl LearningStage {
    /// Disabled, keeping up to 1000 syllables.
    pub fn new() -> (r: Self)
        ensures
            !r.enabled,
            r.max_history == 1000,
    {
        Self { enabled: false, max_history: 1000 }
    }

    /// With the given settings.
    pub fn with_settings(enabled: bool, max_history: usize) -> (r: Self)
        ensures
            r.enabled == enabled,
            r.max_history == max_history,
    {
        Self { enabled, max_history }
    }

    /// Enable or disable learning.
    pub fn set_enabled(&mut self, enabled: bool)
        ensures
            final(self).enabled == enabled,
            final(self).max_history == old(self).max_history,
    {
        self.enabled = enabled;
    }

    /// Whether learning is enabled.
    pub fn is_enabled(&self) -> (r: bool)
        ensures
            r == self.enabled,
    {
        self.enabled
    }

    /// Record a completed syllable when learning is on for both the stage
    /// and the session, and the history is not full.
    pub fn record_syllable(&self, ctx: &mut TypingContext, syllable: &str)
        ensures
            ({
                let records = self.enabled && old(ctx).learning_enabled
                    && old(ctx).completed_syllables@.len() < self.max_history;
                &&& records ==> final(ctx).completed_syllables@.len() == old(ctx).completed_syllables@.len() + 1
                    && final(ctx).completed_syllables@.drop_last() == old(ctx).completed_syllables@
                    && final(ctx).completed_syllables@.last()@ == syllable@
                &&& !records ==> final(ctx).completed_syllables == old(ctx).completed_syllables
            }),
            *final(ctx) == (TypingContext { completed_syllables: final(ctx).completed_syllables, ..*old(ctx) }),
    {
        if !self.enabled || !ctx.learning_enabled {
            return;
        }
        if ctx.completed_syllables.len() < self.max_history {
            ctx.completed_syllables.push(String::from_str(syllable));
        }
    }
}

impl Default for LearningStage {
    fn default() -> (r: Self)
        ensures
            !r.enabled,
            r.max_history == 0,
    {
        Self { enabled: false, max_history: 0 }
    }
}

impl LearningStage {
    /// One key: continue with the context unchanged.
    pub open spec fn steps(&self, before: TypingContext, input: char, r: StageResult, after: TypingContext) -> bool {
        &&& r == StageResult::Continue
        &&& after == before
    }
}

impl PipelineStage for LearningStage {
    /// Nothing is tracked yet: continue without changes.
    fn process(&self, ctx: &mut TypingContext, input: char) -> (r: StageResult)
        ensures
            self.steps(*old(ctx), input, r, *final(ctx)),
    {
        StageResult::Continue
    }

    fn name(&self) -> (r: &'static str)
        ensures
            r@ == "LearningStage"@,
    {
        "LearningStage"
    }

    /// Nothing to reset: the stage keeps no state between keys.
    fn reset(&mut self)
        ensures
            *final(self) == *old(self),
    {
    }
}

} // verus!
