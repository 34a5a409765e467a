//! The interface every processing stage implements.

use vstd::prelude::*;
use crate::types::Action;
use super::context::TypingContext;

verus! {

/// What a stage tells the executor.
#[derive(Debug, Clone, PartialEq)]
pub enum StageResult {
    /// Go on to the next stage.
    Continue,
    /// Stop and pass the input through unchanged.
    PassThrough,
    /// Stop and emit these actions.
    Output(Vec<Action>),
}

/// A processing stage: reads and updates the typing context for one key.
pub trait PipelineStage: Send + Sync {
    /// Process one input character.
    fn process(&self, ctx: &mut TypingContext, input: char) -> StageResult;

    /// The stage's name (`"UnnamedStage"` unless the stage gives one).
    fn name(&self) -> (r: &'static str)
        default_ensures
            r@ == "UnnamedStage"@,
    {
        "UnnamedStage"
    }

    /// Reset internal state.
    fn reset(&mut self) {
    }
}

} // verus!
