use buttre_engine::pipeline::context::TypingContext;
use buttre_engine::pipeline::stage::{PipelineStage, StageResult};

struct MockStage {
    should_continue: bool,
}

impl PipelineStage for MockStage {
    fn process(&self, ctx: &mut TypingContext, input: char) -> StageResult {
        ctx.push_raw(input);
        if self.should_continue {
            StageResult::Continue
        } else {
            StageResult::PassThrough
        }
    }

    fn name(&self) -> &'static str {
        "MockStage"
    }
}

struct UnnamedStage;

impl PipelineStage for UnnamedStage {
    fn process(&self, _ctx: &mut TypingContext, _input: char) -> StageResult {
        StageResult::Continue
    }
}

#[test]
fn test_stage_continue() {
    let stage = MockStage { should_continue: true };
    let mut ctx = TypingContext::new();
    let result = stage.process(&mut ctx, 'a');
    assert_eq!(result, StageResult::Continue);
    assert_eq!(ctx.raw_buffer(), "a");
}

#[test]
fn test_stage_passthrough() {
    let stage = MockStage { should_continue: false };
    let mut ctx = TypingContext::new();
    let result = stage.process(&mut ctx, 'a');
    assert_eq!(result, StageResult::PassThrough);
}

#[test]
fn test_stage_name() {
    let stage = MockStage { should_continue: true };
    assert_eq!(stage.name(), "MockStage");
}

#[test]
fn default_stage_name() {
    assert_eq!(UnnamedStage.name(), "UnnamedStage");
}
