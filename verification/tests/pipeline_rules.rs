use buttre_engine::pipeline::context::TypingContext;
use buttre_engine::pipeline::rules::{ConditionalRule, ContextRule, RuleAction, RuleMatcher};

#[test]
fn test_matcher_always() {
    let ctx = TypingContext::new();
    let matcher = RuleMatcher::Always;
    assert!(matcher.matches(&ctx));
}

#[test]
fn test_matcher_pattern() {
    let mut ctx = TypingContext::new();
    ctx.set_syllable("hello".to_string());

    let matcher = RuleMatcher::Pattern("ell".to_string());
    assert!(matcher.matches(&ctx));

    let matcher = RuleMatcher::Pattern("xyz".to_string());
    assert!(!matcher.matches(&ctx));
}

#[test]
fn test_matcher_ends_with() {
    let mut ctx = TypingContext::new();
    ctx.set_syllable("trư".to_string());

    let matcher = RuleMatcher::EndsWith("ư".to_string());
    assert!(matcher.matches(&ctx));
}

#[test]
fn test_matcher_and() {
    let mut ctx = TypingContext::new();
    ctx.set_syllable("trư".to_string());
    ctx.last_char = Some('w');

    let matcher = RuleMatcher::And(vec![
        RuleMatcher::EndsWith("ư".to_string()),
        RuleMatcher::LastChar('w'),
    ]);
    assert!(matcher.matches(&ctx));
}

#[test]
fn test_action_skip() {
    let mut ctx = TypingContext::new();
    let action = RuleAction::Skip;
    assert!(action.execute(&mut ctx)); // Should return true (skip)
}

#[test]
fn test_action_replace() {
    let mut ctx = TypingContext::new();
    let action = RuleAction::Replace("test".to_string());
    assert!(!action.execute(&mut ctx)); // Should return false (continue)
    assert_eq!(ctx.syllable_buffer, "test");
}

#[test]
fn test_context_rule() {
    let mut ctx = TypingContext::new();
    ctx.set_syllable("trư".to_string());
    ctx.last_char = Some('w');
    ctx.last_transform_key = Some('w');

    let rule = ContextRule::new(
        "test_rule",
        RuleMatcher::And(vec![
            RuleMatcher::EndsWith("ư".to_string()),
            RuleMatcher::LastChar('w'),
        ]),
        RuleAction::Skip,
    );

    assert!(rule.matches(&ctx));
    assert!(rule.execute(&mut ctx)); // Should skip
}

#[test]
fn test_conditional_rule() {
    let mut ctx = TypingContext::new();
    ctx.set_syllable("aa".to_string());

    let rule = ConditionalRule::with_condition(
        "aa",
        "â",
        RuleMatcher::Not(Box::new(RuleMatcher::StartsWith("q".to_string()))),
    );

    assert!(rule.should_apply(&ctx));

    ctx.set_syllable("qaa".to_string());
    assert!(!rule.should_apply(&ctx));
}

struct LongerThan(usize);

impl buttre_engine::pipeline::rules::ContextPredicate for LongerThan {
    fn test(&self, ctx: &TypingContext) -> bool {
        ctx.syllable_buffer.chars().count() > self.0
    }
}

#[test]
fn custom_predicate_is_asked() {
    let mut ctx = TypingContext::new();
    ctx.set_syllable("abcd".to_string());
    assert!(RuleMatcher::Custom(Box::new(LongerThan(3))).matches(&ctx));
    assert!(!RuleMatcher::Custom(Box::new(LongerThan(4))).matches(&ctx));
}

#[test]
fn matcher_variants() {
    let mut ctx = TypingContext::new();
    ctx.set_syllable("quê".to_string());
    ctx.last_transform_key = Some('e');
    assert!(!RuleMatcher::Never.matches(&ctx));
    assert!(RuleMatcher::StartsWith("qu".to_string()).matches(&ctx));
    assert!(!RuleMatcher::StartsWith("quêê".to_string()).matches(&ctx));
    assert!(RuleMatcher::Pattern("".to_string()).matches(&ctx));
    assert!(RuleMatcher::LastTransformKey('e').matches(&ctx));
    assert!(RuleMatcher::Length(3).matches(&ctx));
    assert!(RuleMatcher::LengthRange(2, 3).matches(&ctx));
    assert!(!RuleMatcher::LengthRange(4, 9).matches(&ctx));
    assert!(RuleMatcher::Or(vec![RuleMatcher::Never, RuleMatcher::EndsWith("ê".to_string())]).matches(&ctx));
    assert!(!RuleMatcher::Or(vec![]).matches(&ctx));
    assert!(RuleMatcher::And(vec![]).matches(&ctx));
}

#[test]
fn actions_change_context() {
    let mut ctx = TypingContext::new();
    ctx.set_syllable("ng".to_string());
    assert!(!RuleAction::Append("ươi".to_string()).execute(&mut ctx));
    assert_eq!(ctx.syllable_buffer, "ngươi");
    assert!(!RuleAction::SetFlag("w_converted".to_string(), true).execute(&mut ctx));
    assert!(ctx.get_flag("w_converted"));
    assert!(!RuleAction::SetTransformKey('w').execute(&mut ctx));
    assert_eq!(ctx.last_transform_key, Some('w'));
    assert!(!RuleAction::Clear.execute(&mut ctx));
    assert_eq!(ctx.syllable_buffer, "");
}

#[test]
fn descriptions() {
    let m = RuleMatcher::And(vec![
        RuleMatcher::EndsWith("ư".to_string()),
        RuleMatcher::LastChar('w'),
        RuleMatcher::Not(Box::new(RuleMatcher::LengthRange(2, 10))),
    ]);
    assert_eq!(m.describe(), "And([EndsWith(\"ư\"), LastChar('w'), Not(LengthRange(2, 10))])");
    assert_eq!(RuleMatcher::Custom(Box::new(LongerThan(1))).describe(), "Custom(<closure>)");
    assert_eq!(RuleAction::SetFlag("x".to_string(), false).describe(), "SetFlag(\"x\", false)");
    assert_eq!(RuleAction::Replace("ươ".to_string()).describe(), "Replace(\"ươ\")");
}

#[test]
fn unconditional_rule_always_applies() {
    let rule = ConditionalRule::new("aa", "â");
    assert!(rule.should_apply(&TypingContext::new()));
}
