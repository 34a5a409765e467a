use std::sync::Arc;
use buttre_engine::pipeline::config::{LookupSettings, PipelineConfig};
use buttre_engine::pipeline::context::{Candidate, CandidateType, TypingContext};
use buttre_engine::pipeline::dictionary::{DictionaryProvider, SimpleDictionary};
use buttre_engine::pipeline::stage::{PipelineStage, StageResult};
use buttre_engine::pipeline::stages::LookupStage;
use buttre_engine::types::Action;

fn dict() -> Arc<dyn DictionaryProvider> {
    let mut d = SimpleDictionary::new();
    d.add("nguoi", "người", CandidateType::Vietnamese, 1.0f32.to_bits());
    d.add("nguoi", "𠊛", CandidateType::Nom, 0.5f32.to_bits());
    d.add("troi", "trời", CandidateType::Vietnamese, 1.0f32.to_bits());
    Arc::new(d)
}

fn ctx_with(syllable: &str) -> TypingContext {
    let mut ctx = TypingContext::new();
    ctx.syllable_buffer = syllable.to_string();
    ctx
}

#[test]
fn disabled_stage_continues_unchanged() {
    let stage = LookupStage::new(false);
    let mut ctx = ctx_with("nguoi");
    assert_eq!(stage.process(&mut ctx, 'i'), StageResult::Continue);
    assert!(ctx.candidates.is_empty());
    assert!(!ctx.showing_candidates);
}

#[test]
fn lookup_without_dictionary_is_empty() {
    assert!(LookupStage::new(true).lookup("nguoi").is_empty());
}

#[test]
fn lookup_stores_candidates() {
    let stage = LookupStage::with_dictionary(dict());
    let mut ctx = ctx_with("nguoi");
    assert_eq!(stage.process(&mut ctx, 'i'), StageResult::Continue);
    assert_eq!(ctx.candidates.len(), 2);
    assert_eq!(ctx.candidates[0].text, "người");
    assert!(ctx.showing_candidates);
}

#[test]
fn no_candidates_hides_window() {
    let stage = LookupStage::with_dictionary(dict());
    let mut ctx = ctx_with("xyz");
    ctx.showing_candidates = true;
    stage.process(&mut ctx, 'z');
    assert!(ctx.candidates.is_empty());
    assert!(!ctx.showing_candidates);
}

#[test]
fn auto_replace_takes_top_candidate() {
    let stage = LookupStage::with_dictionary(dict()).with_auto_replace(true);
    let mut ctx = ctx_with("troi");
    stage.process(&mut ctx, 'i');
    assert_eq!(ctx.syllable_buffer, "trời");
    assert!(!ctx.showing_candidates);
}

fn config_with(space: &str, enter: &str) -> PipelineConfig {
    let mut cfg = PipelineConfig::new("nom");
    let mut settings = LookupSettings::default();
    settings.space_behavior = space.to_string();
    settings.enter_behavior = enter.to_string();
    cfg.lookup = Some(settings);
    cfg.dictionary = Some(dict());
    cfg
}

fn showing(stage: &LookupStage, syllable: &str) -> TypingContext {
    let mut ctx = ctx_with(syllable);
    stage.process(&mut ctx, 'x');
    assert!(ctx.showing_candidates);
    ctx
}

#[test]
fn space_always_select_picks_first() {
    let stage = LookupStage::from_config(&config_with("always_select", "passthrough"));
    let mut ctx = showing(&stage, "nguoi");
    let r = stage.process(&mut ctx, ' ');
    assert_eq!(
        r,
        StageResult::Output(vec![
            Action::HideCandidates,
            Action::Replace { backspace_count: 5, text: "người".to_string() },
        ])
    );
    assert!(ctx.candidates.is_empty());
    assert_eq!(ctx.syllable_buffer, "");
}

#[test]
fn space_auto_select_single_only_with_one_candidate() {
    let stage = LookupStage::from_config(&config_with("auto_select_single", "passthrough"));
    let mut one = showing(&stage, "troi");
    assert!(matches!(stage.process(&mut one, ' '), StageResult::Output(_)));
    let mut two = showing(&stage, "nguoi");
    assert_eq!(stage.process(&mut two, ' '), StageResult::Continue);
}

#[test]
fn space_pass_through_keeps_candidates() {
    let stage = LookupStage::from_config(&config_with("other", "passthrough"));
    let mut ctx = showing(&stage, "nguoi");
    assert_eq!(stage.process(&mut ctx, ' '), StageResult::Continue);
    assert_eq!(ctx.candidates.len(), 2);
}

#[test]
fn enter_select_current_uses_highlight() {
    let stage = LookupStage::from_config(&config_with("always_search", "select_current"));
    let mut ctx = showing(&stage, "nguoi");
    ctx.selected_candidate = Some(1);
    let r = stage.process(&mut ctx, '\n');
    assert_eq!(
        r,
        StageResult::Output(vec![
            Action::HideCandidates,
            Action::Replace { backspace_count: 5, text: "𠊛".to_string() },
        ])
    );
}

#[test]
fn candidate_value_is_inserted() {
    let stage = LookupStage::from_config(&config_with("always_select", "passthrough"));
    let mut ctx = ctx_with("thien");
    ctx.candidates = vec![Candidate {
        text: "天 (trời)".to_string(),
        value: Some("天".to_string()),
        candidate_type: CandidateType::Nom,
        score_bits: 0,
    }];
    ctx.showing_candidates = true;
    let r = stage.process(&mut ctx, ' ');
    assert_eq!(
        r,
        StageResult::Output(vec![
            Action::HideCandidates,
            Action::Replace { backspace_count: 5, text: "天".to_string() },
        ])
    );
}

#[test]
fn description_mentions_settings() {
    assert_eq!(LookupStage::new(true).describe(), "LookupStage { enabled: true, has_dictionary: false }");
    assert_eq!(
        LookupStage::with_dictionary(dict()).describe(),
        "LookupStage { enabled: true, has_dictionary: true }"
    );
}

#[test]
fn lookup_query_matches_lookup() {
    let stage = LookupStage::with_dictionary(dict());
    assert_eq!(stage.lookup_query("troi").len(), 1);
    assert_eq!(stage.lookup("troi")[0].text, "trời");
}
