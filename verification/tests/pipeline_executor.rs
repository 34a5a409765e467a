use buttre_engine::pipeline::config::PipelineConfig;
use buttre_engine::pipeline::executor::{pass_through_actions, PipelineExecutor};
use buttre_engine::pipeline::presets::{telex_config, vni_config};
use buttre_engine::types::Action;

fn type_word(ex: &mut PipelineExecutor, keys: &str) {
    for c in keys.chars() {
        ex.process(c);
    }
}

#[test]
fn default_pipeline_has_seven_stages() {
    let ex = PipelineExecutor::new(telex_config());
    assert_eq!(ex.stage_count(), 7);
}

#[test]
fn configured_stage_list_is_honoured() {
    let mut cfg = telex_config();
    cfg.pipeline.enabled = vec!["compose".to_string(), "retired".to_string(), "validation".to_string()];
    let ex = PipelineExecutor::new(cfg);
    assert_eq!(ex.stage_count(), 5);
}

#[test]
fn telex_word_composes() {
    let mut ex = PipelineExecutor::new(telex_config());
    type_word(&mut ex, "vieetj");
    assert_eq!(ex.get_buffer(), "việt");
    assert_eq!(ex.syllable(), "việt");
    assert_eq!(ex.raw_buffer(), "vieetj");
}

#[test]
fn vni_word_composes() {
    let mut ex = PipelineExecutor::new(vni_config());
    type_word(&mut ex, "vie65t");
    assert_eq!(ex.get_buffer(), "việt");
}

#[test]
fn reset_clears_the_word() {
    let mut ex = PipelineExecutor::new(telex_config());
    type_word(&mut ex, "aa");
    assert_eq!(ex.get_buffer(), "â");
    ex.reset();
    assert_eq!(ex.get_buffer(), "");
    assert_eq!(ex.raw_buffer(), "");
    assert!(!ex.is_temp_english_mode());
}

#[test]
fn separator_commits_and_resets() {
    let mut ex = PipelineExecutor::new(telex_config());
    type_word(&mut ex, "aa");
    let actions = ex.process(' ');
    assert_eq!(actions.last(), Some(&Action::Commit(" ".to_string())));
    assert_eq!(ex.get_buffer(), "");
}

#[test]
fn pass_through_without_composition_commits_key_only() {
    assert_eq!(pass_through_actions(false, "việt", ' '), vec![Action::Commit(" ".to_string())]);
}

#[test]
fn pass_through_with_composition_confirms_first() {
    assert_eq!(
        pass_through_actions(true, "việt", ','),
        vec![Action::ConfirmComposition("việt".to_string()), Action::Commit(",".to_string())]
    );
    assert_eq!(pass_through_actions(true, "", ','), vec![Action::Commit(",".to_string())]);
}

#[test]
fn new_context_is_fresh() {
    let ex = PipelineExecutor::new(PipelineConfig::new("plain"));
    assert!(ex.context().char_buffer.is_empty());
    assert_eq!(ex.stage_count(), 7);
}
