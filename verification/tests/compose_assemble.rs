use buttre_engine::compose::ComposeOpts;
use buttre_engine::compose::assemble::apply_tone;
use buttre_engine::pipeline::config::{PipelineConfig, ToneMark};
fn telex_opts() -> ComposeOpts {
    let mut cfg = PipelineConfig::new("telex");
    cfg.add_tone('s', ToneMark::Acute);
    cfg.add_tone('f', ToneMark::Grave);
    cfg.add_tone('r', ToneMark::Hook);
    cfg.add_tone('x', ToneMark::Tilde);
    cfg.add_tone('j', ToneMark::Dot);
    ComposeOpts::from_config(&cfg)
}

#[test]
fn a_acute() {
    let opts = telex_opts();
    assert_eq!(apply_tone("a", 's', &opts), Some("á".to_string()));
}

#[test]
fn ba_grave() {
    let opts = telex_opts();
    assert_eq!(apply_tone("ba", 'f', &opts), Some("bà".to_string()));
}

#[test]
fn tuong_hook() {
    let opts = telex_opts();
    assert_eq!(apply_tone("tương", 'f', &opts), Some("tường".to_string()));
}

#[test]
fn unknown_tone_key_returns_none() {
    let opts = telex_opts();
    assert_eq!(apply_tone("a", 'z', &opts), None);
}

#[test]
fn multi_vowel_nucleus_open_ia() {
    let opts = telex_opts();
    let result = apply_tone("ia", 's', &opts);
    assert_eq!(result, Some("ía".to_string()));
}
