use buttre_engine::compose::ComposeOpts;
use buttre_engine::pipeline::config::PipelineConfig;
use buttre_engine::pipeline::context::{CharInfo, TypingContext};
use buttre_engine::pipeline::presets::{telex_config, vni_config};
use buttre_engine::pipeline::stage::{PipelineStage, StageResult};
use buttre_engine::pipeline::stages::compose_stage::{
    apply_case_mask, is_probe_trigger_char, is_repeated_trigger_tap, ComposeStage,
};

fn make_buf(s: &str) -> Vec<CharInfo> {
    s.chars().map(CharInfo::new).collect()
}

fn no_tone_opts() -> ComposeOpts {
    ComposeOpts::from_config(&PipelineConfig::new("test"))
}

fn telex_opts() -> ComposeOpts {
    ComposeOpts::from_config(&telex_config())
}

fn vni_opts() -> ComposeOpts {
    ComposeOpts::from_config(&vni_config())
}

fn raw(s: &str) -> Vec<char> {
    s.chars().collect()
}

#[test]
fn lowercase_unchanged() {
    let buf = make_buf("aa");
    assert_eq!(apply_case_mask("â", &buf, &no_tone_opts()), "â");
}

#[test]
fn first_upper_capitalizes_first_char() {
    let buf = vec![CharInfo::with_case('a', true), CharInfo::with_case('a', false)];
    assert_eq!(apply_case_mask("â", &buf, &no_tone_opts()), "Â");
}

#[test]
fn all_caps_uppercases_result() {
    let buf = vec![CharInfo::with_case('a', true), CharInfo::with_case('a', true)];
    assert_eq!(apply_case_mask("â", &buf, &no_tone_opts()), "Â");
}

#[test]
fn all_caps_multi_char() {
    let buf = vec![
        CharInfo::with_case('t', true),
        CharInfo::with_case('h', true),
        CharInfo::with_case('u', true),
    ];
    assert_eq!(apply_case_mask("thu", &buf, &no_tone_opts()), "THU");
}

#[test]
fn mixed_case_per_char() {
    let buf = vec![
        CharInfo::with_case('t', true),
        CharInfo::with_case('h', true),
        CharInfo::with_case('u', false),
    ];
    assert_eq!(apply_case_mask("thư", &buf, &no_tone_opts()), "THư");
}

#[test]
fn mixed_case_title_only() {
    let buf = vec![
        CharInfo::with_case('t', true),
        CharInfo::with_case('h', false),
        CharInfo::with_case('u', false),
    ];
    assert_eq!(apply_case_mask("thư", &buf, &no_tone_opts()), "Thư");
}

#[test]
fn doubling_collapse_dd() {
    let buf = vec![
        CharInfo::with_case('d', true),
        CharInfo::with_case('d', true),
        CharInfo::with_case('a', false),
    ];
    assert_eq!(apply_case_mask("đa", &buf, &telex_opts()), "Đa", "DDa: DD collapse → Đ; a stays lowercase");
}

#[test]
fn partial_caps_ng_prefix() {
    let buf = vec![
        CharInfo::with_case('n', true),
        CharInfo::with_case('g', true),
        CharInfo::with_case('u', false),
        CharInfo::with_case('w', false),
        CharInfo::with_case('o', false),
        CharInfo::with_case('w', false),
        CharInfo::with_case('i', false),
        CharInfo::with_case('f', false),
    ];
    assert_eq!(apply_case_mask("người", &buf, &telex_opts()), "NGười", "NGuwowif: N+G prefix uppercase preserved");
}

#[test]
fn tone_key_not_counted_as_content() {
    let buf = vec![
        CharInfo::with_case('n', true),
        CharInfo::with_case('g', true),
        CharInfo::with_case('u', true),
        CharInfo::with_case('o', true),
        CharInfo::with_case('i', true),
        CharInfo::with_case('f', false),
    ];
    assert_eq!(apply_case_mask("người", &buf, &telex_opts()), "NGƯỜI");
}

#[test]
fn probe_trigger_char_plain_letter_never_triggers() {
    let opts = telex_opts();
    for c in ['i', 'g', 'n', 'b', 'c', 't'] {
        assert!(!is_probe_trigger_char(c, &opts), "'{c}' must not be a probe trigger");
    }
}

#[test]
fn probe_trigger_char_tone_key_triggers() {
    let opts = telex_opts();
    for c in ['s', 'f', 'r', 'x', 'j'] {
        assert!(is_probe_trigger_char(c, &opts), "tone key '{c}' must be a probe trigger");
    }
}

#[test]
fn probe_trigger_char_transform_trigger_triggers() {
    let opts = telex_opts();
    for c in ['a', 'w', 'd', 'e', 'o'] {
        assert!(is_probe_trigger_char(c, &opts), "transform trigger '{c}' must be a probe trigger");
    }
}

#[test]
fn probe_trigger_char_vni_digit_triggers() {
    let opts = vni_opts();
    for c in ['6', '7', '8', '9'] {
        assert!(is_probe_trigger_char(c, &opts), "VNI digit '{c}' must be a probe trigger");
    }
    for c in ['1', '2', '3', '4', '5'] {
        assert!(is_probe_trigger_char(c, &opts), "VNI tone digit '{c}' must be a probe trigger");
    }
}

#[test]
fn repeated_trigger_tap_two_is_not_repeated() {
    assert!(!is_repeated_trigger_tap(&raw("boo")));
    assert!(!is_repeated_trigger_tap(&raw("a")));
    assert!(!is_repeated_trigger_tap(&raw("")));
}

#[test]
fn repeated_trigger_tap_three_or_more_is_repeated() {
    assert!(is_repeated_trigger_tap(&raw("tisss")), "3x trailing 's' is the no-reapply zone");
    assert!(is_repeated_trigger_tap(&raw("a1111")), "4x trailing '1' is also caught");
    assert!(is_repeated_trigger_tap(&raw("awww")), "3x trailing 'w' (non-doubling trigger) is caught too");
}

#[test]
fn repeated_trigger_tap_case_insensitive() {
    assert!(is_repeated_trigger_tap(&raw("tiSsS")), "run detection must be case-insensitive");
}

fn type_keys(stage: &ComposeStage, ctx: &mut TypingContext, keys: &str) {
    for c in keys.chars() {
        ctx.push_char_info(CharInfo::new(c));
        assert_eq!(stage.process(ctx, c), StageResult::Continue);
    }
}

#[test]
fn compose_stage_recomputes_syllable() {
    let stage = ComposeStage::from_config(&telex_config());
    let mut ctx = TypingContext::new();
    type_keys(&stage, &mut ctx, "vieetj");
    assert_eq!(ctx.syllable_buffer, "việt");
    assert!(!ctx.temp_english_mode);
}

#[test]
fn compose_stage_keeps_case_of_keys() {
    let stage = ComposeStage::from_config(&telex_config());
    let mut ctx = TypingContext::new();
    type_keys(&stage, &mut ctx, "Vieetj");
    assert_eq!(ctx.syllable_buffer, "Việt");
}

#[test]
fn compose_stage_run_on_input_latches_literal() {
    let stage = ComposeStage::from_config(&telex_config());
    let mut ctx = TypingContext::new();
    type_keys(&stage, &mut ctx, "abcdefghijklmnopq");
    assert!(ctx.temp_english_mode);
    assert!(ctx.syllable_buffer.ends_with('q'));
}
