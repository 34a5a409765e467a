use buttre_engine::compose::ComposeOpts;
use buttre_engine::compose::segment::TransformMark;
use buttre_engine::compose::transform::apply_transforms;
use buttre_engine::pipeline::config::{PipelineConfig, ToneMark};
fn telex_opts() -> ComposeOpts {
    let mut cfg = PipelineConfig::new("telex");
    cfg.add_transform("aw", "ă");
    cfg.add_transform("aa", "â");
    cfg.add_transform("ee", "ê");
    cfg.add_transform("oo", "ô");
    cfg.add_transform("ow", "ơ");
    cfg.add_transform("uw", "ư");
    cfg.add_transform("dd", "đ");
    cfg.add_tone('s', ToneMark::Acute);
    ComposeOpts::from_config(&cfg)
}

fn tm(key: char, base_len: usize) -> TransformMark {
    TransformMark { key, base_len_at_typing: base_len, raw_pos: 0, non_adjacent: false }
}

#[test]
fn a_plus_w_yields_breve() {
    let opts = telex_opts();
    let result = apply_transforms("a", &[tm('w', 1)], &opts).0;
    assert_eq!(result, "ă");
}

#[test]
fn a_plus_a_yields_circumflex() {
    let opts = telex_opts();
    let result = apply_transforms("a", &[tm('a', 1)], &opts).0;
    assert_eq!(result, "â");
}

#[test]
fn uo_w_has_coda_yields_uhorn_ohorn() {
    let opts = telex_opts();
    let result = apply_transforms("tuong", &[tm('w', 5)], &opts).0;
    assert_eq!(result, "tương");
}

#[test]
fn uo_w_no_coda_yields_only_ohorn() {
    let opts = telex_opts();
    let result = apply_transforms("thuo", &[tm('w', 4)], &opts).0;
    assert_eq!(result, "thuơ");
}

#[test]
fn ngoa_w_transforms_a_not_o() {
    let opts = telex_opts();
    let result = apply_transforms("ngoa", &[tm('w', 4)], &opts).0;
    assert_eq!(result, "ngoă");
}

#[test]
fn uwa_w_transforms_u_not_a() {
    let opts = telex_opts();
    let result = apply_transforms("ua", &[tm('w', 1)], &opts).0;
    assert_eq!(result, "ưa");
}

#[test]
fn dd_transform() {
    let opts = telex_opts();
    let result = apply_transforms("d", &[tm('d', 1)], &opts).0;
    assert_eq!(result, "đ");
}

#[test]
fn unknown_mark_appended_literally() {
    let opts = telex_opts();
    let result = apply_transforms("ban", &[tm('z', 3)], &opts).0;
    assert_eq!(result, "banz");
}
