use buttre_engine::pipeline::config::ToneConfig;
use buttre_engine::pipeline::permutation::{
    apply_marks_permutation, apply_tone_to_cluster, apply_transform_to_cluster, extract_base_and_marks, MarkOp,
};
use buttre_engine::vowel::{find_vowel_clusters, VowelCluster};

fn last_cluster(s: &str) -> VowelCluster {
    let clusters = find_vowel_clusters(s);
    clusters[clusters.len() - 1].clone()
}

#[test]
fn telex_split_keeps_onset_r_in_base() {
    assert_eq!(
        extract_base_and_marks("truongwf", false),
        ("truong".to_string(), vec![MarkOp::Transform('w'), MarkOp::Tone('f')])
    );
}

#[test]
fn vni_split_takes_digit_and_tone_letter() {
    assert_eq!(
        extract_base_and_marks("truong6f", true),
        ("truong".to_string(), vec![MarkOp::Transform('6'), MarkOp::Tone('f')])
    );
}

#[test]
fn telex_split_marks_inside_word() {
    let expected = ("truong".to_string(), vec![MarkOp::Transform('w'), MarkOp::Tone('f')]);
    assert_eq!(extract_base_and_marks("truwongf", false), expected);
    assert_eq!(extract_base_and_marks("truowfng", false), expected);
}

#[test]
fn telex_split_onset_s_and_x_stay_in_base() {
    assert_eq!(extract_base_and_marks("sas", false), ("sa".to_string(), vec![MarkOp::Tone('s')]));
    assert_eq!(extract_base_and_marks("xinh", false), ("xinh".to_string(), vec![]));
}

#[test]
fn permutation_truong_w_f() {
    let cfg = ToneConfig::default();
    let marks = [MarkOp::Transform('w'), MarkOp::Tone('f')];
    assert_eq!(apply_marks_permutation("truong", &marks, &cfg), Some("trường".to_string()));
}

#[test]
fn permutation_without_vowel_is_none() {
    let cfg = ToneConfig::default();
    assert_eq!(apply_marks_permutation("bcd", &[MarkOp::Tone('s')], &cfg), None);
}

#[test]
fn permutation_old_style_tone() {
    let cfg = ToneConfig::default();
    assert_eq!(apply_marks_permutation("hoa", &[MarkOp::Tone('f')], &cfg), Some("hòa".to_string()));
    assert_eq!(apply_marks_permutation("toan", &[MarkOp::Tone('s')], &cfg), Some("toán".to_string()));
}

#[test]
fn transform_rules_on_cluster() {
    let cfg = ToneConfig::default();
    assert_eq!(apply_transform_to_cluster("ban", &last_cluster("ban"), '6', &cfg), Some("băn".to_string()));
    assert_eq!(apply_transform_to_cluster("ban", &last_cluster("ban"), '7', &cfg), Some("bân".to_string()));
    assert_eq!(apply_transform_to_cluster("to", &last_cluster("to"), 'w', &cfg), Some("tơ".to_string()));
    assert_eq!(apply_transform_to_cluster("ban", &last_cluster("ban"), 'x', &cfg), None);
}

#[test]
fn vni_nine_turns_d_into_dd() {
    let cfg = ToneConfig::default();
    assert_eq!(apply_transform_to_cluster("da", &last_cluster("da"), '9', &cfg), Some("đa".to_string()));
    assert_eq!(apply_transform_to_cluster("Da", &last_cluster("Da"), '9', &cfg), Some("Đa".to_string()));
    assert_eq!(apply_transform_to_cluster("ba", &last_cluster("ba"), '9', &cfg), None);
}

#[test]
fn horn_hooks_uo_pair() {
    let cfg = ToneConfig::default();
    assert_eq!(apply_transform_to_cluster("muon", &last_cluster("muon"), '7', &cfg), Some("mươn".to_string()));
}

#[test]
fn tone_follows_super_vowel() {
    let cfg = ToneConfig::default();
    assert_eq!(apply_tone_to_cluster("trương", &last_cluster("trương"), 'f', &cfg), Some("trường".to_string()));
}
