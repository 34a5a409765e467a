use buttre_engine::compose::ComposeOpts;
use buttre_engine::compose::segment::{segment, Segment};
use buttre_engine::pipeline::config::{PipelineConfig, ToneMark, ValidationSettings};
fn telex_opts() -> ComposeOpts {
    let mut cfg = PipelineConfig::new("telex");
    cfg.add_transform("aa", "â");
    cfg.add_transform("aw", "ă");
    cfg.add_transform("ee", "ê");
    cfg.add_transform("oo", "ô");
    cfg.add_transform("ow", "ơ");
    cfg.add_transform("uw", "ư");
    cfg.add_transform("dd", "đ");
    cfg.add_tone('s', ToneMark::Acute);
    cfg.add_tone('f', ToneMark::Grave);
    cfg.add_tone('r', ToneMark::Hook);
    cfg.add_tone('x', ToneMark::Tilde);
    cfg.add_tone('j', ToneMark::Dot);
    ComposeOpts::from_config(&cfg)
}

fn hmong_opts() -> ComposeOpts {
    let mut cfg = PipelineConfig::new("hmong-test");
    cfg.add_transform("aa", "â");
    cfg.add_transform("aw", "ă");
    cfg.add_transform("ee", "ê");
    cfg.add_transform("oo", "ô");
    cfg.add_transform("ow", "ơ");
    cfg.add_transform("uw", "ư");
    cfg.add_transform("dd", "đ");
    cfg.add_tone('s', ToneMark::Acute);
    cfg.add_tone('f', ToneMark::Grave);
    cfg.add_tone('r', ToneMark::Hook);
    cfg.add_tone('x', ToneMark::Tilde);
    cfg.add_tone('j', ToneMark::Dot);
    cfg.validation = Some(ValidationSettings { syllable_structure: "hmong".to_string(), allow_invalid: true });
    ComposeOpts::from_config(&cfg)
}

fn transform_keys(seg: &Segment) -> Vec<char> {
    seg.transforms.iter().map(|t| t.key).collect()
}

#[test]
fn basic_tone_key_after_vowel() {
    let opts = telex_opts();
    let raw: Vec<char> = "as".chars().collect();
    let seg = segment(&raw, &opts, true);
    assert_eq!(seg.base, "a");
    assert!(seg.transforms.is_empty());
    assert_eq!(seg.tones, vec!['s']);
}

#[test]
fn s_as_initial_consonant() {
    let opts = telex_opts();
    let raw: Vec<char> = "sinh".chars().collect();
    let seg = segment(&raw, &opts, true);
    assert!(seg.base.contains('s'));
    assert!(seg.tones.is_empty());
}

#[test]
fn f_before_vowel_is_literal_not_tone() {
    let opts = telex_opts();
    let raw: Vec<char> = "fan".chars().collect();
    let seg = segment(&raw, &opts, true);
    assert!(seg.tones.is_empty(), "leading 'f' must not be collected as tone: {:?}", seg.tones);
    assert!(seg.base.starts_with('f'), "leading 'f' must be in base: '{}'", seg.base);
}

#[test]
fn f_after_vowel_is_tone() {
    let opts = telex_opts();
    let raw: Vec<char> = "af".chars().collect();
    let seg = segment(&raw, &opts, true);
    assert_eq!(seg.tones, vec!['f'], "post-vowel 'f' must be tone");
    assert_eq!(seg.base, "a");
}

#[test]
fn j_before_vowel_is_literal() {
    let opts = telex_opts();
    let raw: Vec<char> = "jin".chars().collect();
    let seg = segment(&raw, &opts, true);
    assert!(seg.tones.is_empty(), "leading 'j' must not be collected as tone: {:?}", seg.tones);
    assert!(seg.base.starts_with('j'));
}

#[test]
fn adjacent_double_transform() {
    let opts = telex_opts();
    let raw: Vec<char> = "aa".chars().collect();
    let seg = segment(&raw, &opts, true);
    assert_eq!(seg.base, "a");
    assert_eq!(transform_keys(&seg), vec!['a']);
}

#[test]
fn w_is_transform_not_tone() {
    let opts = telex_opts();
    let raw: Vec<char> = "ow".chars().collect();
    let seg = segment(&raw, &opts, true);
    assert_eq!(seg.base, "o");
    assert_eq!(transform_keys(&seg), vec!['w']);
    assert!(seg.tones.is_empty());
}

#[test]
fn fallbaack_no_transform() {
    let opts = telex_opts();
    let raw: Vec<char> = "fallbaack".chars().collect();
    let seg = segment(&raw, &opts, true);
    assert!(seg.transforms.is_empty(), "guard must block transform in 'fallbaack': {:?}", seg.transforms);
    assert_eq!(seg.base, "fallbaack");
}

#[test]
fn implemeent_no_transform() {
    let opts = telex_opts();
    let raw: Vec<char> = "implemeent".chars().collect();
    let seg = segment(&raw, &opts, true);
    assert!(seg.transforms.is_empty(), "guard must block transform in 'implemeent': {:?}", seg.transforms);
    assert_eq!(seg.base, "implemeent");
}

#[test]
fn vietnamese_config_bypasses_legacy_shape_guards() {
    let opts = telex_opts();
    for word in ["fallback", "implement", "impleme"] {
        let raw: Vec<char> = word.chars().collect();
        let seg = segment(&raw, &opts, true);
        assert!(!seg.transforms.is_empty(),
            "Vietnamese config must bypass the legacy shape guards for '{word}' at segment level: {:?}", seg.transforms);
    }
}

#[test]
fn hmong_config_legacy_shape_guards_still_block() {
    let opts = hmong_opts();
    for word in ["fallback", "implement", "impleme"] {
        let raw: Vec<char> = word.chars().collect();
        let seg = segment(&raw, &opts, true);
        assert!(seg.transforms.is_empty(),
            "Hmong config must keep the legacy shape guards active for '{word}': {:?}", seg.transforms);
        assert_eq!(seg.base, word);
    }
}

#[test]
fn vietej_nonadjacent_transform_fires() {
    let opts = telex_opts();
    let raw: Vec<char> = "viete".chars().collect();
    let seg = segment(&raw, &opts, true);
    assert_eq!(transform_keys(&seg), vec!['e'], "non-adjacent must fire in 'viete'");
}

#[test]
fn viet_ee_transform_fires() {
    let opts = telex_opts();
    let raw: Vec<char> = "vieet".chars().collect();
    let seg = segment(&raw, &opts, true);
    assert_eq!(transform_keys(&seg), vec!['e'], "ee transform must fire in 'vieet'");
}

#[test]
fn baan_aa_transform_fires() {
    let opts = telex_opts();
    let raw: Vec<char> = "baan".chars().collect();
    let seg = segment(&raw, &opts, true);
    assert_eq!(transform_keys(&seg), vec!['a'], "aa transform must fire in 'baan'");
}

#[test]
fn dodong_d_fires_as_onset_transform() {
    let opts = telex_opts();
    let raw: Vec<char> = "dodongf".chars().collect();
    let seg = segment(&raw, &opts, true);
    assert_eq!(seg.base, "dong", "base must be 'dong' after both transforms extracted");
    assert_eq!(transform_keys(&seg), vec!['d', 'o'], "both 'd' and 'o' must be transform marks");
    assert_eq!(seg.tones, vec!['f']);
}

#[test]
fn direct_map_double_key() {
    let mut cfg = PipelineConfig::new("cham");
    cfg.native_script_mode = true;
    cfg.add_transform("k", "ꨆ");
    cfg.add_transform("kk", "ꩀ");
    let opts = ComposeOpts::from_config(&cfg);

    let raw: Vec<char> = "kk".chars().collect();
    let seg = segment(&raw, &opts, true);
    assert_eq!(seg.base, "ꩀ");
}

fn vni_opts() -> ComposeOpts {
    let mut cfg = PipelineConfig::new("vni");
    cfg.add_transform("a6", "â");
    cfg.add_transform("a8", "ă");
    cfg.add_transform("e6", "ê");
    cfg.add_transform("o6", "ô");
    cfg.add_transform("o7", "ơ");
    cfg.add_transform("u7", "ư");
    cfg.add_transform("d9", "đ");
    cfg.add_tone('1', ToneMark::Acute);
    cfg.add_tone('2', ToneMark::Grave);
    ComposeOpts::from_config(&cfg)
}

fn non_adjacent_flags(seg: &Segment) -> Vec<bool> {
    seg.transforms.iter().map(|t| t.non_adjacent).collect()
}

#[test]
fn vieet_adjacent_double_is_not_flagged() {
    let opts = telex_opts();
    let raw: Vec<char> = "vieet".chars().collect();
    let seg = segment(&raw, &opts, true);
    assert_eq!(non_adjacent_flags(&seg), vec![false], "adjacent 'ee' must not be flagged non-adjacent");
}

#[test]
fn how_standalone_w_is_not_flagged() {
    let opts = telex_opts();
    let raw: Vec<char> = "how".chars().collect();
    let seg = segment(&raw, &opts, true);
    assert_eq!(non_adjacent_flags(&seg), vec![false], "how's 'w' must not be flagged non-adjacent");
}

#[test]
fn viete_nonadjacent_double_is_flagged() {
    let opts = telex_opts();
    let raw: Vec<char> = "viete".chars().collect();
    let seg = segment(&raw, &opts, true);
    assert_eq!(non_adjacent_flags(&seg), vec![true], "viete's 'e' must be flagged non-adjacent");
}

#[test]
fn reset_tone_key_between_vowels_is_flagged() {
    let opts = telex_opts();
    let raw: Vec<char> = "reset".chars().collect();
    let seg = segment(&raw, &opts, true);
    assert_eq!(transform_keys(&seg), vec!['e']);
    assert_eq!(non_adjacent_flags(&seg), vec![true], "reset's 'e' must be flagged non-adjacent (tone key between)");
}

#[test]
fn nasa_tone_key_between_vowels_is_flagged() {
    let opts = telex_opts();
    let raw: Vec<char> = "nasa".chars().collect();
    let seg = segment(&raw, &opts, true);
    assert_eq!(transform_keys(&seg), vec!['a']);
    assert_eq!(non_adjacent_flags(&seg), vec![true], "nasa's 'a' must be flagged non-adjacent (tone key between)");
}

#[test]
fn dodongf_both_marks_flagged_non_adjacent() {
    let opts = telex_opts();
    let raw: Vec<char> = "dodongf".chars().collect();
    let seg = segment(&raw, &opts, true);
    assert_eq!(transform_keys(&seg), vec!['d', 'o']);
    assert_eq!(non_adjacent_flags(&seg), vec![true, true], "both đ and o must be flagged non-adjacent");
}

#[test]
fn luuw_retry_target_inherits_adjacent_flag() {
    let opts = telex_opts();
    let raw: Vec<char> = "luuw".chars().collect();
    let seg = segment(&raw, &opts, true);
    assert_eq!(non_adjacent_flags(&seg), vec![false], "luuw's 'w' must not be flagged non-adjacent");
}

#[test]
fn vni_prefix_digit_base_len_zero_is_adjacent() {
    let opts = vni_opts();
    let raw: Vec<char> = "6a".chars().collect();
    let seg = segment(&raw, &opts, true);
    assert_eq!(seg.transforms.len(), 1);
    assert_eq!(seg.transforms[0].base_len_at_typing, 0);
    assert!(!seg.transforms[0].non_adjacent, "base_len==0 prefix mark must be adjacent by definition");
}

#[test]
fn vni_nhat_digit_after_coda_is_flagged_non_adjacent() {
    let opts = vni_opts();
    let raw: Vec<char> = "nhat6".chars().collect();
    let seg = segment(&raw, &opts, true);
    assert_eq!(transform_keys(&seg), vec!['6']);
    assert_eq!(non_adjacent_flags(&seg), vec![true]);
}

#[test]
fn demote_suppresses_nonadjacent_mark_keeps_literal() {
    let opts = telex_opts();
    let raw: Vec<char> = "viete".chars().collect();
    let seg = segment(&raw, &opts, false);
    assert!(seg.transforms.is_empty(), "demote pass must extract no marks: {:?}", seg.transforms);
    assert_eq!(seg.base, "viete");
}

#[test]
fn demote_preserves_adjacent_marks() {
    let opts = telex_opts();
    let raw: Vec<char> = "vieet".chars().collect();
    let seg = segment(&raw, &opts, false);
    assert_eq!(transform_keys(&seg), vec!['e'], "adjacent mark must still fire when demoted");
}

#[test]
fn demote_suppresses_backward_referring_d() {
    let opts = telex_opts();
    let raw: Vec<char> = "dodongf".chars().collect();
    let seg = segment(&raw, &opts, false);
    assert!(seg.transforms.is_empty(), "demote pass must extract no marks: {:?}", seg.transforms);
    assert_eq!(seg.base, "dodong");
    assert_eq!(seg.tones, vec!['f']);
}

#[test]
fn demote_suppresses_vni_standalone_digit() {
    let opts = vni_opts();
    let raw: Vec<char> = "nhat6".chars().collect();
    let seg = segment(&raw, &opts, false);
    assert!(seg.transforms.is_empty(), "demote pass must suppress VNI standalone digit: {:?}", seg.transforms);
    assert_eq!(seg.base, "nhat6");
}
