use buttre_engine::compose::ComposeOpts;
use buttre_engine::compose::fallback::{check_fallback, is_last_event_undo};
use buttre_engine::pipeline::config::{PipelineConfig, ToneMark};
fn telex_opts() -> ComposeOpts {
    let mut cfg = PipelineConfig::new("telex");
    cfg.add_transform("aa", "â");
    cfg.add_transform("aw", "ă");
    cfg.add_transform("ow", "ơ");
    cfg.add_transform("uw", "ư");
    cfg.add_transform("dd", "đ");
    cfg.add_tone('s', ToneMark::Acute);
    cfg.add_tone('f', ToneMark::Grave);
    cfg.add_tone('1', ToneMark::Acute);
    ComposeOpts::from_config(&cfg)
}

fn vni_opts() -> ComposeOpts {
    let mut cfg = PipelineConfig::new("vni");
    cfg.add_transform("a6", "â");
    cfg.add_transform("a8", "ă");
    cfg.add_transform("e6", "ê");
    cfg.add_transform("o6", "ô");
    cfg.add_transform("o7", "ơ");
    cfg.add_transform("u7", "ư");
    cfg.add_transform("d9", "đ");
    cfg.add_tone('1', ToneMark::Acute);
    cfg.add_tone('2', ToneMark::Grave);
    cfg.add_tone('3', ToneMark::Hook);
    cfg.add_tone('4', ToneMark::Tilde);
    cfg.add_tone('5', ToneMark::Dot);
    ComposeOpts::from_config(&cfg)
}

#[test]
fn aaa_triggers_undo() {
    let opts = telex_opts();
    let raw: Vec<char> = "aaa".chars().collect();
    let result = check_fallback(&raw, &opts, true);
    assert!(result.is_handled, "aaa should trigger undo");
    assert_eq!(result.text, "aa");
    assert!(result.temp_english);
}

#[test]
fn aww_triggers_undo() {
    let opts = telex_opts();
    let raw: Vec<char> = "aww".chars().collect();
    let result = check_fallback(&raw, &opts, true);
    assert!(result.is_handled, "aww should trigger undo");
    assert_eq!(result.text, "aw");
}

#[test]
fn ass_triggers_tone_undo() {
    let opts = telex_opts();
    let raw: Vec<char> = "ass".chars().collect();
    let result = check_fallback(&raw, &opts, true);
    assert!(result.is_handled, "ass should trigger tone undo");
    assert_eq!(result.text, "as");
    assert!(result.temp_english);
}

#[test]
fn as_does_not_trigger() {
    let opts = telex_opts();
    let raw: Vec<char> = "as".chars().collect();
    let result = check_fallback(&raw, &opts, true);
    assert!(!result.is_handled);
}

#[test]
fn ddd_triggers_dd_undo() {
    let opts = telex_opts();
    let raw: Vec<char> = "ddd".chars().collect();
    let result = check_fallback(&raw, &opts, true);
    assert!(result.is_handled, "ddd should trigger undo");
    assert_eq!(result.text, "dd");
}

#[test]
fn a11_triggers_tone_undo() {
    let opts = telex_opts();
    let raw: Vec<char> = "a11".chars().collect();
    let result = check_fallback(&raw, &opts, true);
    assert!(result.is_handled, "a11 should trigger tone undo");
    assert_eq!(result.text, "a1");
}

#[test]
fn vni_a611_keep_circumflex() {
    let opts = vni_opts();
    let raw: Vec<char> = "a611".chars().collect();
    let result = check_fallback(&raw, &opts, true);
    assert!(result.is_handled, "a611 should trigger transform-preserving undo");
    assert_eq!(result.text, "â1", "a611: should keep â and strip tone to give â1");
}

#[test]
fn vni_a822_keep_breve() {
    let opts = vni_opts();
    let raw: Vec<char> = "a822".chars().collect();
    let result = check_fallback(&raw, &opts, true);
    assert!(result.is_handled, "a822 should trigger transform-preserving undo");
    assert_eq!(result.text, "ă2", "a822: should keep ă and strip tone to give ă2");
}

#[test]
fn vni_u733_keep_horn() {
    let opts = vni_opts();
    let raw: Vec<char> = "u733".chars().collect();
    let result = check_fallback(&raw, &opts, true);
    assert!(result.is_handled, "u733 should trigger transform-preserving undo");
    assert_eq!(result.text, "ư3", "u733: should keep ư and strip tone to give ư3");
}

#[test]
fn vni_o744_keep_horn() {
    let opts = vni_opts();
    let raw: Vec<char> = "o744".chars().collect();
    let result = check_fallback(&raw, &opts, true);
    assert!(result.is_handled, "o744 should trigger transform-preserving undo");
    assert_eq!(result.text, "ơ4", "o744: should keep ơ and strip tone to give ơ4");
}

#[test]
fn vni_u7o711_keep_compound_horn() {
    let opts = vni_opts();
    let raw: Vec<char> = "u7o711".chars().collect();
    let result = check_fallback(&raw, &opts, true);
    assert!(result.is_handled, "u7o711 should trigger transform-preserving undo");
    assert_eq!(result.text, "ươ1", "u7o711: should keep ươ and strip tone to give ươ1");
}

#[test]
fn vni_a111_is_a11_not_reapply() {
    let opts = vni_opts();
    let raw: Vec<char> = "a111".chars().collect();
    let result = check_fallback(&raw, &opts, true);
    assert!(!result.is_handled, "a111 odd count: fallback defers to compose (which gives a11)");
}

#[test]
fn vni_a66_fires_transform_undo() {
    let opts = vni_opts();
    let raw: Vec<char> = "a66".chars().collect();
    let result = check_fallback(&raw, &opts, true);
    assert!(result.is_handled, "a66 should fire transform undo");
    assert_eq!(result.text, "a6", "a66 → a6 + temp_english");
}

#[test]
fn telex_ddaaa_preserves_dstroke() {
    let opts = telex_opts();
    let raw: Vec<char> = "ddaaa".chars().collect();
    let result = check_fallback(&raw, &opts, true);
    assert!(result.is_handled, "ddaaa should trigger transform undo");
    assert_eq!(result.text, "đaa",
        "ddaaa → đaa: dd prefix re-composed to đ, aa literal (transform-preserving undo)");
    assert!(result.temp_english);
}

#[test]
fn telex_ddeee_preserves_dstroke() {
    let opts = telex_opts_with_ee();
    let raw: Vec<char> = "ddeee".chars().collect();
    let result = check_fallback(&raw, &opts, true);
    assert!(result.is_handled, "ddeee should trigger transform undo");
    assert_eq!(result.text, "đee",
        "ddeee → đee: dd prefix re-composed to đ, ee literal (transform-preserving undo)");
    assert!(result.temp_english);
}

#[test]
fn telex_ddooo_preserves_dstroke() {
    let opts = telex_opts_with_oo();
    let raw: Vec<char> = "ddooo".chars().collect();
    let result = check_fallback(&raw, &opts, true);
    assert!(result.is_handled, "ddooo should trigger transform undo");
    assert_eq!(result.text, "đoo",
        "ddooo → đoo: dd prefix re-composed to đ, oo literal (transform-preserving undo)");
    assert!(result.temp_english);
}

fn telex_opts_with_ee() -> ComposeOpts {
    let mut cfg = PipelineConfig::new("telex");
    cfg.add_transform("aa", "â");
    cfg.add_transform("aw", "ă");
    cfg.add_transform("ee", "ê");
    cfg.add_transform("oo", "ô");
    cfg.add_transform("ow", "ơ");
    cfg.add_transform("uw", "ư");
    cfg.add_transform("dd", "đ");
    cfg.add_tone('s', ToneMark::Acute);
    cfg.add_tone('f', ToneMark::Grave);
    cfg.add_tone('1', ToneMark::Acute);
    ComposeOpts::from_config(&cfg)
}

fn telex_opts_with_oo() -> ComposeOpts {
    telex_opts_with_ee()
}

#[test]
fn telex_fanss_triggers_tone_undo() {
    let opts = telex_opts();
    let raw: Vec<char> = "fanss".chars().collect();
    let result = check_fallback(&raw, &opts, true);
    assert!(result.is_handled, "fanss should trigger tone undo (trailing-run fix)");
    assert_eq!(result.text, "fans", "fanss → fans + temp_english");
    assert!(result.temp_english);
}

#[test]
fn telex_seess_triggers_tone_undo_with_ee_transform() {
    let opts = telex_opts_with_ee();
    let raw: Vec<char> = "seess".chars().collect();
    let result = check_fallback(&raw, &opts, true);
    assert!(result.is_handled, "seess should trigger tone undo (trailing-run fix)");
    assert_eq!(result.text, "sês", "seess → sês + temp_english (ee transform preserved)");
    assert!(result.temp_english);
}

#[test]
fn telex_sass_triggers_tone_undo() {
    let opts = telex_opts();
    let raw: Vec<char> = "sass".chars().collect();
    let result = check_fallback(&raw, &opts, true);
    assert!(result.is_handled, "sass should trigger tone undo");
    assert_eq!(result.text, "sas");
    assert!(result.temp_english);
}

#[test]
fn telex_sinff_triggers_tone_undo() {
    let opts = telex_opts();
    let raw: Vec<char> = "sinff".chars().collect();
    let result = check_fallback(&raw, &opts, true);
    assert!(result.is_handled, "sinff should trigger tone undo (trailing-run fix)");
    assert_eq!(result.text, "sinf", "sinff → sinf + temp_english");
    assert!(result.temp_english);
}

#[test]
fn nonadjacent_undo_cana_a_fires() {
    let opts = telex_opts();
    let raw: Vec<char> = "canaa".chars().collect();
    let result = check_fallback(&raw, &opts, true);
    assert!(result.is_handled, "canaa should undo the non-adjacent â mark");
    assert_eq!(result.text, "cana");
    assert!(result.temp_english);
}

#[test]
fn nonadjacent_undo_uppercase_trigger_fires() {
    let opts = telex_opts();
    let raw: Vec<char> = "canaA".chars().collect();
    let result = check_fallback(&raw, &opts, true);
    assert!(result.is_handled, "uppercase retype of the trigger must still undo");
    assert_eq!(result.text, "cana");
}

#[test]
fn nonadjacent_undo_dand_d_consonant_class_fires() {
    let opts = telex_opts();
    let raw: Vec<char> = "dandd".chars().collect();
    let result = check_fallback(&raw, &opts, true);
    assert!(result.is_handled, "dandd should undo the non-adjacent đ mark");
    assert_eq!(result.text, "dand");
    assert!(result.temp_english);
}

#[test]
fn nonadjacent_undo_vni_digit_parity_fires() {
    let opts = vni_opts();
    let raw: Vec<char> = "can66".chars().collect();
    let result = check_fallback(&raw, &opts, true);
    assert!(result.is_handled, "VNI digit retype must undo exactly like Telex");
    assert_eq!(result.text, "can6");
    assert!(result.temp_english);
}

#[test]
fn nonadjacent_undo_vieteje_immediacy_violated() {
    let opts = telex_opts();
    let raw: Vec<char> = "vieteje".chars().collect();
    let result = check_fallback(&raw, &opts, true);
    assert!(!result.is_handled, "vieteje must not undo: immediacy violated");
}

#[test]
fn nonadjacent_undo_aaa_adjacent_toggle_claims_tail_first() {
    let opts = telex_opts();
    let raw: Vec<char> = "canaaa".chars().collect();
    let result = check_fallback(&raw, &opts, true);
    assert!(result.is_handled);
    assert_eq!(result.text, "canaa",
        "adjacent toggle must claim the trailing 'aaa' triple; must not be 'cana' (non-adjacent undo's answer)");
}

#[test]
fn parity_fold_a611_is_undo() {
    let opts = vni_opts();
    let raw: Vec<char> = "a611".chars().collect();
    assert!(is_last_event_undo(&raw, &opts), "a611's tail is a fired tone-undo (-> â1)");
}

#[test]
fn parity_fold_seess_is_undo() {
    let opts = telex_opts_with_ee();
    let raw: Vec<char> = "seess".chars().collect();
    assert!(is_last_event_undo(&raw, &opts), "seess's tail is a fired tone-undo (-> sês)");
}

#[test]
fn parity_fold_vie65t5_same_tone_repress_is_undo() {
    let opts = vni_opts();
    let raw: Vec<char> = "vie65t5".chars().collect();
    assert!(is_last_event_undo(&raw, &opts),
        "vie65t5 undoes via same-tone repress (-> viêt5), not trailing parity");
}

#[test]
fn parity_fold_aaa_is_undo() {
    let opts = telex_opts();
    let raw: Vec<char> = "aaa".chars().collect();
    assert!(is_last_event_undo(&raw, &opts), "aaa's tail is a fired transform-undo (-> aa)");
}

#[test]
fn parity_fold_dessign_undo_fires_at_dess_not_full_word() {
    let opts = telex_opts();
    assert!(is_last_event_undo(&"dess".chars().collect::<Vec<_>>(), &opts),
        "the 2nd 's' in dessign is the undo-firing instant");
    assert!(!is_last_event_undo(&"dessign".chars().collect::<Vec<_>>(), &opts),
        "the full word's tail is no longer an undo pattern");
}

#[test]
fn parity_fold_plain_compose_is_not_undo() {
    let opts = telex_opts();
    assert!(!is_last_event_undo(&"viet".chars().collect::<Vec<_>>(), &opts));
    assert!(!is_last_event_undo(&"a".chars().collect::<Vec<_>>(), &opts));
    assert!(!is_last_event_undo(&"cana".chars().collect::<Vec<_>>(), &opts),
        "cana composes to 'cân' — not itself an undo event");
}
