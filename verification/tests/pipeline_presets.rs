use buttre_engine::pipeline::config::{PipelineConfig, ToneMark, ToneStyle, UnicodeForm};
use buttre_engine::pipeline::presets::{simple_telex_config, telex_config, viqr_config, vni_config};

fn rule<'a>(config: &'a PipelineConfig, key: &str) -> Option<&'a String> {
    config.transform_rules.iter().find(|(k, _)| k == key).map(|(_, v)| v)
}

fn tone(config: &PipelineConfig, key: char) -> Option<&ToneMark> {
    config.tone_map.iter().find(|(k, _)| *k == key).map(|(_, t)| t)
}

#[test]
fn test_telex_config_name() {
    let config = telex_config();
    assert_eq!(config.name, "telex");
}

#[test]
fn test_telex_has_transformations() {
    let config = telex_config();

    assert_eq!(rule(&config, "aa"), Some(&"â".to_string()));
    assert_eq!(rule(&config, "aw"), Some(&"ă".to_string()));
    assert_eq!(rule(&config, "dd"), Some(&"đ".to_string()));
    assert_eq!(rule(&config, "ee"), Some(&"ê".to_string()));
    assert_eq!(rule(&config, "oo"), Some(&"ô".to_string()));
    assert_eq!(rule(&config, "ow"), Some(&"ơ".to_string()));
    assert_eq!(rule(&config, "uw"), Some(&"ư".to_string()));
}

#[test]
fn test_telex_has_uppercase_transformations() {
    let config = telex_config();

    assert_eq!(rule(&config, "AA"), Some(&"Â".to_string()));
    assert_eq!(rule(&config, "DD"), Some(&"Đ".to_string()));
}

#[test]
fn test_telex_has_tones() {
    let config = telex_config();

    assert_eq!(tone(&config, 's'), Some(&ToneMark::Acute));
    assert_eq!(tone(&config, 'f'), Some(&ToneMark::Grave));
    assert_eq!(tone(&config, 'r'), Some(&ToneMark::Hook));
    assert_eq!(tone(&config, 'x'), Some(&ToneMark::Tilde));
    assert_eq!(tone(&config, 'j'), Some(&ToneMark::Dot));
}

#[test]
fn test_telex_settings() {
    let config = telex_config();

    assert!(!config.enable_lookup);
    assert_eq!(config.tone_style, ToneStyle::Old); // Uses old style (óa, úa, úy)
    assert_eq!(config.unicode_form, UnicodeForm::NFC);
}

#[test]
fn test_vni_config_name() {
    let config = vni_config();
    assert_eq!(config.name, "vni");
}

#[test]
fn test_vni_has_transformations() {
    let config = vni_config();

    assert_eq!(rule(&config, "a6"), Some(&"â".to_string()));
    assert_eq!(rule(&config, "a8"), Some(&"ă".to_string()));
    assert_eq!(rule(&config, "d9"), Some(&"đ".to_string()));
    assert_eq!(rule(&config, "e6"), Some(&"ê".to_string()));
    assert_eq!(rule(&config, "o6"), Some(&"ô".to_string()));
    assert_eq!(rule(&config, "o7"), Some(&"ơ".to_string()));
    assert_eq!(rule(&config, "u7"), Some(&"ư".to_string()));
}

#[test]
fn test_vni_has_tones() {
    let config = vni_config();

    assert_eq!(tone(&config, '1'), Some(&ToneMark::Acute));
    assert_eq!(tone(&config, '2'), Some(&ToneMark::Grave));
    assert_eq!(tone(&config, '3'), Some(&ToneMark::Hook));
    assert_eq!(tone(&config, '4'), Some(&ToneMark::Tilde));
    assert_eq!(tone(&config, '5'), Some(&ToneMark::Dot));
    assert_eq!(tone(&config, '0'), Some(&ToneMark::NoTone));
}

#[test]
fn test_vni_settings() {
    let config = vni_config();

    assert!(!config.enable_lookup);
    assert_eq!(config.tone_style, ToneStyle::Old); // Uses old style (óa, úa, úy)
    assert_eq!(config.unicode_form, UnicodeForm::NFC);
}

#[test]
fn test_simple_telex_returns_config() {
    let config = simple_telex_config();
    assert_eq!(config.name, "telex"); // Currently returns standard Telex
}

#[test]
fn test_viqr_returns_config() {
    let config = viqr_config();
    assert_eq!(config.name, "viqr");
}
