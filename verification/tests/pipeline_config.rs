use buttre_engine::pipeline::config::{PipelineConfig, ToneMark, ToneStyle, UnicodeForm};

fn rule<'a>(config: &'a PipelineConfig, key: &str) -> Option<&'a String> {
    config.transform_rules.iter().find(|(k, _)| k == key).map(|(_, v)| v)
}

#[test]
fn test_new_config() {
    let config = PipelineConfig::new("test");
    assert_eq!(config.name, "test");
    assert!(config.transform_rules.is_empty());
    assert!(config.tone_map.is_empty());
}

#[test]
fn test_add_transform() {
    let mut config = PipelineConfig::new("test");
    config.add_transform("aa", "â");
    assert_eq!(rule(&config, "aa"), Some(&"â".to_string()));
}

#[test]
fn test_add_tone() {
    let mut config = PipelineConfig::new("test");
    config.add_tone('s', ToneMark::Acute);
    assert!(config.is_tone_key('s'));
    assert_eq!(config.get_tone('s'), Some(ToneMark::Acute));
    assert!(!config.is_tone_key('x'));
}

#[test]
fn test_tone_mark_equality() {
    assert_eq!(ToneMark::Acute, ToneMark::Acute);
    assert_ne!(ToneMark::Acute, ToneMark::Grave);
}

#[test]
fn test_tone_style() {
    assert_eq!(ToneStyle::New, ToneStyle::New);
    assert_ne!(ToneStyle::Old, ToneStyle::New);
}

#[test]
fn test_unicode_form() {
    assert_eq!(UnicodeForm::NFC, UnicodeForm::NFC);
    assert_ne!(UnicodeForm::NFC, UnicodeForm::NFD);
}

#[test]
fn add_transform_twice_replaces_rule() {
    let mut config = PipelineConfig::new("test");
    config.add_transform("aa", "â");
    config.add_transform("aa", "x");
    assert_eq!(rule(&config, "aa"), Some(&"x".to_string()));
    assert_eq!(config.transform_rules.len(), 1);
}

#[test]
fn add_tone_twice_replaces_tone() {
    let mut config = PipelineConfig::new("test");
    config.add_tone('s', ToneMark::Acute);
    config.add_tone('s', ToneMark::Dot);
    assert_eq!(config.get_tone('s'), Some(ToneMark::Dot));
    assert_eq!(config.tone_map.len(), 1);
}
