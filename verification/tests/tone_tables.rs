use buttre_engine::pipeline::config::ToneMark;
use buttre_engine::tone::tables::{apply, strip};

#[test]
fn round_trip_all_vowels_and_tones() {
    let bases_lower = ['a', 'ă', 'â', 'e', 'ê', 'i', 'o', 'ô', 'ơ', 'u', 'ư', 'y'];
    let tones = [
        ToneMark::Acute,
        ToneMark::Grave,
        ToneMark::Hook,
        ToneMark::Tilde,
        ToneMark::Dot,
    ];

    for base in bases_lower {
        for &tone in &tones {
            let toned = apply(base, tone);
            let (recovered_base, recovered_tone) = strip(toned);
            assert_eq!(recovered_base, base, "strip(apply('{base}', {tone:?})) base mismatch");
            assert_eq!(recovered_tone, tone, "strip(apply('{base}', {tone:?})) tone mismatch");

            let base_upper = base.to_uppercase().next().unwrap();
            let toned_upper = apply(base_upper, tone);
            assert!(toned_upper.is_uppercase(), "apply('{base_upper}', {tone:?}) should be uppercase");
            let (recovered_base_upper, recovered_tone_upper) = strip(toned_upper);
            assert_eq!(recovered_base_upper, base_upper);
            assert_eq!(recovered_tone_upper, tone);
        }
    }
}

#[test]
fn apply_none_strips_existing_tone() {
    assert_eq!(apply('á', ToneMark::NoTone), 'a');
    assert_eq!(apply('ấ', ToneMark::NoTone), 'â');
    assert_eq!(apply('ợ', ToneMark::NoTone), 'ơ');
    assert_eq!(apply('Ắ', ToneMark::NoTone), 'Ă');
}

#[test]
fn apply_non_vowel_unchanged() {
    assert_eq!(apply('x', ToneMark::Acute), 'x');
    assert_eq!(apply('đ', ToneMark::Grave), 'đ');
    assert_eq!(apply(' ', ToneMark::Dot), ' ');
}

#[test]
fn strip_already_bare_vowel() {
    let (base, tone) = strip('a');
    assert_eq!(base, 'a');
    assert_eq!(tone, ToneMark::NoTone);
}

#[test]
fn strip_uppercase_toned() {
    let (base, tone) = strip('Ấ');
    assert_eq!(base, 'Â');
    assert_eq!(tone, ToneMark::Acute);
}

#[test]
fn apply_already_toned_replaces_tone() {
    let result = apply('á', ToneMark::Grave);
    assert_eq!(result, 'à');
}

#[test]
fn strip_of_non_vowel_keeps_char() {
    assert_eq!(strip('đ'), ('đ', ToneMark::NoTone));
    assert_eq!(strip('x'), ('x', ToneMark::NoTone));
}

#[test]
fn apply_each_tone_on_a() {
    assert_eq!(apply('a', ToneMark::Acute), 'á');
    assert_eq!(apply('a', ToneMark::Grave), 'à');
    assert_eq!(apply('a', ToneMark::Hook), 'ả');
    assert_eq!(apply('a', ToneMark::Tilde), 'ã');
    assert_eq!(apply('a', ToneMark::Dot), 'ạ');
}
