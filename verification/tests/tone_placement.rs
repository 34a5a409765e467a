use buttre_engine::pipeline::config::ToneStyle;
use buttre_engine::tone::placement::place;

#[test]
fn oa_tone_style() {
    let nucleus = ['o', 'a'];
    assert_eq!(place(&nucleus, ToneStyle::Old, false), Some(0), "Old: tone on 'o'");
    assert_eq!(place(&nucleus, ToneStyle::New, false), Some(1), "New: tone on 'a'");
}

#[test]
fn ua_with_final_consonant() {
    let nucleus = ['u', 'a'];
    assert_eq!(place(&nucleus, ToneStyle::Old, true), Some(1));
    assert_eq!(place(&nucleus, ToneStyle::New, true), Some(1));
}

#[test]
fn ua_open_syllable() {
    let nucleus = ['u', 'a'];
    assert_eq!(place(&nucleus, ToneStyle::Old, false), Some(0));
    assert_eq!(place(&nucleus, ToneStyle::New, false), Some(0));
}

#[test]
fn ia_open_syllable() {
    let nucleus = ['i', 'a'];
    assert_eq!(place(&nucleus, ToneStyle::Old, false), Some(0));
}

#[test]
fn super_vowel_priority() {
    assert_eq!(place(&['u', 'ê'], ToneStyle::Old, false), Some(1));
    assert_eq!(place(&['ư', 'ơ'], ToneStyle::Old, false), Some(1));
    assert_eq!(place(&['u', 'â'], ToneStyle::Old, false), Some(1));
    assert_eq!(place(&['o', 'â'], ToneStyle::Old, false), Some(1));
    assert_eq!(place(&['ă'], ToneStyle::Old, false), Some(0));
}

#[test]
fn triple_vowel_uye() {
    assert_eq!(place(&['i', 'ê', 'u'], ToneStyle::Old, false), Some(1));
    assert_eq!(place(&['u', 'ô', 'i'], ToneStyle::Old, false), Some(1));
}

#[test]
fn empty_nucleus_returns_none() {
    assert_eq!(place(&[], ToneStyle::Old, false), None);
}

#[test]
fn single_vowel_returns_zero() {
    assert_eq!(place(&['a'], ToneStyle::Old, false), Some(0));
    assert_eq!(place(&['i'], ToneStyle::New, true), Some(0));
}

#[test]
fn u_horn_is_super_vowel() {
    assert_eq!(place(&['ư', 'a'], ToneStyle::Old, false), Some(0));
}

#[test]
fn placed_index_is_inside_nucleus() {
    for nucleus in [&['o', 'e'][..], &['u', 'y'][..], &['a', 'i'][..], &['u', 'y', 'ê'][..]] {
        for style in [ToneStyle::Old, ToneStyle::New] {
            for fin in [false, true] {
                let p = place(nucleus, style, fin).unwrap();
                assert!(p < nucleus.len());
            }
        }
    }
}
