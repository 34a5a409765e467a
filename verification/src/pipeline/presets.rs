//! Ready-made configurations for common input methods.

use vstd::prelude::*;
use crate::pipeline::config::{PipelineConfig, ToneMark, ToneStyle, UnicodeForm, rule_lookup, tone_lookup};

verus! {

/// The Telex transform table as a lookup.
pub open spec fn telex_rule(k: Seq<char>) -> Option<Seq<char>> {
    if k == seq!['a', 'a'] { Some(seq!['â']) }
    else if k == seq!['a', 'w'] { Some(seq!['ă']) }
    else if k == seq!['d', 'd'] { Some(seq!['đ']) }
    else if k == seq!['e', 'e'] { Some(seq!['ê']) }
    else if k == seq!['o', 'o'] { Some(seq!['ô']) }
    else if k == seq!['o', 'w'] { Some(seq!['ơ']) }
    else if k == seq!['u', 'w'] { Some(seq!['ư']) }
    else if k == seq!['w'] { Some(seq!['ư']) }
    else if k == seq!['A', 'A'] { Some(seq!['Â']) }
    else if k == seq!['A', 'W'] { Some(seq!['Ă']) }
    else if k == seq!['A', 'w'] { Some(seq!['Ă']) }
    else if k == seq!['D', 'D'] { Some(seq!['Đ']) }
    else if k == seq!['D', 'd'] { Some(seq!['Đ']) }
    else if k == seq!['E', 'E'] { Some(seq!['Ê']) }
    else if k == seq!['O', 'O'] { Some(seq!['Ô']) }
    else if k == seq!['O', 'W'] { Some(seq!['Ơ']) }
    else if k == seq!['O', 'w'] { Some(seq!['Ơ']) }
    else if k == seq!['U', 'W'] { Some(seq!['Ư']) }
    else if k == seq!['U', 'w'] { Some(seq!['Ư']) }
    else { None }
}

/// The Telex tone keys.
pub open spec fn telex_tone(k: char) -> Option<ToneMark> {
    match k {
        's' => Some(ToneMark::Acute),
        'S' => Some(ToneMark::Acute),
        'f' => Some(ToneMark::Grave),
        'F' => Some(ToneMark::Grave),
        'r' => Some(ToneMark::Hook),
        'R' => Some(ToneMark::Hook),
        'x' => Some(ToneMark::Tilde),
        'X' => Some(ToneMark::Tilde),
        'j' => Some(ToneMark::Dot),
        'J' => Some(ToneMark::Dot),
        _ => None,
    }
}

/// The VNI transform table as a lookup.
pub open spec fn vni_rule(k: Seq<char>) -> Option<Seq<char>> {
    if k == seq!['a', '6'] { Some(seq!['â']) }
    else if k == seq!['a', '8'] { Some(seq!['ă']) }
    else if k == seq!['d', '9'] { Some(seq!['đ']) }
    else if k == seq!['e', '6'] { Some(seq!['ê']) }
    else if k == seq!['o', '6'] { Some(seq!['ô']) }
    else if k == seq!['o', '7'] { Some(seq!['ơ']) }
    else if k == seq!['u', '7'] { Some(seq!['ư']) }
    else if k == seq!['A', '6'] { Some(seq!['Â']) }
    else if k == seq!['A', '8'] { Some(seq!['Ă']) }
    else if k == seq!['D', '9'] { Some(seq!['Đ']) }
    else if k == seq!['E', '6'] { Some(seq!['Ê']) }
    else if k == seq!['O', '6'] { Some(seq!['Ô']) }
    else if k == seq!['O', '7'] { Some(seq!['Ơ']) }
    else if k == seq!['U', '7'] { Some(seq!['Ư']) }
    else { None }
}

/// The VNI tone keys (`0` removes the tone).
pub open spec fn vni_tone(k: char) -> Option<ToneMark> {
    match k {
        '1' => Some(ToneMark::Acute),
        '2' => Some(ToneMark::Grave),
        '3' => Some(ToneMark::Hook),
        '4' => Some(ToneMark::Tilde),
        '5' => Some(ToneMark::Dot),
        '0' => Some(ToneMark::NoTone),
        _ => None,
    }
}

/// Telex: doubled letters and `w` transform (`aa` → `â`, `uw` → `ư`, …),
/// `s f r x j` are the tones.
pub fn telex_config() -> (r: PipelineConfig)
    ensures
        r.wf(),
        r.name@ == seq!['t', 'e', 'l', 'e', 'x'],
        forall|k: Seq<char>| #[trigger] rule_lookup(r.rules(), k) == telex_rule(k),
        forall|k: char| #[trigger] tone_lookup(r.tone_map@, k) == telex_tone(k),
        !r.enable_lookup,
        r.tone_style == ToneStyle::Old,
        r.unicode_form == UnicodeForm::NFC,
        !r.native_script_mode,
        r.validation is None,
        r.orthography is None,
{
    proof {
        reveal_strlit("aa");
        reveal_strlit("aw");
        reveal_strlit("dd");
        reveal_strlit("ee");
        reveal_strlit("oo");
        reveal_strlit("ow");
        reveal_strlit("uw");
        reveal_strlit("w");
        reveal_strlit("AA");
        reveal_strlit("AW");
        reveal_strlit("Aw");
        reveal_strlit("DD");
        reveal_strlit("Dd");
        reveal_strlit("EE");
        reveal_strlit("OO");
        reveal_strlit("OW");
        reveal_strlit("Ow");
        reveal_strlit("UW");
        reveal_strlit("Uw");
        reveal_strlit("â");
        reveal_strlit("ă");
        reveal_strlit("đ");
        reveal_strlit("ê");
        reveal_strlit("ô");
        reveal_strlit("ơ");
        reveal_strlit("ư");
        reveal_strlit("Â");
        reveal_strlit("Ă");
        reveal_strlit("Đ");
        reveal_strlit("Ê");
        reveal_strlit("Ô");
        reveal_strlit("Ơ");
        reveal_strlit("Ư");
        reveal_strlit("telex");
    }
    let mut config = PipelineConfig::new("telex");
    let ghost lk0 = |k: Seq<char>| None::<Seq<char>>;
    assert(forall|k: Seq<char>| #[trigger] rule_lookup(config.rules(), k) == lk0(k));
    config.add_transform("aa", "â");
    let ghost lk1 = |k: Seq<char>| if k == "aa"@ { Some("â"@) } else { lk0(k) };
    assert(forall|k: Seq<char>| #[trigger] rule_lookup(config.rules(), k) == lk1(k));
    config.add_transform("aw", "ă");
    let ghost lk2 = |k: Seq<char>| if k == "aw"@ { Some("ă"@) } else { lk1(k) };
    assert(forall|k: Seq<char>| #[trigger] rule_lookup(config.rules(), k) == lk2(k));
    config.add_transform("dd", "đ");
    let ghost lk3 = |k: Seq<char>| if k == "dd"@ { Some("đ"@) } else { lk2(k) };
    assert(forall|k: Seq<char>| #[trigger] rule_lookup(config.rules(), k) == lk3(k));
    config.add_transform("ee", "ê");
    let ghost lk4 = |k: Seq<char>| if k == "ee"@ { Some("ê"@) } else { lk3(k) };
    assert(forall|k: Seq<char>| #[trigger] rule_lookup(config.rules(), k) == lk4(k));
    config.add_transform("oo", "ô");
    let ghost lk5 = |k: Seq<char>| if k == "oo"@ { Some("ô"@) } else { lk4(k) };
    assert(forall|k: Seq<char>| #[trigger] rule_lookup(config.rules(), k) == lk5(k));
    config.add_transform("ow", "ơ");
    let ghost lk6 = |k: Seq<char>| if k == "ow"@ { Some("ơ"@) } else { lk5(k) };
    assert(forall|k: Seq<char>| #[trigger] rule_lookup(config.rules(), k) == lk6(k));
    config.add_transform("uw", "ư");
    let ghost lk7 = |k: Seq<char>| if k == "uw"@ { Some("ư"@) } else { lk6(k) };
    assert(forall|k: Seq<char>| #[trigger] rule_lookup(config.rules(), k) == lk7(k));
    config.add_transform("w", "ư");
    let ghost lk8 = |k: Seq<char>| if k == "w"@ { Some("ư"@) } else { lk7(k) };
    assert(forall|k: Seq<char>| #[trigger] rule_lookup(config.rules(), k) == lk8(k));
    config.add_transform("AA", "Â");
    let ghost lk9 = |k: Seq<char>| if k == "AA"@ { Some("Â"@) } else { lk8(k) };
    assert(forall|k: Seq<char>| #[trigger] rule_lookup(config.rules(), k) == lk9(k));
    config.add_transform("AW", "Ă");
    let ghost lk10 = |k: Seq<char>| if k == "AW"@ { Some("Ă"@) } else { lk9(k) };
    assert(forall|k: Seq<char>| #[trigger] rule_lookup(config.rules(), k) == lk10(k));
    config.add_transform("Aw", "Ă");
    let ghost lk11 = |k: Seq<char>| if k == "Aw"@ { Some("Ă"@) } else { lk10(k) };
    assert(forall|k: Seq<char>| #[trigger] rule_lookup(config.rules(), k) == lk11(k));
    config.add_transform("DD", "Đ");
    let ghost lk12 = |k: Seq<char>| if k == "DD"@ { Some("Đ"@) } else { lk11(k) };
    assert(forall|k: Seq<char>| #[trigger] rule_lookup(config.rules(), k) == lk12(k));
    config.add_transform("Dd", "Đ");
    let ghost lk13 = |k: Seq<char>| if k == "Dd"@ { Some("Đ"@) } else { lk12(k) };
    assert(forall|k: Seq<char>| #[trigger] rule_lookup(config.rules(), k) == lk13(k));
    config.add_transform("EE", "Ê");
    let ghost lk14 = |k: Seq<char>| if k == "EE"@ { Some("Ê"@) } else { lk13(k) };
    assert(forall|k: Seq<char>| #[trigger] rule_lookup(config.rules(), k) == lk14(k));
    config.add_transform("OO", "Ô");
    let ghost lk15 = |k: Seq<char>| if k == "OO"@ { Some("Ô"@) } else { lk14(k) };
    assert(forall|k: Seq<char>| #[trigger] rule_lookup(config.rules(), k) == lk15(k));
    config.add_transform("OW", "Ơ");
    let ghost lk16 = |k: Seq<char>| if k == "OW"@ { Some("Ơ"@) } else { lk15(k) };
    assert(forall|k: Seq<char>| #[trigger] rule_lookup(config.rules(), k) == lk16(k));
    config.add_transform("Ow", "Ơ");
    let ghost lk17 = |k: Seq<char>| if k == "Ow"@ { Some("Ơ"@) } else { lk16(k) };
    assert(forall|k: Seq<char>| #[trigger] rule_lookup(config.rules(), k) == lk17(k));
    config.add_transform("UW", "Ư");
    let ghost lk18 = |k: Seq<char>| if k == "UW"@ { Some("Ư"@) } else { lk17(k) };
    assert(forall|k: Seq<char>| #[trigger] rule_lookup(config.rules(), k) == lk18(k));
    config.add_transform("Uw", "Ư");
    let ghost lk19 = |k: Seq<char>| if k == "Uw"@ { Some("Ư"@) } else { lk18(k) };
    assert(forall|k: Seq<char>| #[trigger] rule_lookup(config.rules(), k) == lk19(k));
    config.add_tone('s', ToneMark::Acute);
    config.add_tone('S', ToneMark::Acute);
    config.add_tone('f', ToneMark::Grave);
    config.add_tone('F', ToneMark::Grave);
    config.add_tone('r', ToneMark::Hook);
    config.add_tone('R', ToneMark::Hook);
    config.add_tone('x', ToneMark::Tilde);
    config.add_tone('X', ToneMark::Tilde);
    config.add_tone('j', ToneMark::Dot);
    config.add_tone('J', ToneMark::Dot);
    assert("aa"@ =~= seq!['a', 'a']);
    assert("â"@ =~= seq!['â']);
    assert("aw"@ =~= seq!['a', 'w']);
    assert("ă"@ =~= seq!['ă']);
    assert("dd"@ =~= seq!['d', 'd']);
    assert("đ"@ =~= seq!['đ']);
    assert("ee"@ =~= seq!['e', 'e']);
    assert("ê"@ =~= seq!['ê']);
    assert("oo"@ =~= seq!['o', 'o']);
    assert("ô"@ =~= seq!['ô']);
    assert("ow"@ =~= seq!['o', 'w']);
    assert("ơ"@ =~= seq!['ơ']);
    assert("uw"@ =~= seq!['u', 'w']);
    assert("ư"@ =~= seq!['ư']);
    assert("w"@ =~= seq!['w']);
    assert("AA"@ =~= seq!['A', 'A']);
    assert("Â"@ =~= seq!['Â']);
    assert("AW"@ =~= seq!['A', 'W']);
    assert("Ă"@ =~= seq!['Ă']);
    assert("Aw"@ =~= seq!['A', 'w']);
    assert("DD"@ =~= seq!['D', 'D']);
    assert("Đ"@ =~= seq!['Đ']);
    assert("Dd"@ =~= seq!['D', 'd']);
    assert("EE"@ =~= seq!['E', 'E']);
    assert("Ê"@ =~= seq!['Ê']);
    assert("OO"@ =~= seq!['O', 'O']);
    assert("Ô"@ =~= seq!['Ô']);
    assert("OW"@ =~= seq!['O', 'W']);
    assert("Ơ"@ =~= seq!['Ơ']);
    assert("Ow"@ =~= seq!['O', 'w']);
    assert("UW"@ =~= seq!['U', 'W']);
    assert("Ư"@ =~= seq!['Ư']);
    assert("Uw"@ =~= seq!['U', 'w']);
    assert(forall|k: Seq<char>| #[trigger] lk19(k) == telex_rule(k));
    config.enable_lookup = false;
    config.tone_style = ToneStyle::Old;
    config.unicode_form = UnicodeForm::NFC;
    config
}

/// VNI: digits after a letter transform it (`a6` → `â`, `d9` → `đ`, …);
/// `1`-`5` are the tones and `0` removes the tone.
pub fn vni_config() -> (r: PipelineConfig)
    ensures
        r.wf(),
        r.name@ == seq!['v', 'n', 'i'],
        forall|k: Seq<char>| #[trigger] rule_lookup(r.rules(), k) == vni_rule(k),
        forall|k: char| #[trigger] tone_lookup(r.tone_map@, k) == vni_tone(k),
        !r.enable_lookup,
        r.tone_style == ToneStyle::Old,
        r.unicode_form == UnicodeForm::NFC,
        !r.native_script_mode,
        r.validation is None,
        r.orthography is None,
{
    proof {
        reveal_strlit("a6");
        reveal_strlit("a8");
        reveal_strlit("d9");
        reveal_strlit("e6");
        reveal_strlit("o6");
        reveal_strlit("o7");
        reveal_strlit("u7");
        reveal_strlit("A6");
        reveal_strlit("A8");
        reveal_strlit("D9");
        reveal_strlit("E6");
        reveal_strlit("O6");
        reveal_strlit("O7");
        reveal_strlit("U7");
        reveal_strlit("â");
        reveal_strlit("ă");
        reveal_strlit("đ");
        reveal_strlit("ê");
        reveal_strlit("ô");
        reveal_strlit("ơ");
        reveal_strlit("ư");
        reveal_strlit("Â");
        reveal_strlit("Ă");
        reveal_strlit("Đ");
        reveal_strlit("Ê");
        reveal_strlit("Ô");
        reveal_strlit("Ơ");
        reveal_strlit("Ư");
        reveal_strlit("vni");
    }
    let mut config = PipelineConfig::new("vni");
    let ghost lk0 = |k: Seq<char>| None::<Seq<char>>;
    assert(forall|k: Seq<char>| #[trigger] rule_lookup(config.rules(), k) == lk0(k));
    config.add_transform("a6", "â");
    let ghost lk1 = |k: Seq<char>| if k == "a6"@ { Some("â"@) } else { lk0(k) };
    assert(forall|k: Seq<char>| #[trigger] rule_lookup(config.rules(), k) == lk1(k));
    config.add_transform("a8", "ă");
    let ghost lk2 = |k: Seq<char>| if k == "a8"@ { Some("ă"@) } else { lk1(k) };
    assert(forall|k: Seq<char>| #[trigger] rule_lookup(config.rules(), k) == lk2(k));
    config.add_transform("d9", "đ");
    let ghost lk3 = |k: Seq<char>| if k == "d9"@ { Some("đ"@) } else { lk2(k) };
    assert(forall|k: Seq<char>| #[trigger] rule_lookup(config.rules(), k) == lk3(k));
    config.add_transform("e6", "ê");
    let ghost lk4 = |k: Seq<char>| if k == "e6"@ { Some("ê"@) } else { lk3(k) };
    assert(forall|k: Seq<char>| #[trigger] rule_lookup(config.rules(), k) == lk4(k));
    config.add_transform("o6", "ô");
    let ghost lk5 = |k: Seq<char>| if k == "o6"@ { Some("ô"@) } else { lk4(k) };
    assert(forall|k: Seq<char>| #[trigger] rule_lookup(config.rules(), k) == lk5(k));
    config.add_transform("o7", "ơ");
    let ghost lk6 = |k: Seq<char>| if k == "o7"@ { Some("ơ"@) } else { lk5(k) };
    assert(forall|k: Seq<char>| #[trigger] rule_lookup(config.rules(), k) == lk6(k));
    config.add_transform("u7", "ư");
    let ghost lk7 = |k: Seq<char>| if k == "u7"@ { Some("ư"@) } else { lk6(k) };
    assert(forall|k: Seq<char>| #[trigger] rule_lookup(config.rules(), k) == lk7(k));
    config.add_transform("A6", "Â");
    let ghost lk8 = |k: Seq<char>| if k == "A6"@ { Some("Â"@) } else { lk7(k) };
    assert(forall|k: Seq<char>| #[trigger] rule_lookup(config.rules(), k) == lk8(k));
    config.add_transform("A8", "Ă");
    let ghost lk9 = |k: Seq<char>| if k == "A8"@ { Some("Ă"@) } else { lk8(k) };
    assert(forall|k: Seq<char>| #[trigger] rule_lookup(config.rules(), k) == lk9(k));
    config.add_transform("D9", "Đ");
    let ghost lk10 = |k: Seq<char>| if k == "D9"@ { Some("Đ"@) } else { lk9(k) };
    assert(forall|k: Seq<char>| #[trigger] rule_lookup(config.rules(), k) == lk10(k));
    config.add_transform("E6", "Ê");
    let ghost lk11 = |k: Seq<char>| if k == "E6"@ { Some("Ê"@) } else { lk10(k) };
    assert(forall|k: Seq<char>| #[trigger] rule_lookup(config.rules(), k) == lk11(k));
    config.add_transform("O6", "Ô");
    let ghost lk12 = |k: Seq<char>| if k == "O6"@ { Some("Ô"@) } else { lk11(k) };
    assert(forall|k: Seq<char>| #[trigger] rule_lookup(config.rules(), k) == lk12(k));
    config.add_transform("O7", "Ơ");
    let ghost lk13 = |k: Seq<char>| if k == "O7"@ { Some("Ơ"@) } else { lk12(k) };
    assert(forall|k: Seq<char>| #[trigger] rule_lookup(config.rules(), k) == lk13(k));
    config.add_transform("U7", "Ư");
    let ghost lk14 = |k: Seq<char>| if k == "U7"@ { Some("Ư"@) } else { lk13(k) };
    assert(forall|k: Seq<char>| #[trigger] rule_lookup(config.rules(), k) == lk14(k));
    config.add_tone('1', ToneMark::Acute);
    config.add_tone('2', ToneMark::Grave);
    config.add_tone('3', ToneMark::Hook);
    config.add_tone('4', ToneMark::Tilde);
    config.add_tone('5', ToneMark::Dot);
    config.add_tone('0', ToneMark::NoTone);
    assert("a6"@ =~= seq!['a', '6']);
    assert("â"@ =~= seq!['â']);
    assert("a8"@ =~= seq!['a', '8']);
    assert("ă"@ =~= seq!['ă']);
    assert("d9"@ =~= seq!['d', '9']);
    assert("đ"@ =~= seq!['đ']);
    assert("e6"@ =~= seq!['e', '6']);
    assert("ê"@ =~= seq!['ê']);
    assert("o6"@ =~= seq!['o', '6']);
    assert("ô"@ =~= seq!['ô']);
    assert("o7"@ =~= seq!['o', '7']);
    assert("ơ"@ =~= seq!['ơ']);
    assert("u7"@ =~= seq!['u', '7']);
    assert("ư"@ =~= seq!['ư']);
    assert("A6"@ =~= seq!['A', '6']);
    assert("Â"@ =~= seq!['Â']);
    assert("A8"@ =~= seq!['A', '8']);
    assert("Ă"@ =~= seq!['Ă']);
    assert("D9"@ =~= seq!['D', '9']);
    assert("Đ"@ =~= seq!['Đ']);
    assert("E6"@ =~= seq!['E', '6']);
    assert("Ê"@ =~= seq!['Ê']);
    assert("O6"@ =~= seq!['O', '6']);
    assert("Ô"@ =~= seq!['Ô']);
    assert("O7"@ =~= seq!['O', '7']);
    assert("Ơ"@ =~= seq!['Ơ']);
    assert("U7"@ =~= seq!['U', '7']);
    assert("Ư"@ =~= seq!['Ư']);
    assert(forall|k: Seq<char>| #[trigger] lk14(k) == vni_rule(k));
    config.enable_lookup = false;
    config.tone_style = ToneStyle::Old;
    config.unicode_form = UnicodeForm::NFC;
    config
}

/// Simple Telex: currently the standard Telex configuration.
pub fn simple_telex_config() -> (r: PipelineConfig)
    ensures
        r.wf(),
        r.name@ == seq!['t', 'e', 'l', 'e', 'x'],
        forall|k: Seq<char>| #[trigger] rule_lookup(r.rules(), k) == telex_rule(k),
        forall|k: char| #[trigger] tone_lookup(r.tone_map@, k) == telex_tone(k),
{
    telex_config()
}

/// VIQR: an empty configuration named "viqr" (no rules yet).
pub fn viqr_config() -> (r: PipelineConfig)
    ensures
        r.wf(),
        r.name@ == seq!['v', 'i', 'q', 'r'],
        r.transform_rules@.len() == 0,
        r.tone_map@.len() == 0,
{
    proof { reveal_strlit("viqr"); }
    PipelineConfig::new("viqr")
}

} // verus!
