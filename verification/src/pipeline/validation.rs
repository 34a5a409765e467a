//! Vietnamese syllable structure: onset, nucleus and coda.
//!
//! A Vietnamese syllable follows the pattern (C₁)V(C₂): an optional initial
//! consonant cluster, a vowel nucleus and an optional final consonant.
//! Parsing works on the lowercase, tone-stripped form of the syllable.

use vstd::prelude::*;
use crate::pipeline::config::ToneMark;
use crate::text::{lower_seq, lower_of, is_ascii_char, is_ascii_upper, is_ascii_lower, ascii_lower, is_viet_upper,
    is_viet_lower, char_lower_seq, str_chars, chars_to_string, sub_vec, is_upper, char_is_upper,
    std_str_lower, chars_to_lowercase};
use crate::unicode::normalization::{unicode_nfc, normalize_nfc, is_nfc_quick_yes};
use crate::tone::tables::{strip, strip_spec};
use crate::tone::placement::place_spec;

verus! {

/// Vietnamese syllable structure.
#[derive(Debug, Clone, PartialEq, Eq)]
pub struct SyllableStructure {
    /// Initial consonant(s): "", "b", "tr", "ngh"
    pub onset: String,
    /// Vowel nucleus: "a", "oa", "uye"
    pub nucleus: String,
    /// Final consonant: "", "n", "ng", "ch"
    pub coda: String,
}

// ── Tone stripping ───────────────────────────────────────────────────────────

/// Lowercase char → its form without tone mark (ă â ê ô ơ ư đ are kept).
pub open spec fn strip_tone_char_spec(c: char) -> char {
    match c {
        'á' | 'à' | 'ả' | 'ã' | 'ạ' => 'a',
        'ắ' | 'ằ' | 'ẳ' | 'ẵ' | 'ặ' => 'ă',
        'ấ' | 'ầ' | 'ẩ' | 'ẫ' | 'ậ' => 'â',
        'é' | 'è' | 'ẻ' | 'ẽ' | 'ẹ' => 'e',
        'ế' | 'ề' | 'ể' | 'ễ' | 'ệ' => 'ê',
        'í' | 'ì' | 'ỉ' | 'ĩ' | 'ị' => 'i',
        'ó' | 'ò' | 'ỏ' | 'õ' | 'ọ' => 'o',
        'ố' | 'ồ' | 'ổ' | 'ỗ' | 'ộ' => 'ô',
        'ớ' | 'ờ' | 'ở' | 'ỡ' | 'ợ' => 'ơ',
        'ú' | 'ù' | 'ủ' | 'ũ' | 'ụ' => 'u',
        'ứ' | 'ừ' | 'ử' | 'ữ' | 'ự' => 'ư',
        'ý' | 'ỳ' | 'ỷ' | 'ỹ' | 'ỵ' => 'y',
        other => other,
    }
}

fn strip_tone_char(c: char) -> (r: char)
    ensures r == strip_tone_char_spec(c),
{
    match c {
        'á' | 'à' | 'ả' | 'ã' | 'ạ' => 'a',
        'ắ' | 'ằ' | 'ẳ' | 'ẵ' | 'ặ' => 'ă',
        'ấ' | 'ầ' | 'ẩ' | 'ẫ' | 'ậ' => 'â',
        'é' | 'è' | 'ẻ' | 'ẽ' | 'ẹ' => 'e',
        'ế' | 'ề' | 'ể' | 'ễ' | 'ệ' => 'ê',
        'í' | 'ì' | 'ỉ' | 'ĩ' | 'ị' => 'i',
        'ó' | 'ò' | 'ỏ' | 'õ' | 'ọ' => 'o',
        'ố' | 'ồ' | 'ổ' | 'ỗ' | 'ộ' => 'ô',
        'ớ' | 'ờ' | 'ở' | 'ỡ' | 'ợ' => 'ơ',
        'ú' | 'ù' | 'ủ' | 'ũ' | 'ụ' => 'u',
        'ứ' | 'ừ' | 'ử' | 'ữ' | 'ự' => 'ư',
        'ý' | 'ỳ' | 'ỷ' | 'ỹ' | 'ỵ' => 'y',
        other => other,
    }
}

/// Lowercase (full mapping) and tone-stripped form of `s`.
pub open spec fn normalize_seq(s: Seq<char>) -> Seq<char>
    decreases s.len(),
{
    if s.len() == 0 {
        Seq::empty()
    } else {
        normalize_seq(s.drop_last()) + lower_seq(s.last()).map_values(|c: char| strip_tone_char_spec(c))
    }
}

/// Lowercase and tone-stripped form of a char sequence.
pub fn normalize_chars(text: &[char]) -> (r: Vec<char>)
    ensures r@ == normalize_seq(text@),
{
    let mut out: Vec<char> = Vec::new();
    let mut i: usize = 0;
    while i < text.len()
        invariant
            i <= text.len(),
            out@ == normalize_seq(text@.subrange(0, i as int)),
        decreases text.len() - i,
    {
        let low = char_lower_seq(text[i]);
        let ghost before = out@;
        let mut j: usize = 0;
        while j < low.len()
            invariant
                j <= low.len(),
                out@ == before + low@.subrange(0, j as int).map_values(|c: char| strip_tone_char_spec(c)),
            decreases low.len() - j,
        {
            out.push(strip_tone_char(low[j]));
            j += 1;
            assert(out@ =~= before + low@.subrange(0, j as int).map_values(|c: char| strip_tone_char_spec(c)));
        }
        assert(low@.subrange(0, low.len() as int) =~= low@);
        assert(text@.subrange(0, (i + 1) as int).drop_last() =~= text@.subrange(0, i as int));
        i += 1;
    }
    assert(text@.subrange(0, text.len() as int) =~= text@);
    out
}

/// Normalize Vietnamese text to base form: lowercase, tone marks removed
/// (diacritic transforms ă/â/ê/ô/ơ/ư/đ are kept).
pub fn normalize_vietnamese(text: &str) -> (r: String)
    ensures r@ == normalize_seq(text@),
{
    let chars = str_chars(text);
    let out = normalize_chars(chars.as_slice());
    chars_to_string(out.as_slice())
}

/// Chars whose lowercase the crate's own tables give: ASCII and the
/// Vietnamese letters.
pub open spec fn is_table_char(c: char) -> bool {
    is_ascii_char(c) || is_viet_upper(c) || is_viet_lower(c)
}

proof fn lemma_normalized_char_fixed(c: char)
    requires
        is_table_char(c),
    ensures
        is_table_char(strip_tone_char_spec(lower_of(c))),
        lower_seq(strip_tone_char_spec(lower_of(c))) == seq![strip_tone_char_spec(lower_of(c))],
        strip_tone_char_spec(strip_tone_char_spec(lower_of(c))) == strip_tone_char_spec(lower_of(c)),
{
    let d = strip_tone_char_spec(lower_of(c));
    if is_ascii_char(c) {
        assert(lower_of(c) == ascii_lower(c));
        if is_ascii_upper(c) {
            assert((c as u32) + 32 < 128);
            assert(ascii_lower(c) as u32 == (c as u32) + 32);
            assert(is_ascii_lower(ascii_lower(c)));
        }
        assert(is_ascii_char(lower_of(c)));
        assert(d == lower_of(c));
        assert(!is_ascii_upper(d));
        assert(lower_of(d) == d);
    }
}

proof fn lemma_normalize_table_chars(s: Seq<char>)
    requires
        forall|i: int| 0 <= i < s.len() ==> is_table_char(#[trigger] s[i]),
    ensures
        normalize_seq(s).len() == s.len(),
        forall|i: int| 0 <= i < s.len() ==> #[trigger] normalize_seq(s)[i] == strip_tone_char_spec(lower_of(s[i])),
    decreases s.len(),
{
    if s.len() > 0 {
        let p = s.drop_last();
        assert forall|i: int| 0 <= i < p.len() implies is_table_char(#[trigger] p[i]) by {
            assert(p[i] == s[i]);
        }
        lemma_normalize_table_chars(p);
        assert(is_table_char(s[s.len() - 1]));
        assert(lower_seq(s.last()) == seq![lower_of(s.last())]);
        assert(lower_seq(s.last()).map_values(|c: char| strip_tone_char_spec(c))
            =~= seq![strip_tone_char_spec(lower_of(s.last()))]);
    }
}

proof fn lemma_normalize_fixed(t: Seq<char>)
    requires
        forall|i: int| 0 <= i < t.len() ==> lower_seq(#[trigger] t[i]) == seq![t[i]] && strip_tone_char_spec(t[i]) == t[i],
    ensures
        normalize_seq(t) == t,
    decreases t.len(),
{
    if t.len() > 0 {
        let p = t.drop_last();
        assert forall|i: int| 0 <= i < p.len() implies lower_seq(#[trigger] p[i]) == seq![p[i]]
            && strip_tone_char_spec(p[i]) == p[i] by {
            assert(p[i] == t[i]);
        }
        lemma_normalize_fixed(p);
        assert(lower_seq(t[t.len() - 1]) == seq![t.last()]);
        assert(lower_seq(t.last()).map_values(|c: char| strip_tone_char_spec(c)) =~= seq![t.last()]);
        assert(p + seq![t.last()] =~= t);
    }
}

/// Normalizing is idempotent: normalizing text a second time changes
/// nothing, for text written in ASCII and Vietnamese letters.
pub proof fn law_normalize_idempotent(s: Seq<char>)
    requires
        forall|i: int| 0 <= i < s.len() ==> is_table_char(#[trigger] s[i]),
    ensures
        normalize_seq(normalize_seq(s)) == normalize_seq(s),
{
    lemma_normalize_table_chars(s);
    let t = normalize_seq(s);
    assert forall|i: int| 0 <= i < t.len() implies lower_seq(#[trigger] t[i]) == seq![t[i]]
        && strip_tone_char_spec(t[i]) == t[i] by {
        lemma_normalized_char_fixed(s[i]);
    }
    lemma_normalize_fixed(t);
}

// ── Onset / coda tables ──────────────────────────────────────────────────────

/// Position of a structurally valid onset in the onset table.
pub open spec fn onset_id_spec(o: Seq<char>) -> Option<usize> {
    if (o.len() == 0) {
        Some(0)
    } else if (o.len() == 1 && o[0] == 'b') {
        Some(1)
    } else if (o.len() == 1 && o[0] == 'c') {
        Some(2)
    } else if (o.len() == 1 && o[0] == 'd') {
        Some(3)
    } else if (o.len() == 1 && o[0] == 'đ') {
        Some(4)
    } else if (o.len() == 1 && o[0] == 'g') {
        Some(5)
    } else if (o.len() == 1 && o[0] == 'h') {
        Some(6)
    } else if (o.len() == 1 && o[0] == 'k') {
        Some(7)
    } else if (o.len() == 1 && o[0] == 'l') {
        Some(8)
    } else if (o.len() == 1 && o[0] == 'm') {
        Some(9)
    } else if (o.len() == 1 && o[0] == 'n') {
        Some(10)
    } else if (o.len() == 1 && o[0] == 'p') {
        Some(11)
    } else if (o.len() == 1 && o[0] == 'r') {
        Some(12)
    } else if (o.len() == 1 && o[0] == 's') {
        Some(13)
    } else if (o.len() == 1 && o[0] == 't') {
        Some(14)
    } else if (o.len() == 1 && o[0] == 'v') {
        Some(15)
    } else if (o.len() == 1 && o[0] == 'x') {
        Some(16)
    } else if (o.len() == 1 && o[0] == 'z') {
        Some(17)
    } else if (o.len() == 2 && o[0] == 'c' && o[1] == 'h') {
        Some(18)
    } else if (o.len() == 2 && o[0] == 'g' && o[1] == 'h') {
        Some(19)
    } else if (o.len() == 2 && o[0] == 'g' && o[1] == 'i') {
        Some(20)
    } else if (o.len() == 2 && o[0] == 'k' && o[1] == 'h') {
        Some(21)
    } else if (o.len() == 2 && o[0] == 'n' && o[1] == 'g') {
        Some(22)
    } else if (o.len() == 2 && o[0] == 'n' && o[1] == 'h') {
        Some(23)
    } else if (o.len() == 2 && o[0] == 'p' && o[1] == 'h') {
        Some(24)
    } else if (o.len() == 2 && o[0] == 'q' && o[1] == 'u') {
        Some(25)
    } else if (o.len() == 2 && o[0] == 't' && o[1] == 'h') {
        Some(26)
    } else if (o.len() == 2 && o[0] == 't' && o[1] == 'r') {
        Some(27)
    } else if (o.len() == 2 && o[0] == 'd' && o[1] == 'z') {
        Some(28)
    } else if (o.len() == 3 && o[0] == 'n' && o[1] == 'g' && o[2] == 'h') {
        Some(29)
    } else {
        None
    }
}

/// Position of a structurally valid coda in the coda table.
pub open spec fn coda_id_spec(c: Seq<char>) -> Option<usize> {
    if (c.len() == 0) {
        Some(0)
    } else if (c.len() == 1 && c[0] == 'c') {
        Some(1)
    } else if (c.len() == 1 && c[0] == 'm') {
        Some(2)
    } else if (c.len() == 1 && c[0] == 'n') {
        Some(3)
    } else if (c.len() == 1 && c[0] == 'p') {
        Some(4)
    } else if (c.len() == 1 && c[0] == 't') {
        Some(5)
    } else if (c.len() == 1 && c[0] == 'k') {
        Some(6)
    } else if (c.len() == 2 && c[0] == 'c' && c[1] == 'h') {
        Some(7)
    } else if (c.len() == 2 && c[0] == 'n' && c[1] == 'g') {
        Some(8)
    } else if (c.len() == 2 && c[0] == 'n' && c[1] == 'h') {
        Some(9)
    } else {
        None
    }
}

/// Position of a structurally valid nucleus in the nucleus table.
pub open spec fn nucleus_id_spec(n: Seq<char>) -> Option<usize> {
    if (n.len() == 1 && n[0] == 'a') {
        Some(0)
    } else if (n.len() == 1 && n[0] == 'ă') {
        Some(1)
    } else if (n.len() == 1 && n[0] == 'â') {
        Some(2)
    } else if (n.len() == 1 && n[0] == 'e') {
        Some(3)
    } else if (n.len() == 1 && n[0] == 'ê') {
        Some(4)
    } else if (n.len() == 1 && n[0] == 'i') {
        Some(5)
    } else if (n.len() == 1 && n[0] == 'o') {
        Some(6)
    } else if (n.len() == 1 && n[0] == 'ô') {
        Some(7)
    } else if (n.len() == 1 && n[0] == 'ơ') {
        Some(8)
    } else if (n.len() == 1 && n[0] == 'u') {
        Some(9)
    } else if (n.len() == 1 && n[0] == 'ư') {
        Some(10)
    } else if (n.len() == 1 && n[0] == 'y') {
        Some(11)
    } else if (n.len() == 2 && n[0] == 'o' && n[1] == 'o') {
        Some(12)
    } else if (n.len() == 2 && n[0] == 'a' && n[1] == 'i') {
        Some(13)
    } else if (n.len() == 2 && n[0] == 'a' && n[1] == 'o') {
        Some(14)
    } else if (n.len() == 2 && n[0] == 'a' && n[1] == 'u') {
        Some(15)
    } else if (n.len() == 2 && n[0] == 'a' && n[1] == 'y') {
        Some(16)
    } else if (n.len() == 2 && n[0] == 'â' && n[1] == 'u') {
        Some(17)
    } else if (n.len() == 2 && n[0] == 'â' && n[1] == 'y') {
        Some(18)
    } else if (n.len() == 2 && n[0] == 'e' && n[1] == 'o') {
        Some(19)
    } else if (n.len() == 2 && n[0] == 'ê' && n[1] == 'u') {
        Some(20)
    } else if (n.len() == 2 && n[0] == 'i' && n[1] == 'a') {
        Some(21)
    } else if (n.len() == 2 && n[0] == 'i' && n[1] == 'e') {
        Some(22)
    } else if (n.len() == 2 && n[0] == 'i' && n[1] == 'ê') {
        Some(23)
    } else if (n.len() == 2 && n[0] == 'i' && n[1] == 'u') {
        Some(24)
    } else if (n.len() == 2 && n[0] == 'o' && n[1] == 'a') {
        Some(25)
    } else if (n.len() == 2 && n[0] == 'o' && n[1] == 'ă') {
        Some(26)
    } else if (n.len() == 2 && n[0] == 'o' && n[1] == 'e') {
        Some(27)
    } else if (n.len() == 2 && n[0] == 'o' && n[1] == 'i') {
        Some(28)
    } else if (n.len() == 2 && n[0] == 'ô' && n[1] == 'i') {
        Some(29)
    } else if (n.len() == 2 && n[0] == 'ơ' && n[1] == 'i') {
        Some(30)
    } else if (n.len() == 2 && n[0] == 'u' && n[1] == 'a') {
        Some(31)
    } else if (n.len() == 2 && n[0] == 'u' && n[1] == 'â') {
        Some(32)
    } else if (n.len() == 2 && n[0] == 'u' && n[1] == 'e') {
        Some(33)
    } else if (n.len() == 2 && n[0] == 'u' && n[1] == 'ê') {
        Some(34)
    } else if (n.len() == 2 && n[0] == 'u' && n[1] == 'i') {
        Some(35)
    } else if (n.len() == 2 && n[0] == 'u' && n[1] == 'o') {
        Some(36)
    } else if (n.len() == 2 && n[0] == 'u' && n[1] == 'ô') {
        Some(37)
    } else if (n.len() == 2 && n[0] == 'u' && n[1] == 'ơ') {
        Some(38)
    } else if (n.len() == 2 && n[0] == 'u' && n[1] == 'y') {
        Some(39)
    } else if (n.len() == 2 && n[0] == 'ư' && n[1] == 'a') {
        Some(40)
    } else if (n.len() == 2 && n[0] == 'ư' && n[1] == 'i') {
        Some(41)
    } else if (n.len() == 2 && n[0] == 'ư' && n[1] == 'o') {
        Some(42)
    } else if (n.len() == 2 && n[0] == 'ư' && n[1] == 'ơ') {
        Some(43)
    } else if (n.len() == 2 && n[0] == 'ư' && n[1] == 'u') {
        Some(44)
    } else if (n.len() == 2 && n[0] == 'y' && n[1] == 'e') {
        Some(45)
    } else if (n.len() == 2 && n[0] == 'y' && n[1] == 'ê') {
        Some(46)
    } else if (n.len() == 3 && n[0] == 'i' && n[1] == 'ê' && n[2] == 'u') {
        Some(47)
    } else if (n.len() == 3 && n[0] == 'i' && n[1] == 'e' && n[2] == 'u') {
        Some(48)
    } else if (n.len() == 3 && n[0] == 'o' && n[1] == 'a' && n[2] == 'i') {
        Some(49)
    } else if (n.len() == 3 && n[0] == 'o' && n[1] == 'a' && n[2] == 'o') {
        Some(50)
    } else if (n.len() == 3 && n[0] == 'o' && n[1] == 'a' && n[2] == 'y') {
        Some(51)
    } else if (n.len() == 3 && n[0] == 'o' && n[1] == 'e' && n[2] == 'o') {
        Some(52)
    } else if (n.len() == 3 && n[0] == 'u' && n[1] == 'a' && n[2] == 'o') {
        Some(53)
    } else if (n.len() == 3 && n[0] == 'u' && n[1] == 'â' && n[2] == 'y') {
        Some(54)
    } else if (n.len() == 3 && n[0] == 'u' && n[1] == 'ô' && n[2] == 'i') {
        Some(55)
    } else if (n.len() == 3 && n[0] == 'u' && n[1] == 'o' && n[2] == 'i') {
        Some(56)
    } else if (n.len() == 3 && n[0] == 'u' && n[1] == 'o' && n[2] == 'u') {
        Some(57)
    } else if (n.len() == 3 && n[0] == 'u' && n[1] == 'ơ' && n[2] == 'i') {
        Some(58)
    } else if (n.len() == 3 && n[0] == 'u' && n[1] == 'y' && n[2] == 'a') {
        Some(59)
    } else if (n.len() == 3 && n[0] == 'u' && n[1] == 'y' && n[2] == 'e') {
        Some(60)
    } else if (n.len() == 3 && n[0] == 'u' && n[1] == 'y' && n[2] == 'ê') {
        Some(61)
    } else if (n.len() == 3 && n[0] == 'u' && n[1] == 'y' && n[2] == 'u') {
        Some(62)
    } else if (n.len() == 3 && n[0] == 'ư' && n[1] == 'ơ' && n[2] == 'i') {
        Some(63)
    } else if (n.len() == 3 && n[0] == 'ư' && n[1] == 'ơ' && n[2] == 'u') {
        Some(64)
    } else if (n.len() == 3 && n[0] == 'y' && n[1] == 'ê' && n[2] == 'u') {
        Some(65)
    } else if (n.len() == 3 && n[0] == 'y' && n[1] == 'e' && n[2] == 'u') {
        Some(66)
    } else {
        None
    }
}

fn onset_id_of(o: &[char]) -> (r: Option<usize>)
    ensures r == onset_id_spec(o@),
{
    if (o.len() == 0) {
        Some(0)
    } else if (o.len() == 1 && o[0] == 'b') {
        Some(1)
    } else if (o.len() == 1 && o[0] == 'c') {
        Some(2)
    } else if (o.len() == 1 && o[0] == 'd') {
        Some(3)
    } else if (o.len() == 1 && o[0] == 'đ') {
        Some(4)
    } else if (o.len() == 1 && o[0] == 'g') {
        Some(5)
    } else if (o.len() == 1 && o[0] == 'h') {
        Some(6)
    } else if (o.len() == 1 && o[0] == 'k') {
        Some(7)
    } else if (o.len() == 1 && o[0] == 'l') {
        Some(8)
    } else if (o.len() == 1 && o[0] == 'm') {
        Some(9)
    } else if (o.len() == 1 && o[0] == 'n') {
        Some(10)
    } else if (o.len() == 1 && o[0] == 'p') {
        Some(11)
    } else if (o.len() == 1 && o[0] == 'r') {
        Some(12)
    } else if (o.len() == 1 && o[0] == 's') {
        Some(13)
    } else if (o.len() == 1 && o[0] == 't') {
        Some(14)
    } else if (o.len() == 1 && o[0] == 'v') {
        Some(15)
    } else if (o.len() == 1 && o[0] == 'x') {
        Some(16)
    } else if (o.len() == 1 && o[0] == 'z') {
        Some(17)
    } else if (o.len() == 2 && o[0] == 'c' && o[1] == 'h') {
        Some(18)
    } else if (o.len() == 2 && o[0] == 'g' && o[1] == 'h') {
        Some(19)
    } else if (o.len() == 2 && o[0] == 'g' && o[1] == 'i') {
        Some(20)
    } else if (o.len() == 2 && o[0] == 'k' && o[1] == 'h') {
        Some(21)
    } else if (o.len() == 2 && o[0] == 'n' && o[1] == 'g') {
        Some(22)
    } else if (o.len() == 2 && o[0] == 'n' && o[1] == 'h') {
        Some(23)
    } else if (o.len() == 2 && o[0] == 'p' && o[1] == 'h') {
        Some(24)
    } else if (o.len() == 2 && o[0] == 'q' && o[1] == 'u') {
        Some(25)
    } else if (o.len() == 2 && o[0] == 't' && o[1] == 'h') {
        Some(26)
    } else if (o.len() == 2 && o[0] == 't' && o[1] == 'r') {
        Some(27)
    } else if (o.len() == 2 && o[0] == 'd' && o[1] == 'z') {
        Some(28)
    } else if (o.len() == 3 && o[0] == 'n' && o[1] == 'g' && o[2] == 'h') {
        Some(29)
    } else {
        None
    }
}

fn coda_id_of(c: &[char]) -> (r: Option<usize>)
    ensures r == coda_id_spec(c@),
{
    if (c.len() == 0) {
        Some(0)
    } else if (c.len() == 1 && c[0] == 'c') {
        Some(1)
    } else if (c.len() == 1 && c[0] == 'm') {
        Some(2)
    } else if (c.len() == 1 && c[0] == 'n') {
        Some(3)
    } else if (c.len() == 1 && c[0] == 'p') {
        Some(4)
    } else if (c.len() == 1 && c[0] == 't') {
        Some(5)
    } else if (c.len() == 1 && c[0] == 'k') {
        Some(6)
    } else if (c.len() == 2 && c[0] == 'c' && c[1] == 'h') {
        Some(7)
    } else if (c.len() == 2 && c[0] == 'n' && c[1] == 'g') {
        Some(8)
    } else if (c.len() == 2 && c[0] == 'n' && c[1] == 'h') {
        Some(9)
    } else {
        None
    }
}

fn nucleus_id_of(n: &[char]) -> (r: Option<usize>)
    ensures r == nucleus_id_spec(n@),
{
    if (n.len() == 1 && n[0] == 'a') {
        Some(0)
    } else if (n.len() == 1 && n[0] == 'ă') {
        Some(1)
    } else if (n.len() == 1 && n[0] == 'â') {
        Some(2)
    } else if (n.len() == 1 && n[0] == 'e') {
        Some(3)
    } else if (n.len() == 1 && n[0] == 'ê') {
        Some(4)
    } else if (n.len() == 1 && n[0] == 'i') {
        Some(5)
    } else if (n.len() == 1 && n[0] == 'o') {
        Some(6)
    } else if (n.len() == 1 && n[0] == 'ô') {
        Some(7)
    } else if (n.len() == 1 && n[0] == 'ơ') {
        Some(8)
    } else if (n.len() == 1 && n[0] == 'u') {
        Some(9)
    } else if (n.len() == 1 && n[0] == 'ư') {
        Some(10)
    } else if (n.len() == 1 && n[0] == 'y') {
        Some(11)
    } else if (n.len() == 2 && n[0] == 'o' && n[1] == 'o') {
        Some(12)
    } else if (n.len() == 2 && n[0] == 'a' && n[1] == 'i') {
        Some(13)
    } else if (n.len() == 2 && n[0] == 'a' && n[1] == 'o') {
        Some(14)
    } else if (n.len() == 2 && n[0] == 'a' && n[1] == 'u') {
        Some(15)
    } else if (n.len() == 2 && n[0] == 'a' && n[1] == 'y') {
        Some(16)
    } else if (n.len() == 2 && n[0] == 'â' && n[1] == 'u') {
        Some(17)
    } else if (n.len() == 2 && n[0] == 'â' && n[1] == 'y') {
        Some(18)
    } else if (n.len() == 2 && n[0] == 'e' && n[1] == 'o') {
        Some(19)
    } else if (n.len() == 2 && n[0] == 'ê' && n[1] == 'u') {
        Some(20)
    } else if (n.len() == 2 && n[0] == 'i' && n[1] == 'a') {
        Some(21)
    } else if (n.len() == 2 && n[0] == 'i' && n[1] == 'e') {
        Some(22)
    } else if (n.len() == 2 && n[0] == 'i' && n[1] == 'ê') {
        Some(23)
    } else if (n.len() == 2 && n[0] == 'i' && n[1] == 'u') {
        Some(24)
    } else if (n.len() == 2 && n[0] == 'o' && n[1] == 'a') {
        Some(25)
    } else if (n.len() == 2 && n[0] == 'o' && n[1] == 'ă') {
        Some(26)
    } else if (n.len() == 2 && n[0] == 'o' && n[1] == 'e') {
        Some(27)
    } else if (n.len() == 2 && n[0] == 'o' && n[1] == 'i') {
        Some(28)
    } else if (n.len() == 2 && n[0] == 'ô' && n[1] == 'i') {
        Some(29)
    } else if (n.len() == 2 && n[0] == 'ơ' && n[1] == 'i') {
        Some(30)
    } else if (n.len() == 2 && n[0] == 'u' && n[1] == 'a') {
        Some(31)
    } else if (n.len() == 2 && n[0] == 'u' && n[1] == 'â') {
        Some(32)
    } else if (n.len() == 2 && n[0] == 'u' && n[1] == 'e') {
        Some(33)
    } else if (n.len() == 2 && n[0] == 'u' && n[1] == 'ê') {
        Some(34)
    } else if (n.len() == 2 && n[0] == 'u' && n[1] == 'i') {
        Some(35)
    } else if (n.len() == 2 && n[0] == 'u' && n[1] == 'o') {
        Some(36)
    } else if (n.len() == 2 && n[0] == 'u' && n[1] == 'ô') {
        Some(37)
    } else if (n.len() == 2 && n[0] == 'u' && n[1] == 'ơ') {
        Some(38)
    } else if (n.len() == 2 && n[0] == 'u' && n[1] == 'y') {
        Some(39)
    } else if (n.len() == 2 && n[0] == 'ư' && n[1] == 'a') {
        Some(40)
    } else if (n.len() == 2 && n[0] == 'ư' && n[1] == 'i') {
        Some(41)
    } else if (n.len() == 2 && n[0] == 'ư' && n[1] == 'o') {
        Some(42)
    } else if (n.len() == 2 && n[0] == 'ư' && n[1] == 'ơ') {
        Some(43)
    } else if (n.len() == 2 && n[0] == 'ư' && n[1] == 'u') {
        Some(44)
    } else if (n.len() == 2 && n[0] == 'y' && n[1] == 'e') {
        Some(45)
    } else if (n.len() == 2 && n[0] == 'y' && n[1] == 'ê') {
        Some(46)
    } else if (n.len() == 3 && n[0] == 'i' && n[1] == 'ê' && n[2] == 'u') {
        Some(47)
    } else if (n.len() == 3 && n[0] == 'i' && n[1] == 'e' && n[2] == 'u') {
        Some(48)
    } else if (n.len() == 3 && n[0] == 'o' && n[1] == 'a' && n[2] == 'i') {
        Some(49)
    } else if (n.len() == 3 && n[0] == 'o' && n[1] == 'a' && n[2] == 'o') {
        Some(50)
    } else if (n.len() == 3 && n[0] == 'o' && n[1] == 'a' && n[2] == 'y') {
        Some(51)
    } else if (n.len() == 3 && n[0] == 'o' && n[1] == 'e' && n[2] == 'o') {
        Some(52)
    } else if (n.len() == 3 && n[0] == 'u' && n[1] == 'a' && n[2] == 'o') {
        Some(53)
    } else if (n.len() == 3 && n[0] == 'u' && n[1] == 'â' && n[2] == 'y') {
        Some(54)
    } else if (n.len() == 3 && n[0] == 'u' && n[1] == 'ô' && n[2] == 'i') {
        Some(55)
    } else if (n.len() == 3 && n[0] == 'u' && n[1] == 'o' && n[2] == 'i') {
        Some(56)
    } else if (n.len() == 3 && n[0] == 'u' && n[1] == 'o' && n[2] == 'u') {
        Some(57)
    } else if (n.len() == 3 && n[0] == 'u' && n[1] == 'ơ' && n[2] == 'i') {
        Some(58)
    } else if (n.len() == 3 && n[0] == 'u' && n[1] == 'y' && n[2] == 'a') {
        Some(59)
    } else if (n.len() == 3 && n[0] == 'u' && n[1] == 'y' && n[2] == 'e') {
        Some(60)
    } else if (n.len() == 3 && n[0] == 'u' && n[1] == 'y' && n[2] == 'ê') {
        Some(61)
    } else if (n.len() == 3 && n[0] == 'u' && n[1] == 'y' && n[2] == 'u') {
        Some(62)
    } else if (n.len() == 3 && n[0] == 'ư' && n[1] == 'ơ' && n[2] == 'i') {
        Some(63)
    } else if (n.len() == 3 && n[0] == 'ư' && n[1] == 'ơ' && n[2] == 'u') {
        Some(64)
    } else if (n.len() == 3 && n[0] == 'y' && n[1] == 'ê' && n[2] == 'u') {
        Some(65)
    } else if (n.len() == 3 && n[0] == 'y' && n[1] == 'e' && n[2] == 'u') {
        Some(66)
    } else {
        None
    }
}

/// Number of structurally valid onsets, including the empty onset.
pub const NUM_ONSETS: usize = 30;

/// Number of structurally valid nuclei.
pub const NUM_NUCLEI: usize = 67;

/// Number of structurally valid codas, including the empty coda.
pub const NUM_CODAS: usize = 10;

/// Number of `ToneMark` variants.
pub const NUM_TONES: usize = 6;

/// Position of `onset` within the valid-onset table; `None` if it is not a
/// structurally valid Vietnamese onset.
pub fn onset_id(onset: &str) -> (r: Option<usize>)
    ensures r == onset_id_spec(onset@),
{
    let v = str_chars(onset);
    onset_id_of(v.as_slice())
}

/// Position of `nucleus` (tone-free, mark-bearing vowel cluster) within the
/// valid-nucleus table; `None` if it is not a valid nucleus.
pub fn nucleus_id(nucleus: &str) -> (r: Option<usize>)
    ensures r == nucleus_id_spec(nucleus@),
{
    let v = str_chars(nucleus);
    nucleus_id_of(v.as_slice())
}

/// Position of `coda` within the valid-coda table; `None` if it is not a
/// valid coda.
pub fn coda_id(coda: &str) -> (r: Option<usize>)
    ensures r == coda_id_spec(coda@),
{
    let v = str_chars(coda);
    coda_id_of(v.as_slice())
}

/// Column index of `tone` (declaration order: none, acute, grave, hook,
/// tilde, dot).
pub open spec fn tone_id_spec(tone: ToneMark) -> usize {
    match tone {
        ToneMark::NoTone => 0,
        ToneMark::Acute => 1,
        ToneMark::Grave => 2,
        ToneMark::Hook => 3,
        ToneMark::Tilde => 4,
        ToneMark::Dot => 5,
    }
}

/// Column index of `tone` for the attested-syllable table.
pub fn tone_id(tone: ToneMark) -> (r: usize)
    ensures r == tone_id_spec(tone), r < NUM_TONES,
{
    match tone {
        ToneMark::NoTone => 0,
        ToneMark::Acute => 1,
        ToneMark::Grave => 2,
        ToneMark::Hook => 3,
        ToneMark::Tilde => 4,
        ToneMark::Dot => 5,
    }
}

/// The bit index of (onset, nucleus, coda, tone): row-major, tone varying
/// fastest.
pub open spec fn bit_index_spec(o: int, n: int, c: int, t: int) -> int {
    ((o * NUM_NUCLEI + n) * NUM_CODAS + c) * NUM_TONES + t
}

proof fn lemma_mixed_digit(a1: int, d1: int, a2: int, d2: int, m: int)
    requires
        m > 0,
        0 <= d1 < m,
        0 <= d2 < m,
        a1 * m + d1 == a2 * m + d2,
    ensures
        a1 == a2,
        d1 == d2,
{
    if a1 < a2 {
        assert(a1 * m + m <= a2 * m) by (nonlinear_arith)
            requires a1 < a2, m > 0;
    } else if a2 < a1 {
        assert(a2 * m + m <= a1 * m) by (nonlinear_arith)
            requires a2 < a1, m > 0;
    }
}

/// The bit index of in-range ids lies below the table size, has the tone
/// as its remainder modulo the number of tones, and determines the ids:
/// two id tuples share a bit index only when they are equal.
pub proof fn law_bit_index_injective(o1: int, n1: int, c1: int, t1: int, o2: int, n2: int, c2: int, t2: int)
    requires
        0 <= o1 < NUM_ONSETS, 0 <= n1 < NUM_NUCLEI, 0 <= c1 < NUM_CODAS, 0 <= t1 < NUM_TONES,
        0 <= o2 < NUM_ONSETS, 0 <= n2 < NUM_NUCLEI, 0 <= c2 < NUM_CODAS, 0 <= t2 < NUM_TONES,
    ensures
        0 <= bit_index_spec(o1, n1, c1, t1) < NUM_ONSETS * NUM_NUCLEI * NUM_CODAS * NUM_TONES,
        bit_index_spec(o1, n1, c1, t1) % (NUM_TONES as int) == t1,
        (bit_index_spec(o1, n1, c1, t1) == bit_index_spec(o2, n2, c2, t2))
            <==> (o1 == o2 && n1 == n2 && c1 == c2 && t1 == t2),
{
    let b1 = (o1 * 67 + n1) * 10 + c1;
    assert(0 <= b1 < 30 * 67 * 10) by (nonlinear_arith)
        requires 0 <= o1 < 30, 0 <= n1 < 67, 0 <= c1 < 10, b1 == (o1 * 67 + n1) * 10 + c1;
    assert(0 <= b1 * 6 + t1 < 30 * 67 * 10 * 6) by (nonlinear_arith)
        requires 0 <= b1 < 30 * 67 * 10, 0 <= t1 < 6;
    vstd::arithmetic::div_mod::lemma_fundamental_div_mod_converse(b1 * 6 + t1, 6, b1, t1);
    if bit_index_spec(o1, n1, c1, t1) == bit_index_spec(o2, n2, c2, t2) {
        let b2 = (o2 * 67 + n2) * 10 + c2;
        lemma_mixed_digit(b1, t1, b2, t2, 6);
        lemma_mixed_digit(o1 * 67 + n1, c1, o2 * 67 + n2, c2, 10);
        lemma_mixed_digit(o1, n1, o2, n2, 67);
    }
}

/// Flatten (onset, nucleus, coda, tone) ids into a single bit index
/// (row-major, tone varying fastest).
pub fn bit_index(onset_id: usize, nucleus_id: usize, coda_id: usize, tone_id: usize) -> (r: usize)
    requires
        onset_id < NUM_ONSETS,
        nucleus_id < NUM_NUCLEI,
        coda_id < NUM_CODAS,
        tone_id < NUM_TONES,
    ensures
        r == bit_index_spec(onset_id as int, nucleus_id as int, coda_id as int, tone_id as int),
        r < NUM_ONSETS * NUM_NUCLEI * NUM_CODAS * NUM_TONES,
{
    assert(((onset_id * NUM_NUCLEI + nucleus_id) * NUM_CODAS + coda_id) * NUM_TONES + tone_id
        < NUM_ONSETS * NUM_NUCLEI * NUM_CODAS * NUM_TONES) by (nonlinear_arith)
        requires
            onset_id < NUM_ONSETS,
            nucleus_id < NUM_NUCLEI,
            coda_id < NUM_CODAS,
            tone_id < NUM_TONES,
    ;
    ((onset_id * NUM_NUCLEI + nucleus_id) * NUM_CODAS + coda_id) * NUM_TONES + tone_id
}

// ── Onset / coda extraction ──────────────────────────────────────────────────

/// Length of the longest valid coda that `s` ends with.
pub open spec fn coda_len(s: Seq<char>) -> int {
    if s.len() >= 2 && ((s[s.len() - 2] == 'c' && s[s.len() - 1] == 'h') || (s[s.len() - 2] == 'n' && s[s.len() - 1] == 'g') || (s[s.len() - 2] == 'n' && s[s.len() - 1] == 'h')) {
        2
    } else if s.len() >= 1 && (s[s.len() - 1] == 'c' || s[s.len() - 1] == 'm' || s[s.len() - 1] == 'n' || s[s.len() - 1] == 'p' || s[s.len() - 1] == 't' || s[s.len() - 1] == 'k') {
        1
    } else {
        0
    }
}

/// Length of the onset matched at the start of `s` (longest first; a "gi"
/// that would leave nothing for the nucleus is read as onset "g").
pub open spec fn onset_len(s: Seq<char>) -> int {
    if s.len() >= 3 && s[0] == 'n' && s[1] == 'g' && s[2] == 'h' {
        3
    } else if s.len() >= 2 && ((s[0] == 'c' && s[1] == 'h') || (s[0] == 'g' && s[1] == 'h') || (s[0] == 'g' && s[1] == 'i') || (s[0] == 'k' && s[1] == 'h') || (s[0] == 'n' && s[1] == 'g') || (s[0] == 'n' && s[1] == 'h') || (s[0] == 'p' && s[1] == 'h') || (s[0] == 'q' && s[1] == 'u') || (s[0] == 't' && s[1] == 'h') || (s[0] == 't' && s[1] == 'r') || (s[0] == 'd' && s[1] == 'z')) {
        if s[0] == 'g' && s[1] == 'i' && s.len() - 2 == coda_len(s.subrange(2, s.len() as int)) {
            1
        } else {
            2
        }
    } else if s.len() >= 1 && (s[0] == 'b' || s[0] == 'c' || s[0] == 'd' || s[0] == 'đ' || s[0] == 'g' || s[0] == 'h' || s[0] == 'k' || s[0] == 'l' || s[0] == 'm' || s[0] == 'n' || s[0] == 'p' || s[0] == 'r' || s[0] == 's' || s[0] == 't' || s[0] == 'v' || s[0] == 'x' || s[0] == 'z') {
        1
    } else {
        0
    }
}

fn coda_len_of(s: &[char]) -> (r: usize)
    ensures r == coda_len(s@), r <= s@.len(),
{
    let n = s.len();
    if n >= 2 && ((s[n - 2] == 'c' && s[n - 1] == 'h') || (s[n - 2] == 'n' && s[n - 1] == 'g') || (s[n - 2] == 'n' && s[n - 1] == 'h')) {
        2
    } else if n >= 1 && (s[n - 1] == 'c' || s[n - 1] == 'm' || s[n - 1] == 'n' || s[n - 1] == 'p' || s[n - 1] == 't' || s[n - 1] == 'k') {
        1
    } else {
        0
    }
}

fn onset_len_of(s: &[char]) -> (r: usize)
    ensures r == onset_len(s@), r <= s@.len(),
{
    let n = s.len();
    if n >= 3 && s[0] == 'n' && s[1] == 'g' && s[2] == 'h' {
        3
    } else if n >= 2 && ((s[0] == 'c' && s[1] == 'h') || (s[0] == 'g' && s[1] == 'h') || (s[0] == 'g' && s[1] == 'i') || (s[0] == 'k' && s[1] == 'h') || (s[0] == 'n' && s[1] == 'g') || (s[0] == 'n' && s[1] == 'h') || (s[0] == 'p' && s[1] == 'h') || (s[0] == 'q' && s[1] == 'u') || (s[0] == 't' && s[1] == 'h') || (s[0] == 't' && s[1] == 'r') || (s[0] == 'd' && s[1] == 'z')) {
        if s[0] == 'g' && s[1] == 'i' {
            let after = sub_vec(s, 2, n);
            if n - 2 == coda_len_of(after.as_slice()) {
                return 1;
            }
        }
        2
    } else if n >= 1 && (s[0] == 'b' || s[0] == 'c' || s[0] == 'd' || s[0] == 'đ' || s[0] == 'g' || s[0] == 'h' || s[0] == 'k' || s[0] == 'l' || s[0] == 'm' || s[0] == 'n' || s[0] == 'p' || s[0] == 'r' || s[0] == 's' || s[0] == 't' || s[0] == 'v' || s[0] == 'x' || s[0] == 'z') {
        1
    } else {
        0
    }
}

/// Extract the onset (initial consonant cluster) from a normalized syllable.
pub fn extract_onset(syllable: &str) -> (r: String)
    ensures r@ == syllable@.subrange(0, onset_len(syllable@)),
{
    let s = str_chars(syllable);
    let k = onset_len_of(s.as_slice());
    let v = sub_vec(s.as_slice(), 0, k);
    chars_to_string(v.as_slice())
}

/// Extract the coda (final consonant) from the rest of a normalized syllable.
pub fn extract_coda(remaining: &str) -> (r: String)
    ensures r@ == remaining@.subrange(remaining@.len() - coda_len(remaining@), remaining@.len() as int),
{
    let s = str_chars(remaining);
    let n = s.len();
    let k = coda_len_of(s.as_slice());
    let v = sub_vec(s.as_slice(), n - k, n);
    chars_to_string(v.as_slice())
}

/// (onset, nucleus, coda) split of an already-normalized syllable.
pub open spec fn split_spec(s: Seq<char>) -> (Seq<char>, Seq<char>, Seq<char>) {
    let o = onset_len(s);
    let after = s.subrange(o, s.len() as int);
    let c = coda_len(after);
    (s.subrange(0, o), after.subrange(0, after.len() - c), after.subrange(after.len() - c, after.len() as int))
}

/// Split an already-normalized syllable into (onset, nucleus, coda).
pub fn split_parts(s: &[char]) -> (r: (Vec<char>, Vec<char>, Vec<char>))
    ensures
        (r.0@, r.1@, r.2@) == split_spec(s@),
        r.0@ + r.1@ + r.2@ == s@,
{
    let n = s.len();
    let o = onset_len_of(s);
    let after = sub_vec(s, o, n);
    let c = coda_len_of(after.as_slice());
    let m = after.len();
    let onset = sub_vec(s, 0, o);
    let nucleus = sub_vec(after.as_slice(), 0, m - c);
    let coda = sub_vec(after.as_slice(), m - c, m);
    assert(onset@ + nucleus@ + coda@ =~= s@);
    (onset, nucleus, coda)
}

// ── Attested-syllable id decomposition ──────────────────────────────────────

/// The tone a syllable carries: the one tone mark found on its chars
/// (`NoTone` when none), or `None` when two different tone marks occur.
pub open spec fn extract_tone_spec(s: Seq<char>) -> Option<ToneMark>
    decreases s.len(),
{
    if s.len() == 0 {
        Some(ToneMark::NoTone)
    } else {
        match extract_tone_spec(s.drop_last()) {
            None => None,
            Some(found) => {
                let t = strip_spec(s.last()).1;
                if t == ToneMark::NoTone {
                    Some(found)
                } else if found != ToneMark::NoTone && found != t {
                    None
                } else {
                    Some(t)
                }
            },
        }
    }
}

fn extract_tone(syllable: &[char]) -> (r: Option<ToneMark>)
    ensures
        r == extract_tone_spec(syllable@),
{
    let mut found = ToneMark::NoTone;
    let mut i: usize = 0;
    while i < syllable.len()
        invariant
            i <= syllable.len(),
            extract_tone_spec(syllable@.subrange(0, i as int)) == Some(found),
        decreases syllable.len() - i,
    {
        assert(syllable@.subrange(0, (i + 1) as int).drop_last() =~= syllable@.subrange(0, i as int));
        let (_, tone) = strip(syllable[i]);
        if tone != ToneMark::NoTone {
            if found != ToneMark::NoTone && found != tone {
                proof { lemma_extract_tone_none_stays(syllable@, i as int + 1); }
                return None;
            }
            found = tone;
        }
        i += 1;
    }
    assert(syllable@.subrange(0, syllable.len() as int) =~= syllable@);
    Some(found)
}

proof fn lemma_extract_tone_none_stays(s: Seq<char>, k: int)
    requires
        0 <= k <= s.len(),
        extract_tone_spec(s.subrange(0, k)) is None,
    ensures
        extract_tone_spec(s) is None,
    decreases s.len() - k,
{
    if k < s.len() {
        assert(s.subrange(0, k + 1).drop_last() =~= s.subrange(0, k));
        lemma_extract_tone_none_stays(s, k + 1);
    } else {
        assert(s.subrange(0, k) =~= s);
    }
}

/// `s` in NFC, lowercased when it holds an uppercase char.
pub open spec fn nfc_lower_spec(s: Seq<char>) -> Seq<char> {
    let n = unicode_nfc(s);
    if exists|i: int| 0 <= i < n.len() && is_upper(#[trigger] n[i]) {
        std_str_lower(n)
    } else {
        n
    }
}

fn nfc_lowercase(syllable: &str) -> (r: Vec<char>)
    ensures
        r@ == nfc_lower_spec(syllable@),
{
    let nfc: Vec<char> = if is_nfc_quick_yes(syllable) {
        str_chars(syllable)
    } else {
        let s = normalize_nfc(syllable);
        str_chars(s.as_str())
    };
    let mut any_upper = false;
    let mut i: usize = 0;
    while i < nfc.len() && !any_upper
        invariant
            i <= nfc.len(),
            nfc@ == unicode_nfc(syllable@),
            any_upper ==> exists|j: int| 0 <= j < nfc@.len() && is_upper(#[trigger] nfc@[j]),
            !any_upper ==> forall|j: int| 0 <= j < i ==> !is_upper(#[trigger] nfc@[j]),
        decreases nfc.len() - i,
    {
        if char_is_upper(nfc[i]) {
            any_upper = true;
        }
        i += 1;
    }
    if any_upper {
        chars_to_lowercase(nfc.as_slice())
    } else {
        nfc
    }
}

/// The (onset, nucleus, coda, tone) ids of a syllable: its NFC lowercase
/// form must carry at most one distinct tone, and its tone-free split must
/// use a valid onset, nucleus and coda.
pub open spec fn decompose_spec(s: Seq<char>) -> Option<(usize, usize, usize, usize)> {
    let n = nfc_lower_spec(s);
    match extract_tone_spec(n) {
        None => None,
        Some(t) => {
            let parts = split_spec(normalize_seq(n));
            match (onset_id_spec(parts.0), nucleus_id_spec(parts.1), coda_id_spec(parts.2)) {
                (Some(o), Some(nu), Some(c)) => Some((o, nu, c, tone_id_spec(t))),
                _ => None,
            }
        },
    }
}

/// Decompose a syllable (any case, NFC or NFD) into the (onset, nucleus,
/// coda, tone) ids of the attested-syllable table; `None` when a part is not
/// in the tables or two different tone marks occur.
pub fn decompose_ids(syllable: &str) -> (r: Option<(usize, usize, usize, usize)>)
    ensures
        r == decompose_spec(syllable@),
{
    let normalized = nfc_lowercase(syllable);
    let tone = match extract_tone(normalized.as_slice()) {
        Some(t) => t,
        None => return None,
    };
    let stripped = normalize_chars(normalized.as_slice());
    let (onset, nucleus, coda) = split_parts(stripped.as_slice());
    let o = match onset_id_of(onset.as_slice()) {
        Some(x) => x,
        None => return None,
    };
    let n = match nucleus_id_of(nucleus.as_slice()) {
        Some(x) => x,
        None => return None,
    };
    let c = match coda_id_of(coda.as_slice()) {
        Some(x) => x,
        None => return None,
    };
    Some((o, n, c, tone_id(tone)))
}

// ── Validity ─────────────────────────────────────────────────────────────────

/// Onset/nucleus/coda combination is valid Vietnamese: open syllables always,
/// the onset-rescued "qu"+"y"+"n|nh" and "gi"+"e|ê"+"n|ng" forms, and the
/// per-nucleus table of allowed codas.
pub open spec fn combination_valid(onset: Seq<char>, n: Seq<char>, c: Seq<char>) -> bool {
    if c.len() == 0 {
        true
    } else if (onset.len() == 2 && onset[0] == 'q' && onset[1] == 'u') && (n.len() == 1 && n[0] == 'y') && ((c.len() == 1 && c[0] == 'n') || (c.len() == 2 && c[0] == 'n' && c[1] == 'h')) {
        true
    } else if (onset.len() == 2 && onset[0] == 'g' && onset[1] == 'i') && ((n.len() == 1 && n[0] == 'e') || (n.len() == 1 && n[0] == 'ê')) && ((c.len() == 1 && c[0] == 'n') || (c.len() == 2 && c[0] == 'n' && c[1] == 'g')) {
        true
    } else {
        if (n.len() == 1 && n[0] == 'a') {
            (c.len() == 1 && c[0] == 'c') || (c.len() == 2 && c[0] == 'c' && c[1] == 'h') || (c.len() == 1 && c[0] == 'm') || (c.len() == 1 && c[0] == 'n') || (c.len() == 2 && c[0] == 'n' && c[1] == 'g') || (c.len() == 2 && c[0] == 'n' && c[1] == 'h') || (c.len() == 1 && c[0] == 'p') || (c.len() == 1 && c[0] == 't')
        } else if (n.len() == 1 && n[0] == 'ă') {
            (c.len() == 1 && c[0] == 'c') || (c.len() == 1 && c[0] == 'm') || (c.len() == 1 && c[0] == 'n') || (c.len() == 2 && c[0] == 'n' && c[1] == 'g') || (c.len() == 1 && c[0] == 'p') || (c.len() == 1 && c[0] == 't') || (c.len() == 1 && c[0] == 'k')
        } else if (n.len() == 1 && n[0] == 'â') {
            (c.len() == 1 && c[0] == 'c') || (c.len() == 1 && c[0] == 'm') || (c.len() == 1 && c[0] == 'n') || (c.len() == 2 && c[0] == 'n' && c[1] == 'g') || (c.len() == 1 && c[0] == 'p') || (c.len() == 1 && c[0] == 't')
        } else if (n.len() == 1 && n[0] == 'e') {
            (c.len() == 1 && c[0] == 'c') || (c.len() == 2 && c[0] == 'c' && c[1] == 'h') || (c.len() == 1 && c[0] == 'm') || (c.len() == 1 && c[0] == 'n') || (c.len() == 2 && c[0] == 'n' && c[1] == 'g') || (c.len() == 2 && c[0] == 'n' && c[1] == 'h') || (c.len() == 1 && c[0] == 'p') || (c.len() == 1 && c[0] == 't')
        } else if (n.len() == 1 && n[0] == 'ê') {
            (c.len() == 1 && c[0] == 'c') || (c.len() == 2 && c[0] == 'c' && c[1] == 'h') || (c.len() == 1 && c[0] == 'm') || (c.len() == 1 && c[0] == 'n') || (c.len() == 2 && c[0] == 'n' && c[1] == 'h') || (c.len() == 1 && c[0] == 'p') || (c.len() == 1 && c[0] == 't')
        } else if (n.len() == 1 && n[0] == 'i') {
            (c.len() == 1 && c[0] == 'c') || (c.len() == 2 && c[0] == 'c' && c[1] == 'h') || (c.len() == 1 && c[0] == 'm') || (c.len() == 1 && c[0] == 'n') || (c.len() == 2 && c[0] == 'n' && c[1] == 'h') || (c.len() == 1 && c[0] == 'p') || (c.len() == 1 && c[0] == 't')
        } else if (n.len() == 1 && n[0] == 'o') || (n.len() == 1 && n[0] == 'ô') || (n.len() == 2 && n[0] == 'o' && n[1] == 'o') {
            (c.len() == 1 && c[0] == 'c') || (c.len() == 1 && c[0] == 'm') || (c.len() == 1 && c[0] == 'n') || (c.len() == 2 && c[0] == 'n' && c[1] == 'g') || (c.len() == 1 && c[0] == 'p') || (c.len() == 1 && c[0] == 't')
        } else if (n.len() == 1 && n[0] == 'ơ') {
            (c.len() == 1 && c[0] == 'm') || (c.len() == 1 && c[0] == 'n') || (c.len() == 1 && c[0] == 'p') || (c.len() == 1 && c[0] == 't')
        } else if (n.len() == 1 && n[0] == 'u') {
            (c.len() == 1 && c[0] == 'c') || (c.len() == 1 && c[0] == 'm') || (c.len() == 1 && c[0] == 'n') || (c.len() == 2 && c[0] == 'n' && c[1] == 'g') || (c.len() == 1 && c[0] == 'p') || (c.len() == 1 && c[0] == 't') || (c.len() == 1 && c[0] == 'k')
        } else if (n.len() == 1 && n[0] == 'ư') {
            (c.len() == 1 && c[0] == 'c') || (c.len() == 1 && c[0] == 'm') || (c.len() == 1 && c[0] == 'n') || (c.len() == 2 && c[0] == 'n' && c[1] == 'g') || (c.len() == 1 && c[0] == 't')
        } else if (n.len() == 1 && n[0] == 'y') {
            (c.len() == 1 && c[0] == 't')
        } else if (n.len() == 2 && n[0] == 'i' && n[1] == 'ê') {
            (c.len() == 1 && c[0] == 'c') || (c.len() == 1 && c[0] == 'm') || (c.len() == 1 && c[0] == 'n') || (c.len() == 2 && c[0] == 'n' && c[1] == 'g') || (c.len() == 1 && c[0] == 'p') || (c.len() == 1 && c[0] == 't')
        } else if (n.len() == 2 && n[0] == 'o' && n[1] == 'a') {
            (c.len() == 1 && c[0] == 'c') || (c.len() == 2 && c[0] == 'c' && c[1] == 'h') || (c.len() == 1 && c[0] == 'm') || (c.len() == 1 && c[0] == 'n') || (c.len() == 2 && c[0] == 'n' && c[1] == 'g') || (c.len() == 2 && c[0] == 'n' && c[1] == 'h') || (c.len() == 1 && c[0] == 'p') || (c.len() == 1 && c[0] == 't')
        } else if (n.len() == 2 && n[0] == 'o' && n[1] == 'ă') {
            (c.len() == 1 && c[0] == 'c') || (c.len() == 1 && c[0] == 'm') || (c.len() == 1 && c[0] == 'n') || (c.len() == 2 && c[0] == 'n' && c[1] == 'g') || (c.len() == 1 && c[0] == 't')
        } else if (n.len() == 2 && n[0] == 'o' && n[1] == 'e') {
            (c.len() == 1 && c[0] == 'n') || (c.len() == 1 && c[0] == 't')
        } else if (n.len() == 2 && n[0] == 'u' && n[1] == 'â') || (n.len() == 2 && n[0] == 'u' && n[1] == 'a') {
            (c.len() == 1 && c[0] == 'n') || (c.len() == 2 && c[0] == 'n' && c[1] == 'g') || (c.len() == 1 && c[0] == 't')
        } else if (n.len() == 2 && n[0] == 'u' && n[1] == 'ê') || (n.len() == 2 && n[0] == 'u' && n[1] == 'e') {
            (c.len() == 1 && c[0] == 'c') || (c.len() == 2 && c[0] == 'c' && c[1] == 'h') || (c.len() == 1 && c[0] == 'n') || (c.len() == 2 && c[0] == 'n' && c[1] == 'h')
        } else if (n.len() == 2 && n[0] == 'u' && n[1] == 'ô') || (n.len() == 2 && n[0] == 'u' && n[1] == 'o') {
            (c.len() == 1 && c[0] == 'c') || (c.len() == 1 && c[0] == 'm') || (c.len() == 1 && c[0] == 'n') || (c.len() == 2 && c[0] == 'n' && c[1] == 'g') || (c.len() == 1 && c[0] == 'p') || (c.len() == 1 && c[0] == 't')
        } else if (n.len() == 2 && n[0] == 'ư' && n[1] == 'ơ') || (n.len() == 2 && n[0] == 'ư' && n[1] == 'o') {
            (c.len() == 1 && c[0] == 'c') || (c.len() == 1 && c[0] == 'm') || (c.len() == 1 && c[0] == 'n') || (c.len() == 2 && c[0] == 'n' && c[1] == 'g') || (c.len() == 1 && c[0] == 'p') || (c.len() == 1 && c[0] == 't')
        } else if (n.len() == 2 && n[0] == 'u' && n[1] == 'y') {
            (c.len() == 1 && c[0] == 'c') || (c.len() == 2 && c[0] == 'c' && c[1] == 'h') || (c.len() == 1 && c[0] == 'n') || (c.len() == 2 && c[0] == 'n' && c[1] == 'h') || (c.len() == 1 && c[0] == 'p') || (c.len() == 1 && c[0] == 't')
        } else if (n.len() == 2 && n[0] == 'y' && n[1] == 'ê') || (n.len() == 2 && n[0] == 'y' && n[1] == 'e') {
            (c.len() == 1 && c[0] == 'm') || (c.len() == 1 && c[0] == 'n') || (c.len() == 2 && c[0] == 'n' && c[1] == 'g') || (c.len() == 1 && c[0] == 'p') || (c.len() == 1 && c[0] == 't')
        } else if (n.len() == 3 && n[0] == 'u' && n[1] == 'y' && n[2] == 'ê') || (n.len() == 3 && n[0] == 'u' && n[1] == 'y' && n[2] == 'e') {
            (c.len() == 1 && c[0] == 'n') || (c.len() == 1 && c[0] == 't')
        } else {
            false
        }
    }
}

fn combination_is_valid(onset: &[char], n: &[char], c: &[char]) -> (r: bool)
    ensures r == combination_valid(onset@, n@, c@),
{
    if c.len() == 0 {
        true
    } else if (onset.len() == 2 && onset[0] == 'q' && onset[1] == 'u') && (n.len() == 1 && n[0] == 'y') && ((c.len() == 1 && c[0] == 'n') || (c.len() == 2 && c[0] == 'n' && c[1] == 'h')) {
        true
    } else if (onset.len() == 2 && onset[0] == 'g' && onset[1] == 'i') && ((n.len() == 1 && n[0] == 'e') || (n.len() == 1 && n[0] == 'ê')) && ((c.len() == 1 && c[0] == 'n') || (c.len() == 2 && c[0] == 'n' && c[1] == 'g')) {
        true
    } else {
        if (n.len() == 1 && n[0] == 'a') {
            (c.len() == 1 && c[0] == 'c') || (c.len() == 2 && c[0] == 'c' && c[1] == 'h') || (c.len() == 1 && c[0] == 'm') || (c.len() == 1 && c[0] == 'n') || (c.len() == 2 && c[0] == 'n' && c[1] == 'g') || (c.len() == 2 && c[0] == 'n' && c[1] == 'h') || (c.len() == 1 && c[0] == 'p') || (c.len() == 1 && c[0] == 't')
        } else if (n.len() == 1 && n[0] == 'ă') {
            (c.len() == 1 && c[0] == 'c') || (c.len() == 1 && c[0] == 'm') || (c.len() == 1 && c[0] == 'n') || (c.len() == 2 && c[0] == 'n' && c[1] == 'g') || (c.len() == 1 && c[0] == 'p') || (c.len() == 1 && c[0] == 't') || (c.len() == 1 && c[0] == 'k')
        } else if (n.len() == 1 && n[0] == 'â') {
            (c.len() == 1 && c[0] == 'c') || (c.len() == 1 && c[0] == 'm') || (c.len() == 1 && c[0] == 'n') || (c.len() == 2 && c[0] == 'n' && c[1] == 'g') || (c.len() == 1 && c[0] == 'p') || (c.len() == 1 && c[0] == 't')
        } else if (n.len() == 1 && n[0] == 'e') {
            (c.len() == 1 && c[0] == 'c') || (c.len() == 2 && c[0] == 'c' && c[1] == 'h') || (c.len() == 1 && c[0] == 'm') || (c.len() == 1 && c[0] == 'n') || (c.len() == 2 && c[0] == 'n' && c[1] == 'g') || (c.len() == 2 && c[0] == 'n' && c[1] == 'h') || (c.len() == 1 && c[0] == 'p') || (c.len() == 1 && c[0] == 't')
        } else if (n.len() == 1 && n[0] == 'ê') {
            (c.len() == 1 && c[0] == 'c') || (c.len() == 2 && c[0] == 'c' && c[1] == 'h') || (c.len() == 1 && c[0] == 'm') || (c.len() == 1 && c[0] == 'n') || (c.len() == 2 && c[0] == 'n' && c[1] == 'h') || (c.len() == 1 && c[0] == 'p') || (c.len() == 1 && c[0] == 't')
        } else if (n.len() == 1 && n[0] == 'i') {
            (c.len() == 1 && c[0] == 'c') || (c.len() == 2 && c[0] == 'c' && c[1] == 'h') || (c.len() == 1 && c[0] == 'm') || (c.len() == 1 && c[0] == 'n') || (c.len() == 2 && c[0] == 'n' && c[1] == 'h') || (c.len() == 1 && c[0] == 'p') || (c.len() == 1 && c[0] == 't')
        } else if (n.len() == 1 && n[0] == 'o') || (n.len() == 1 && n[0] == 'ô') || (n.len() == 2 && n[0] == 'o' && n[1] == 'o') {
            (c.len() == 1 && c[0] == 'c') || (c.len() == 1 && c[0] == 'm') || (c.len() == 1 && c[0] == 'n') || (c.len() == 2 && c[0] == 'n' && c[1] == 'g') || (c.len() == 1 && c[0] == 'p') || (c.len() == 1 && c[0] == 't')
        } else if (n.len() == 1 && n[0] == 'ơ') {
            (c.len() == 1 && c[0] == 'm') || (c.len() == 1 && c[0] == 'n') || (c.len() == 1 && c[0] == 'p') || (c.len() == 1 && c[0] == 't')
        } else if (n.len() == 1 && n[0] == 'u') {
            (c.len() == 1 && c[0] == 'c') || (c.len() == 1 && c[0] == 'm') || (c.len() == 1 && c[0] == 'n') || (c.len() == 2 && c[0] == 'n' && c[1] == 'g') || (c.len() == 1 && c[0] == 'p') || (c.len() == 1 && c[0] == 't') || (c.len() == 1 && c[0] == 'k')
        } else if (n.len() == 1 && n[0] == 'ư') {
            (c.len() == 1 && c[0] == 'c') || (c.len() == 1 && c[0] == 'm') || (c.len() == 1 && c[0] == 'n') || (c.len() == 2 && c[0] == 'n' && c[1] == 'g') || (c.len() == 1 && c[0] == 't')
        } else if (n.len() == 1 && n[0] == 'y') {
            (c.len() == 1 && c[0] == 't')
        } else if (n.len() == 2 && n[0] == 'i' && n[1] == 'ê') {
            (c.len() == 1 && c[0] == 'c') || (c.len() == 1 && c[0] == 'm') || (c.len() == 1 && c[0] == 'n') || (c.len() == 2 && c[0] == 'n' && c[1] == 'g') || (c.len() == 1 && c[0] == 'p') || (c.len() == 1 && c[0] == 't')
        } else if (n.len() == 2 && n[0] == 'o' && n[1] == 'a') {
            (c.len() == 1 && c[0] == 'c') || (c.len() == 2 && c[0] == 'c' && c[1] == 'h') || (c.len() == 1 && c[0] == 'm') || (c.len() == 1 && c[0] == 'n') || (c.len() == 2 && c[0] == 'n' && c[1] == 'g') || (c.len() == 2 && c[0] == 'n' && c[1] == 'h') || (c.len() == 1 && c[0] == 'p') || (c.len() == 1 && c[0] == 't')
        } else if (n.len() == 2 && n[0] == 'o' && n[1] == 'ă') {
            (c.len() == 1 && c[0] == 'c') || (c.len() == 1 && c[0] == 'm') || (c.len() == 1 && c[0] == 'n') || (c.len() == 2 && c[0] == 'n' && c[1] == 'g') || (c.len() == 1 && c[0] == 't')
        } else if (n.len() == 2 && n[0] == 'o' && n[1] == 'e') {
            (c.len() == 1 && c[0] == 'n') || (c.len() == 1 && c[0] == 't')
        } else if (n.len() == 2 && n[0] == 'u' && n[1] == 'â') || (n.len() == 2 && n[0] == 'u' && n[1] == 'a') {
            (c.len() == 1 && c[0] == 'n') || (c.len() == 2 && c[0] == 'n' && c[1] == 'g') || (c.len() == 1 && c[0] == 't')
        } else if (n.len() == 2 && n[0] == 'u' && n[1] == 'ê') || (n.len() == 2 && n[0] == 'u' && n[1] == 'e') {
            (c.len() == 1 && c[0] == 'c') || (c.len() == 2 && c[0] == 'c' && c[1] == 'h') || (c.len() == 1 && c[0] == 'n') || (c.len() == 2 && c[0] == 'n' && c[1] == 'h')
        } else if (n.len() == 2 && n[0] == 'u' && n[1] == 'ô') || (n.len() == 2 && n[0] == 'u' && n[1] == 'o') {
            (c.len() == 1 && c[0] == 'c') || (c.len() == 1 && c[0] == 'm') || (c.len() == 1 && c[0] == 'n') || (c.len() == 2 && c[0] == 'n' && c[1] == 'g') || (c.len() == 1 && c[0] == 'p') || (c.len() == 1 && c[0] == 't')
        } else if (n.len() == 2 && n[0] == 'ư' && n[1] == 'ơ') || (n.len() == 2 && n[0] == 'ư' && n[1] == 'o') {
            (c.len() == 1 && c[0] == 'c') || (c.len() == 1 && c[0] == 'm') || (c.len() == 1 && c[0] == 'n') || (c.len() == 2 && c[0] == 'n' && c[1] == 'g') || (c.len() == 1 && c[0] == 'p') || (c.len() == 1 && c[0] == 't')
        } else if (n.len() == 2 && n[0] == 'u' && n[1] == 'y') {
            (c.len() == 1 && c[0] == 'c') || (c.len() == 2 && c[0] == 'c' && c[1] == 'h') || (c.len() == 1 && c[0] == 'n') || (c.len() == 2 && c[0] == 'n' && c[1] == 'h') || (c.len() == 1 && c[0] == 'p') || (c.len() == 1 && c[0] == 't')
        } else if (n.len() == 2 && n[0] == 'y' && n[1] == 'ê') || (n.len() == 2 && n[0] == 'y' && n[1] == 'e') {
            (c.len() == 1 && c[0] == 'm') || (c.len() == 1 && c[0] == 'n') || (c.len() == 2 && c[0] == 'n' && c[1] == 'g') || (c.len() == 1 && c[0] == 'p') || (c.len() == 1 && c[0] == 't')
        } else if (n.len() == 3 && n[0] == 'u' && n[1] == 'y' && n[2] == 'ê') || (n.len() == 3 && n[0] == 'u' && n[1] == 'y' && n[2] == 'e') {
            (c.len() == 1 && c[0] == 'n') || (c.len() == 1 && c[0] == 't')
        } else {
            false
        }
    }
}

/// The three parts form a valid Vietnamese syllable.
pub open spec fn parts_valid(onset: Seq<char>, nucleus: Seq<char>, coda: Seq<char>) -> bool {
    &&& onset_id_spec(onset) is Some
    &&& nucleus.len() > 0
    &&& nucleus_id_spec(nucleus) is Some
    &&& coda_id_spec(coda) is Some
    &&& combination_valid(onset, nucleus, coda)
}

/// Any valid onset followed by the nucleus ơ and the coda m, n, p or t
/// makes valid parts (`hơn`, `sơn`, `lớn`, `thơm`, `lớp`, `mớt`).
pub proof fn law_o_horn_with_closing_codas(onset: Seq<char>, coda: Seq<char>)
    requires
        onset_id_spec(onset) is Some,
        coda == seq!['m'] || coda == seq!['n'] || coda == seq!['p'] || coda == seq!['t'],
    ensures
        parts_valid(onset, seq!['ơ'], coda),
{
}

/// Validity check on the three parts of a syllable.
pub fn parts_are_valid(onset: &[char], nucleus: &[char], coda: &[char]) -> (r: bool)
    ensures r == parts_valid(onset@, nucleus@, coda@),
{
    onset_id_of(onset).is_some()
        && nucleus.len() > 0
        && nucleus_id_of(nucleus).is_some()
        && coda_id_of(coda).is_some()
        && combination_is_valid(onset, nucleus, coda)
}

/// `text` (any case, toned or not) is a valid Vietnamese syllable.
pub open spec fn is_valid_syllable_spec(text: Seq<char>) -> bool {
    let (o, n, c) = split_spec(normalize_seq(text));
    parts_valid(o, n, c)
}

/// Validity check straight from a char sequence.
pub fn is_valid_syllable_chars(text: &[char]) -> (r: bool)
    ensures r == is_valid_syllable_spec(text@),
{
    let normalized = normalize_chars(text);
    let (o, n, c) = split_parts(normalized.as_slice());
    parts_are_valid(o.as_slice(), n.as_slice(), c.as_slice())
}

/// `SyllableStructure::parse(text).is_valid()`.
pub fn is_valid_syllable_fast(text: &str) -> (r: bool)
    ensures r == is_valid_syllable_spec(text@),
{
    let chars = str_chars(text);
    is_valid_syllable_chars(chars.as_slice())
}

impl SyllableStructure {
    /// Parse a syllable: normalize (lowercase, remove tones), take the longest
    /// onset from the start and the longest coda from the end; the middle is
    /// the nucleus.
    pub fn parse(syllable: &str) -> (r: Self)
        ensures
            (r.onset@, r.nucleus@, r.coda@) == split_spec(normalize_seq(syllable@)),
            r.onset@ + r.nucleus@ + r.coda@ == normalize_seq(syllable@),
    {
        let chars = str_chars(syllable);
        let normalized = normalize_chars(chars.as_slice());
        let (o, n, c) = split_parts(normalized.as_slice());
        SyllableStructure {
            onset: chars_to_string(o.as_slice()),
            nucleus: chars_to_string(n.as_slice()),
            coda: chars_to_string(c.as_slice()),
        }
    }

    /// Whether this structure is a valid Vietnamese syllable.
    pub fn is_valid(&self) -> (r: bool)
        ensures r == parts_valid(self.onset@, self.nucleus@, self.coda@),
    {
        let o = str_chars(self.onset.as_str());
        let n = str_chars(self.nucleus.as_str());
        let c = str_chars(self.coda.as_str());
        parts_are_valid(o.as_slice(), n.as_slice(), c.as_slice())
    }
}

} // verus!
