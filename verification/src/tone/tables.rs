//! Tone character table: the single mapping between base vowels and toned
//! vowels.
//!
//! Rows are the twelve base vowels (a ă â e ê i o ô ơ u ư y), columns the six
//! tones (none, acute, grave, hook, tilde, dot), one table per case.

use vstd::prelude::*;
use crate::pipeline::config::ToneMark;
use crate::text::{lower_of, upper_of, is_upper, char_lower, char_upper, char_is_upper};

verus! {

// ── Tables ───────────────────────────────────────────────────────────────────

/// Lowercase toned vowel at (`row`, `col`).
pub open spec fn table_lower(row: usize, col: usize) -> char {
    match (row, col) {
        (0, 0) => 'a', (0, 1) => 'á', (0, 2) => 'à', (0, 3) => 'ả', (0, 4) => 'ã', (0, 5) => 'ạ',
        (1, 0) => 'ă', (1, 1) => 'ắ', (1, 2) => 'ằ', (1, 3) => 'ẳ', (1, 4) => 'ẵ', (1, 5) => 'ặ',
        (2, 0) => 'â', (2, 1) => 'ấ', (2, 2) => 'ầ', (2, 3) => 'ẩ', (2, 4) => 'ẫ', (2, 5) => 'ậ',
        (3, 0) => 'e', (3, 1) => 'é', (3, 2) => 'è', (3, 3) => 'ẻ', (3, 4) => 'ẽ', (3, 5) => 'ẹ',
        (4, 0) => 'ê', (4, 1) => 'ế', (4, 2) => 'ề', (4, 3) => 'ể', (4, 4) => 'ễ', (4, 5) => 'ệ',
        (5, 0) => 'i', (5, 1) => 'í', (5, 2) => 'ì', (5, 3) => 'ỉ', (5, 4) => 'ĩ', (5, 5) => 'ị',
        (6, 0) => 'o', (6, 1) => 'ó', (6, 2) => 'ò', (6, 3) => 'ỏ', (6, 4) => 'õ', (6, 5) => 'ọ',
        (7, 0) => 'ô', (7, 1) => 'ố', (7, 2) => 'ồ', (7, 3) => 'ổ', (7, 4) => 'ỗ', (7, 5) => 'ộ',
        (8, 0) => 'ơ', (8, 1) => 'ớ', (8, 2) => 'ờ', (8, 3) => 'ở', (8, 4) => 'ỡ', (8, 5) => 'ợ',
        (9, 0) => 'u', (9, 1) => 'ú', (9, 2) => 'ù', (9, 3) => 'ủ', (9, 4) => 'ũ', (9, 5) => 'ụ',
        (10, 0) => 'ư', (10, 1) => 'ứ', (10, 2) => 'ừ', (10, 3) => 'ử', (10, 4) => 'ữ', (10, 5) => 'ự',
        (11, 0) => 'y', (11, 1) => 'ý', (11, 2) => 'ỳ', (11, 3) => 'ỷ', (11, 4) => 'ỹ', (11, 5) => 'ỵ',
        _ => ' ',
    }
}

/// Uppercase toned vowel at (`row`, `col`).
pub open spec fn table_upper(row: usize, col: usize) -> char {
    match (row, col) {
        (0, 0) => 'A', (0, 1) => 'Á', (0, 2) => 'À', (0, 3) => 'Ả', (0, 4) => 'Ã', (0, 5) => 'Ạ',
        (1, 0) => 'Ă', (1, 1) => 'Ắ', (1, 2) => 'Ằ', (1, 3) => 'Ẳ', (1, 4) => 'Ẵ', (1, 5) => 'Ặ',
        (2, 0) => 'Â', (2, 1) => 'Ấ', (2, 2) => 'Ầ', (2, 3) => 'Ẩ', (2, 4) => 'Ẫ', (2, 5) => 'Ậ',
        (3, 0) => 'E', (3, 1) => 'É', (3, 2) => 'È', (3, 3) => 'Ẻ', (3, 4) => 'Ẽ', (3, 5) => 'Ẹ',
        (4, 0) => 'Ê', (4, 1) => 'Ế', (4, 2) => 'Ề', (4, 3) => 'Ể', (4, 4) => 'Ễ', (4, 5) => 'Ệ',
        (5, 0) => 'I', (5, 1) => 'Í', (5, 2) => 'Ì', (5, 3) => 'Ỉ', (5, 4) => 'Ĩ', (5, 5) => 'Ị',
        (6, 0) => 'O', (6, 1) => 'Ó', (6, 2) => 'Ò', (6, 3) => 'Ỏ', (6, 4) => 'Õ', (6, 5) => 'Ọ',
        (7, 0) => 'Ô', (7, 1) => 'Ố', (7, 2) => 'Ồ', (7, 3) => 'Ổ', (7, 4) => 'Ỗ', (7, 5) => 'Ộ',
        (8, 0) => 'Ơ', (8, 1) => 'Ớ', (8, 2) => 'Ờ', (8, 3) => 'Ở', (8, 4) => 'Ỡ', (8, 5) => 'Ợ',
        (9, 0) => 'U', (9, 1) => 'Ú', (9, 2) => 'Ù', (9, 3) => 'Ủ', (9, 4) => 'Ũ', (9, 5) => 'Ụ',
        (10, 0) => 'Ư', (10, 1) => 'Ứ', (10, 2) => 'Ừ', (10, 3) => 'Ử', (10, 4) => 'Ữ', (10, 5) => 'Ự',
        (11, 0) => 'Y', (11, 1) => 'Ý', (11, 2) => 'Ỳ', (11, 3) => 'Ỷ', (11, 4) => 'Ỹ', (11, 5) => 'Ỵ',
        _ => ' ',
    }
}

pub(crate) fn table_lower_at(row: usize, col: usize) -> (r: char)
    requires row < 12, col < 6,
    ensures r == table_lower(row, col),
{
    match (row, col) {
        (0, 0) => 'a', (0, 1) => 'á', (0, 2) => 'à', (0, 3) => 'ả', (0, 4) => 'ã', (0, 5) => 'ạ',
        (1, 0) => 'ă', (1, 1) => 'ắ', (1, 2) => 'ằ', (1, 3) => 'ẳ', (1, 4) => 'ẵ', (1, 5) => 'ặ',
        (2, 0) => 'â', (2, 1) => 'ấ', (2, 2) => 'ầ', (2, 3) => 'ẩ', (2, 4) => 'ẫ', (2, 5) => 'ậ',
        (3, 0) => 'e', (3, 1) => 'é', (3, 2) => 'è', (3, 3) => 'ẻ', (3, 4) => 'ẽ', (3, 5) => 'ẹ',
        (4, 0) => 'ê', (4, 1) => 'ế', (4, 2) => 'ề', (4, 3) => 'ể', (4, 4) => 'ễ', (4, 5) => 'ệ',
        (5, 0) => 'i', (5, 1) => 'í', (5, 2) => 'ì', (5, 3) => 'ỉ', (5, 4) => 'ĩ', (5, 5) => 'ị',
        (6, 0) => 'o', (6, 1) => 'ó', (6, 2) => 'ò', (6, 3) => 'ỏ', (6, 4) => 'õ', (6, 5) => 'ọ',
        (7, 0) => 'ô', (7, 1) => 'ố', (7, 2) => 'ồ', (7, 3) => 'ổ', (7, 4) => 'ỗ', (7, 5) => 'ộ',
        (8, 0) => 'ơ', (8, 1) => 'ớ', (8, 2) => 'ờ', (8, 3) => 'ở', (8, 4) => 'ỡ', (8, 5) => 'ợ',
        (9, 0) => 'u', (9, 1) => 'ú', (9, 2) => 'ù', (9, 3) => 'ủ', (9, 4) => 'ũ', (9, 5) => 'ụ',
        (10, 0) => 'ư', (10, 1) => 'ứ', (10, 2) => 'ừ', (10, 3) => 'ử', (10, 4) => 'ữ', (10, 5) => 'ự',
        (11, 0) => 'y', (11, 1) => 'ý', (11, 2) => 'ỳ', (11, 3) => 'ỷ', (11, 4) => 'ỹ', (11, 5) => 'ỵ',
        _ => ' ',
    }
}

fn table_upper_at(row: usize, col: usize) -> (r: char)
    requires row < 12, col < 6,
    ensures r == table_upper(row, col),
{
    match (row, col) {
        (0, 0) => 'A', (0, 1) => 'Á', (0, 2) => 'À', (0, 3) => 'Ả', (0, 4) => 'Ã', (0, 5) => 'Ạ',
        (1, 0) => 'Ă', (1, 1) => 'Ắ', (1, 2) => 'Ằ', (1, 3) => 'Ẳ', (1, 4) => 'Ẵ', (1, 5) => 'Ặ',
        (2, 0) => 'Â', (2, 1) => 'Ấ', (2, 2) => 'Ầ', (2, 3) => 'Ẩ', (2, 4) => 'Ẫ', (2, 5) => 'Ậ',
        (3, 0) => 'E', (3, 1) => 'É', (3, 2) => 'È', (3, 3) => 'Ẻ', (3, 4) => 'Ẽ', (3, 5) => 'Ẹ',
        (4, 0) => 'Ê', (4, 1) => 'Ế', (4, 2) => 'Ề', (4, 3) => 'Ể', (4, 4) => 'Ễ', (4, 5) => 'Ệ',
        (5, 0) => 'I', (5, 1) => 'Í', (5, 2) => 'Ì', (5, 3) => 'Ỉ', (5, 4) => 'Ĩ', (5, 5) => 'Ị',
        (6, 0) => 'O', (6, 1) => 'Ó', (6, 2) => 'Ò', (6, 3) => 'Ỏ', (6, 4) => 'Õ', (6, 5) => 'Ọ',
        (7, 0) => 'Ô', (7, 1) => 'Ố', (7, 2) => 'Ồ', (7, 3) => 'Ổ', (7, 4) => 'Ỗ', (7, 5) => 'Ộ',
        (8, 0) => 'Ơ', (8, 1) => 'Ớ', (8, 2) => 'Ờ', (8, 3) => 'Ở', (8, 4) => 'Ỡ', (8, 5) => 'Ợ',
        (9, 0) => 'U', (9, 1) => 'Ú', (9, 2) => 'Ù', (9, 3) => 'Ủ', (9, 4) => 'Ũ', (9, 5) => 'Ụ',
        (10, 0) => 'Ư', (10, 1) => 'Ứ', (10, 2) => 'Ừ', (10, 3) => 'Ử', (10, 4) => 'Ữ', (10, 5) => 'Ự',
        (11, 0) => 'Y', (11, 1) => 'Ý', (11, 2) => 'Ỳ', (11, 3) => 'Ỷ', (11, 4) => 'Ỹ', (11, 5) => 'Ỵ',
        _ => ' ',
    }
}

/// Row of a bare lowercase base vowel.
pub open spec fn vowel_row_of(base: char) -> Option<usize> {
    match base {
        'a' => Some(0),
        'ă' => Some(1),
        'â' => Some(2),
        'e' => Some(3),
        'ê' => Some(4),
        'i' => Some(5),
        'o' => Some(6),
        'ô' => Some(7),
        'ơ' => Some(8),
        'u' => Some(9),
        'ư' => Some(10),
        'y' => Some(11),
        _ => None,
    }
}

/// Row of a bare lowercase base vowel in the tone table; `None` for anything else.
pub(crate) fn vowel_row(base: char) -> (r: Option<usize>)
    ensures
        r == vowel_row_of(base),
        r matches Some(i) ==> i < 12,
        {
    match base {
        'a' => Some(0),
        'ă' => Some(1),
        'â' => Some(2),
        'e' => Some(3),
        'ê' => Some(4),
        'i' => Some(5),
        'o' => Some(6),
        'ô' => Some(7),
        'ơ' => Some(8),
        'u' => Some(9),
        'ư' => Some(10),
        'y' => Some(11),
        _ => None,
    }
}

/// Column of a tone in the tone table.
pub open spec fn tone_col_of(tone: ToneMark) -> usize {
    match tone {
        ToneMark::NoTone => 0,
        ToneMark::Acute => 1,
        ToneMark::Grave => 2,
        ToneMark::Hook => 3,
        ToneMark::Tilde => 4,
        ToneMark::Dot => 5,
    }
}

pub(crate) fn tone_col(tone: ToneMark) -> (r: usize)
    ensures r == tone_col_of(tone), r < 6,
{
    match tone {
        ToneMark::NoTone => 0,
        ToneMark::Acute => 1,
        ToneMark::Grave => 2,
        ToneMark::Hook => 3,
        ToneMark::Tilde => 4,
        ToneMark::Dot => 5,
    }
}

// ── Strip ────────────────────────────────────────────────────────────────────

/// Toned lowercase vowel → (bare lowercase vowel, tone); any other char is
/// returned with `ToneMark::NoTone`.
pub open spec fn strip_lower(c: char) -> (char, ToneMark) {
    match c {
        'á' => ('a', ToneMark::Acute),
        'ắ' => ('ă', ToneMark::Acute),
        'ấ' => ('â', ToneMark::Acute),
        'é' => ('e', ToneMark::Acute),
        'ế' => ('ê', ToneMark::Acute),
        'í' => ('i', ToneMark::Acute),
        'ó' => ('o', ToneMark::Acute),
        'ố' => ('ô', ToneMark::Acute),
        'ớ' => ('ơ', ToneMark::Acute),
        'ú' => ('u', ToneMark::Acute),
        'ứ' => ('ư', ToneMark::Acute),
        'ý' => ('y', ToneMark::Acute),
        'à' => ('a', ToneMark::Grave),
        'ằ' => ('ă', ToneMark::Grave),
        'ầ' => ('â', ToneMark::Grave),
        'è' => ('e', ToneMark::Grave),
        'ề' => ('ê', ToneMark::Grave),
        'ì' => ('i', ToneMark::Grave),
        'ò' => ('o', ToneMark::Grave),
        'ồ' => ('ô', ToneMark::Grave),
        'ờ' => ('ơ', ToneMark::Grave),
        'ù' => ('u', ToneMark::Grave),
        'ừ' => ('ư', ToneMark::Grave),
        'ỳ' => ('y', ToneMark::Grave),
        'ả' => ('a', ToneMark::Hook),
        'ẳ' => ('ă', ToneMark::Hook),
        'ẩ' => ('â', ToneMark::Hook),
        'ẻ' => ('e', ToneMark::Hook),
        'ể' => ('ê', ToneMark::Hook),
        'ỉ' => ('i', ToneMark::Hook),
        'ỏ' => ('o', ToneMark::Hook),
        'ổ' => ('ô', ToneMark::Hook),
        'ở' => ('ơ', ToneMark::Hook),
        'ủ' => ('u', ToneMark::Hook),
        'ử' => ('ư', ToneMark::Hook),
        'ỷ' => ('y', ToneMark::Hook),
        'ã' => ('a', ToneMark::Tilde),
        'ẵ' => ('ă', ToneMark::Tilde),
        'ẫ' => ('â', ToneMark::Tilde),
        'ẽ' => ('e', ToneMark::Tilde),
        'ễ' => ('ê', ToneMark::Tilde),
        'ĩ' => ('i', ToneMark::Tilde),
        'õ' => ('o', ToneMark::Tilde),
        'ỗ' => ('ô', ToneMark::Tilde),
        'ỡ' => ('ơ', ToneMark::Tilde),
        'ũ' => ('u', ToneMark::Tilde),
        'ữ' => ('ư', ToneMark::Tilde),
        'ỹ' => ('y', ToneMark::Tilde),
        'ạ' => ('a', ToneMark::Dot),
        'ặ' => ('ă', ToneMark::Dot),
        'ậ' => ('â', ToneMark::Dot),
        'ẹ' => ('e', ToneMark::Dot),
        'ệ' => ('ê', ToneMark::Dot),
        'ị' => ('i', ToneMark::Dot),
        'ọ' => ('o', ToneMark::Dot),
        'ộ' => ('ô', ToneMark::Dot),
        'ợ' => ('ơ', ToneMark::Dot),
        'ụ' => ('u', ToneMark::Dot),
        'ự' => ('ư', ToneMark::Dot),
        'ỵ' => ('y', ToneMark::Dot),
        other => (other, ToneMark::NoTone),
    }
}

fn strip_lower_exec(c: char) -> (r: (char, ToneMark))
    ensures r == strip_lower(c),
{
    match c {
        'á' => ('a', ToneMark::Acute),
        'ắ' => ('ă', ToneMark::Acute),
        'ấ' => ('â', ToneMark::Acute),
        'é' => ('e', ToneMark::Acute),
        'ế' => ('ê', ToneMark::Acute),
        'í' => ('i', ToneMark::Acute),
        'ó' => ('o', ToneMark::Acute),
        'ố' => ('ô', ToneMark::Acute),
        'ớ' => ('ơ', ToneMark::Acute),
        'ú' => ('u', ToneMark::Acute),
        'ứ' => ('ư', ToneMark::Acute),
        'ý' => ('y', ToneMark::Acute),
        'à' => ('a', ToneMark::Grave),
        'ằ' => ('ă', ToneMark::Grave),
        'ầ' => ('â', ToneMark::Grave),
        'è' => ('e', ToneMark::Grave),
        'ề' => ('ê', ToneMark::Grave),
        'ì' => ('i', ToneMark::Grave),
        'ò' => ('o', ToneMark::Grave),
        'ồ' => ('ô', ToneMark::Grave),
        'ờ' => ('ơ', ToneMark::Grave),
        'ù' => ('u', ToneMark::Grave),
        'ừ' => ('ư', ToneMark::Grave),
        'ỳ' => ('y', ToneMark::Grave),
        'ả' => ('a', ToneMark::Hook),
        'ẳ' => ('ă', ToneMark::Hook),
        'ẩ' => ('â', ToneMark::Hook),
        'ẻ' => ('e', ToneMark::Hook),
        'ể' => ('ê', ToneMark::Hook),
        'ỉ' => ('i', ToneMark::Hook),
        'ỏ' => ('o', ToneMark::Hook),
        'ổ' => ('ô', ToneMark::Hook),
        'ở' => ('ơ', ToneMark::Hook),
        'ủ' => ('u', ToneMark::Hook),
        'ử' => ('ư', ToneMark::Hook),
        'ỷ' => ('y', ToneMark::Hook),
        'ã' => ('a', ToneMark::Tilde),
        'ẵ' => ('ă', ToneMark::Tilde),
        'ẫ' => ('â', ToneMark::Tilde),
        'ẽ' => ('e', ToneMark::Tilde),
        'ễ' => ('ê', ToneMark::Tilde),
        'ĩ' => ('i', ToneMark::Tilde),
        'õ' => ('o', ToneMark::Tilde),
        'ỗ' => ('ô', ToneMark::Tilde),
        'ỡ' => ('ơ', ToneMark::Tilde),
        'ũ' => ('u', ToneMark::Tilde),
        'ữ' => ('ư', ToneMark::Tilde),
        'ỹ' => ('y', ToneMark::Tilde),
        'ạ' => ('a', ToneMark::Dot),
        'ặ' => ('ă', ToneMark::Dot),
        'ậ' => ('â', ToneMark::Dot),
        'ẹ' => ('e', ToneMark::Dot),
        'ệ' => ('ê', ToneMark::Dot),
        'ị' => ('i', ToneMark::Dot),
        'ọ' => ('o', ToneMark::Dot),
        'ộ' => ('ô', ToneMark::Dot),
        'ợ' => ('ơ', ToneMark::Dot),
        'ụ' => ('u', ToneMark::Dot),
        'ự' => ('ư', ToneMark::Dot),
        'ỵ' => ('y', ToneMark::Dot),
        other => (other, ToneMark::NoTone),
    }
}

/// What `strip` returns: the base vowel (case preserved) and the tone it carried.
pub open spec fn strip_spec(toned: char) -> (char, ToneMark) {
    let (base_lower, tone) = strip_lower(lower_of(toned));
    let base = if is_upper(toned) { upper_of(base_lower) } else { base_lower };
    (base, tone)
}

/// Strip a tone mark from any Vietnamese vowel.
///
/// Returns `(base_vowel, tone_mark)` where `base_vowel` preserves the original
/// case and has no tone diacritic. Non-vowels are returned as-is with
/// `ToneMark::NoTone`.
pub fn strip(toned: char) -> (r: (char, ToneMark))
    ensures r == strip_spec(toned),
{
    let lower = char_lower(toned);
    let (base_lower, tone) = strip_lower_exec(lower);
    let base = if char_is_upper(toned) { char_upper(base_lower) } else { base_lower };
    (base, tone)
}

// ── Apply ────────────────────────────────────────────────────────────────────

/// What `apply` returns.
pub open spec fn apply_spec(base: char, tone: ToneMark) -> char {
    let bare_lower = strip_spec(lower_of(base)).0;
    match vowel_row_of(bare_lower) {
        Some(row) => if is_upper(base) {
            table_upper(row, tone_col_of(tone))
        } else {
            table_lower(row, tone_col_of(tone))
        },
        None => base,
    }
}

/// Apply a tone mark to a vowel character, preserving case.
///
/// `base` may already carry a tone; it is stripped first, then the new tone is
/// applied. `ToneMark::NoTone` therefore returns the bare base vowel. Non-vowel
/// characters are returned unchanged.
pub fn apply(base: char, tone: ToneMark) -> (r: char)
    ensures r == apply_spec(base, tone),
{
    let is_up = char_is_upper(base);
    let lower = char_lower(base);
    let (bare_lower, _) = strip(lower);
    let row = match vowel_row(bare_lower) {
        Some(r) => r,
        None => return base,
    };
    let col = tone_col(tone);
    if is_up {
        table_upper_at(row, col)
    } else {
        table_lower_at(row, col)
    }
}

// ── Laws ─────────────────────────────────────────────────────────────────────

/// The twelve bare base vowels, in either case.
pub open spec fn is_bare_vowel(c: char) -> bool {
    matches!(c,
        'a' | 'ă' | 'â' | 'e' | 'ê' | 'i' | 'o' | 'ô' | 'ơ' | 'u' | 'ư' | 'y' |
        'A' | 'Ă' | 'Â' | 'E' | 'Ê' | 'I' | 'O' | 'Ô' | 'Ơ' | 'U' | 'Ư' | 'Y'
    )
}

/// Applying any tone to a bare base vowel and stripping it again gives back
/// the same vowel (same case) and the same tone.
pub proof fn law_strip_apply_roundtrip(base: char, tone: ToneMark)
    requires
        is_bare_vowel(base),
    ensures
        strip_spec(apply_spec(base, tone)) == (base, tone),
{
}

} // verus!
