//! Character-level helpers shared by the whole engine.
//!
//! Case mapping and character classes are resolved through the library's own
//! alphabet (ASCII plus every Vietnamese letter, with and without tone marks)
//! and defer to the standard library for every other character. The standard
//! library's answers for those other characters are named results: their
//! values are whatever `char`'s methods return.

use vstd::prelude::*;

verus! {

// ── Names for what `char`'s Unicode-table methods return ─────────────────────

/// The full lowercase mapping that `char::to_lowercase` yields for `c`.
pub uninterp spec fn std_lower(c: char) -> Seq<char>;

/// The full uppercase mapping that `char::to_uppercase` yields for `c`.
pub uninterp spec fn std_upper(c: char) -> Seq<char>;

/// What `char::is_uppercase` returns for `c`.
pub uninterp spec fn std_is_uppercase(c: char) -> bool;

/// What `char::is_alphabetic` returns for `c`.
pub uninterp spec fn std_is_alphabetic(c: char) -> bool;

/// The White_Space code points of the Unicode Character Database
/// (PropList.txt): U+0009–U+000D, U+0020, U+0085, U+00A0, U+1680,
/// U+2000–U+200A, U+2028, U+2029, U+202F, U+205F and U+3000.
pub open spec fn unicode_white_space(c: char) -> bool {
    ||| ('\u{9}' <= c && c <= '\u{d}')
    ||| c == '\u{20}'
    ||| c == '\u{85}'
    ||| c == '\u{a0}'
    ||| c == '\u{1680}'
    ||| ('\u{2000}' <= c && c <= '\u{200a}')
    ||| c == '\u{2028}'
    ||| c == '\u{2029}'
    ||| c == '\u{202f}'
    ||| c == '\u{205f}'
    ||| c == '\u{3000}'
}

/// What `char::is_numeric` returns for `c`.
pub uninterp spec fn std_is_numeric(c: char) -> bool;

/// The code points of general category Cc (control): U+0000–U+001F and
/// U+007F–U+009F.
pub open spec fn unicode_control(c: char) -> bool {
    c <= '\u{1f}' || ('\u{7f}' <= c && c <= '\u{9f}')
}

/// Calls `char::to_lowercase` and collects the chars it yields. The contract
/// claims only that the result is the (named) lowercase mapping of `c`, which
/// the documentation says is one or more chars.
#[verifier::external_body]
fn std_to_lowercase(c: char) -> (r: Vec<char>)
    ensures
        r@ == std_lower(c),
        r@.len() >= 1,
{
    c.to_lowercase().collect()
}

/// Calls `char::to_uppercase` and collects the chars it yields. The contract
/// claims only that the result is the (named) uppercase mapping of `c`, which
/// the documentation says is one or more chars.
#[verifier::external_body]
fn std_to_uppercase(c: char) -> (r: Vec<char>)
    ensures
        r@ == std_upper(c),
        r@.len() >= 1,
{
    c.to_uppercase().collect()
}

/// Calls `char::is_uppercase`; the result is the named property of `c`.
#[verifier::external_body]
fn std_char_is_uppercase(c: char) -> (r: bool)
    ensures
        r == std_is_uppercase(c),
{
    c.is_uppercase()
}

/// Calls `char::is_alphabetic`; the result is the named property of `c`.
#[verifier::external_body]
fn std_char_is_alphabetic(c: char) -> (r: bool)
    ensures
        r == std_is_alphabetic(c),
{
    c.is_alphabetic()
}

/// Calls `char::is_whitespace`, which its documentation defines as the
/// Unicode White_Space property; the contract states that set.
#[verifier::external_body]
fn std_char_is_whitespace(c: char) -> (r: bool)
    ensures
        r == unicode_white_space(c),
{
    c.is_whitespace()
}

/// Calls `char::is_numeric`; the result is the named property of `c`.
#[verifier::external_body]
fn std_char_is_numeric(c: char) -> (r: bool)
    ensures
        r == std_is_numeric(c),
{
    c.is_numeric()
}

/// Calls `char::is_control`, which its documentation defines as general
/// category Cc; the contract states that set.
#[verifier::external_body]
fn std_char_is_control(c: char) -> (r: bool)
    ensures
        r == unicode_control(c),
{
    c.is_control()
}

// ── Alphabet ──────────────────────────────────────────────────────────────────

/// Non-ASCII lowercase letters of the Vietnamese alphabet (toned vowels,
/// vowels with a diacritic, and đ).
pub open spec fn is_viet_lower(c: char) -> bool {
    matches!(c,
        'á' | 'à' | 'ả' | 'ã' | 'ạ' | 'ă' | 'ắ' | 'ằ' | 'ẳ' | 'ẵ' |
        'ặ' | 'â' | 'ấ' | 'ầ' | 'ẩ' | 'ẫ' | 'ậ' | 'é' | 'è' | 'ẻ' |
        'ẽ' | 'ẹ' | 'ê' | 'ế' | 'ề' | 'ể' | 'ễ' | 'ệ' | 'í' | 'ì' |
        'ỉ' | 'ĩ' | 'ị' | 'ó' | 'ò' | 'ỏ' | 'õ' | 'ọ' | 'ô' | 'ố' |
        'ồ' | 'ổ' | 'ỗ' | 'ộ' | 'ơ' | 'ớ' | 'ờ' | 'ở' | 'ỡ' | 'ợ' |
        'ú' | 'ù' | 'ủ' | 'ũ' | 'ụ' | 'ư' | 'ứ' | 'ừ' | 'ử' | 'ữ' |
        'ự' | 'ý' | 'ỳ' | 'ỷ' | 'ỹ' | 'ỵ' | 'đ'
    )
}

/// Non-ASCII uppercase letters of the Vietnamese alphabet.
pub open spec fn is_viet_upper(c: char) -> bool {
    matches!(c,
        'Á' | 'À' | 'Ả' | 'Ã' | 'Ạ' | 'Ă' | 'Ắ' | 'Ằ' | 'Ẳ' | 'Ẵ' |
        'Ặ' | 'Â' | 'Ấ' | 'Ầ' | 'Ẩ' | 'Ẫ' | 'Ậ' | 'É' | 'È' | 'Ẻ' |
        'Ẽ' | 'Ẹ' | 'Ê' | 'Ế' | 'Ề' | 'Ể' | 'Ễ' | 'Ệ' | 'Í' | 'Ì' |
        'Ỉ' | 'Ĩ' | 'Ị' | 'Ó' | 'Ò' | 'Ỏ' | 'Õ' | 'Ọ' | 'Ô' | 'Ố' |
        'Ồ' | 'Ổ' | 'Ỗ' | 'Ộ' | 'Ơ' | 'Ớ' | 'Ờ' | 'Ở' | 'Ỡ' | 'Ợ' |
        'Ú' | 'Ù' | 'Ủ' | 'Ũ' | 'Ụ' | 'Ư' | 'Ứ' | 'Ừ' | 'Ử' | 'Ữ' |
        'Ự' | 'Ý' | 'Ỳ' | 'Ỷ' | 'Ỹ' | 'Ỵ' | 'Đ'
    )
}

pub open spec fn is_ascii_upper(c: char) -> bool {
    'A' <= c && c <= 'Z'
}

pub open spec fn is_ascii_lower(c: char) -> bool {
    'a' <= c && c <= 'z'
}

pub open spec fn is_ascii_char(c: char) -> bool {
    (c as u32) < 128
}

pub open spec fn is_ascii_digit(c: char) -> bool {
    '0' <= c && c <= '9'
}

/// `char::to_ascii_lowercase`.
pub open spec fn ascii_lower(c: char) -> char {
    if is_ascii_upper(c) { ((c as u32) + 32) as char } else { c }
}

/// `char::to_ascii_uppercase`.
pub open spec fn ascii_upper(c: char) -> char {
    if is_ascii_lower(c) { ((c as u32) - 32) as char } else { c }
}

/// Uppercase Vietnamese letter → its lowercase partner (identity elsewhere).
pub open spec fn viet_lower_of(c: char) -> char {
    match c {
        'Á' => 'á',
        'À' => 'à',
        'Ả' => 'ả',
        'Ã' => 'ã',
        'Ạ' => 'ạ',
        'Ă' => 'ă',
        'Ắ' => 'ắ',
        'Ằ' => 'ằ',
        'Ẳ' => 'ẳ',
        'Ẵ' => 'ẵ',
        'Ặ' => 'ặ',
        'Â' => 'â',
        'Ấ' => 'ấ',
        'Ầ' => 'ầ',
        'Ẩ' => 'ẩ',
        'Ẫ' => 'ẫ',
        'Ậ' => 'ậ',
        'É' => 'é',
        'È' => 'è',
        'Ẻ' => 'ẻ',
        'Ẽ' => 'ẽ',
        'Ẹ' => 'ẹ',
        'Ê' => 'ê',
        'Ế' => 'ế',
        'Ề' => 'ề',
        'Ể' => 'ể',
        'Ễ' => 'ễ',
        'Ệ' => 'ệ',
        'Í' => 'í',
        'Ì' => 'ì',
        'Ỉ' => 'ỉ',
        'Ĩ' => 'ĩ',
        'Ị' => 'ị',
        'Ó' => 'ó',
        'Ò' => 'ò',
        'Ỏ' => 'ỏ',
        'Õ' => 'õ',
        'Ọ' => 'ọ',
        'Ô' => 'ô',
        'Ố' => 'ố',
        'Ồ' => 'ồ',
        'Ổ' => 'ổ',
        'Ỗ' => 'ỗ',
        'Ộ' => 'ộ',
        'Ơ' => 'ơ',
        'Ớ' => 'ớ',
        'Ờ' => 'ờ',
        'Ở' => 'ở',
        'Ỡ' => 'ỡ',
        'Ợ' => 'ợ',
        'Ú' => 'ú',
        'Ù' => 'ù',
        'Ủ' => 'ủ',
        'Ũ' => 'ũ',
        'Ụ' => 'ụ',
        'Ư' => 'ư',
        'Ứ' => 'ứ',
        'Ừ' => 'ừ',
        'Ử' => 'ử',
        'Ữ' => 'ữ',
        'Ự' => 'ự',
        'Ý' => 'ý',
        'Ỳ' => 'ỳ',
        'Ỷ' => 'ỷ',
        'Ỹ' => 'ỹ',
        'Ỵ' => 'ỵ',
        'Đ' => 'đ',
        _ => c,
    }
}

/// Lowercase Vietnamese letter → its uppercase partner (identity elsewhere).
pub open spec fn viet_upper_of(c: char) -> char {
    match c {
        'á' => 'Á',
        'à' => 'À',
        'ả' => 'Ả',
        'ã' => 'Ã',
        'ạ' => 'Ạ',
        'ă' => 'Ă',
        'ắ' => 'Ắ',
        'ằ' => 'Ằ',
        'ẳ' => 'Ẳ',
        'ẵ' => 'Ẵ',
        'ặ' => 'Ặ',
        'â' => 'Â',
        'ấ' => 'Ấ',
        'ầ' => 'Ầ',
        'ẩ' => 'Ẩ',
        'ẫ' => 'Ẫ',
        'ậ' => 'Ậ',
        'é' => 'É',
        'è' => 'È',
        'ẻ' => 'Ẻ',
        'ẽ' => 'Ẽ',
        'ẹ' => 'Ẹ',
        'ê' => 'Ê',
        'ế' => 'Ế',
        'ề' => 'Ề',
        'ể' => 'Ể',
        'ễ' => 'Ễ',
        'ệ' => 'Ệ',
        'í' => 'Í',
        'ì' => 'Ì',
        'ỉ' => 'Ỉ',
        'ĩ' => 'Ĩ',
        'ị' => 'Ị',
        'ó' => 'Ó',
        'ò' => 'Ò',
        'ỏ' => 'Ỏ',
        'õ' => 'Õ',
        'ọ' => 'Ọ',
        'ô' => 'Ô',
        'ố' => 'Ố',
        'ồ' => 'Ồ',
        'ổ' => 'Ổ',
        'ỗ' => 'Ỗ',
        'ộ' => 'Ộ',
        'ơ' => 'Ơ',
        'ớ' => 'Ớ',
        'ờ' => 'Ờ',
        'ở' => 'Ở',
        'ỡ' => 'Ỡ',
        'ợ' => 'Ợ',
        'ú' => 'Ú',
        'ù' => 'Ù',
        'ủ' => 'Ủ',
        'ũ' => 'Ũ',
        'ụ' => 'Ụ',
        'ư' => 'Ư',
        'ứ' => 'Ứ',
        'ừ' => 'Ừ',
        'ử' => 'Ử',
        'ữ' => 'Ữ',
        'ự' => 'Ự',
        'ý' => 'Ý',
        'ỳ' => 'Ỳ',
        'ỷ' => 'Ỷ',
        'ỹ' => 'Ỹ',
        'ỵ' => 'Ỵ',
        'đ' => 'Đ',
        _ => c,
    }
}

/// First char of the lowercase mapping of `c`.
pub open spec fn lower_of(c: char) -> char {
    if is_ascii_char(c) {
        ascii_lower(c)
    } else if is_viet_upper(c) {
        viet_lower_of(c)
    } else if is_viet_lower(c) {
        c
    } else {
        std_lower(c)[0]
    }
}

/// Full lowercase mapping of `c`.
pub open spec fn lower_seq(c: char) -> Seq<char> {
    if is_ascii_char(c) || is_viet_upper(c) || is_viet_lower(c) {
        seq![lower_of(c)]
    } else {
        std_lower(c)
    }
}

/// First char of the uppercase mapping of `c`.
pub open spec fn upper_of(c: char) -> char {
    if is_ascii_char(c) {
        ascii_upper(c)
    } else if is_viet_lower(c) {
        viet_upper_of(c)
    } else if is_viet_upper(c) {
        c
    } else {
        std_upper(c)[0]
    }
}

/// Full uppercase mapping of `c`.
pub open spec fn upper_seq(c: char) -> Seq<char> {
    if is_ascii_char(c) || is_viet_upper(c) || is_viet_lower(c) {
        seq![upper_of(c)]
    } else {
        std_upper(c)
    }
}

/// `char::is_uppercase`.
pub open spec fn is_upper(c: char) -> bool {
    if is_ascii_char(c) {
        is_ascii_upper(c)
    } else if is_viet_upper(c) {
        true
    } else if is_viet_lower(c) {
        false
    } else {
        std_is_uppercase(c)
    }
}

/// `char::is_alphabetic`.
pub open spec fn is_alpha(c: char) -> bool {
    if is_ascii_char(c) {
        is_ascii_upper(c) || is_ascii_lower(c)
    } else if is_viet_upper(c) || is_viet_lower(c) {
        true
    } else {
        std_is_alphabetic(c)
    }
}

/// `char::is_whitespace`.
pub open spec fn is_space(c: char) -> bool {
    unicode_white_space(c)
}

/// `char::is_numeric`.
pub open spec fn is_num(c: char) -> bool {
    if is_ascii_char(c) { is_ascii_digit(c) } else { std_is_numeric(c) }
}

/// `char::is_control`.
pub open spec fn is_ctrl(c: char) -> bool {
    unicode_control(c)
}

// ── Executable forms ──────────────────────────────────────────────────────────

fn viet_lower_table(c: char) -> (r: char)
    ensures r == viet_lower_of(c),
{
    match c {
        'Á' => 'á',
        'À' => 'à',
        'Ả' => 'ả',
        'Ã' => 'ã',
        'Ạ' => 'ạ',
        'Ă' => 'ă',
        'Ắ' => 'ắ',
        'Ằ' => 'ằ',
        'Ẳ' => 'ẳ',
        'Ẵ' => 'ẵ',
        'Ặ' => 'ặ',
        'Â' => 'â',
        'Ấ' => 'ấ',
        'Ầ' => 'ầ',
        'Ẩ' => 'ẩ',
        'Ẫ' => 'ẫ',
        'Ậ' => 'ậ',
        'É' => 'é',
        'È' => 'è',
        'Ẻ' => 'ẻ',
        'Ẽ' => 'ẽ',
        'Ẹ' => 'ẹ',
        'Ê' => 'ê',
        'Ế' => 'ế',
        'Ề' => 'ề',
        'Ể' => 'ể',
        'Ễ' => 'ễ',
        'Ệ' => 'ệ',
        'Í' => 'í',
        'Ì' => 'ì',
        'Ỉ' => 'ỉ',
        'Ĩ' => 'ĩ',
        'Ị' => 'ị',
        'Ó' => 'ó',
        'Ò' => 'ò',
        'Ỏ' => 'ỏ',
        'Õ' => 'õ',
        'Ọ' => 'ọ',
        'Ô' => 'ô',
        'Ố' => 'ố',
        'Ồ' => 'ồ',
        'Ổ' => 'ổ',
        'Ỗ' => 'ỗ',
        'Ộ' => 'ộ',
        'Ơ' => 'ơ',
        'Ớ' => 'ớ',
        'Ờ' => 'ờ',
        'Ở' => 'ở',
        'Ỡ' => 'ỡ',
        'Ợ' => 'ợ',
        'Ú' => 'ú',
        'Ù' => 'ù',
        'Ủ' => 'ủ',
        'Ũ' => 'ũ',
        'Ụ' => 'ụ',
        'Ư' => 'ư',
        'Ứ' => 'ứ',
        'Ừ' => 'ừ',
        'Ử' => 'ử',
        'Ữ' => 'ữ',
        'Ự' => 'ự',
        'Ý' => 'ý',
        'Ỳ' => 'ỳ',
        'Ỷ' => 'ỷ',
        'Ỹ' => 'ỹ',
        'Ỵ' => 'ỵ',
        'Đ' => 'đ',
        _ => c,
    }
}

fn viet_upper_table(c: char) -> (r: char)
    ensures r == viet_upper_of(c),
{
    match c {
        'á' => 'Á',
        'à' => 'À',
        'ả' => 'Ả',
        'ã' => 'Ã',
        'ạ' => 'Ạ',
        'ă' => 'Ă',
        'ắ' => 'Ắ',
        'ằ' => 'Ằ',
        'ẳ' => 'Ẳ',
        'ẵ' => 'Ẵ',
        'ặ' => 'Ặ',
        'â' => 'Â',
        'ấ' => 'Ấ',
        'ầ' => 'Ầ',
        'ẩ' => 'Ẩ',
        'ẫ' => 'Ẫ',
        'ậ' => 'Ậ',
        'é' => 'É',
        'è' => 'È',
        'ẻ' => 'Ẻ',
        'ẽ' => 'Ẽ',
        'ẹ' => 'Ẹ',
        'ê' => 'Ê',
        'ế' => 'Ế',
        'ề' => 'Ề',
        'ể' => 'Ể',
        'ễ' => 'Ễ',
        'ệ' => 'Ệ',
        'í' => 'Í',
        'ì' => 'Ì',
        'ỉ' => 'Ỉ',
        'ĩ' => 'Ĩ',
        'ị' => 'Ị',
        'ó' => 'Ó',
        'ò' => 'Ò',
        'ỏ' => 'Ỏ',
        'õ' => 'Õ',
        'ọ' => 'Ọ',
        'ô' => 'Ô',
        'ố' => 'Ố',
        'ồ' => 'Ồ',
        'ổ' => 'Ổ',
        'ỗ' => 'Ỗ',
        'ộ' => 'Ộ',
        'ơ' => 'Ơ',
        'ớ' => 'Ớ',
        'ờ' => 'Ờ',
        'ở' => 'Ở',
        'ỡ' => 'Ỡ',
        'ợ' => 'Ợ',
        'ú' => 'Ú',
        'ù' => 'Ù',
        'ủ' => 'Ủ',
        'ũ' => 'Ũ',
        'ụ' => 'Ụ',
        'ư' => 'Ư',
        'ứ' => 'Ứ',
        'ừ' => 'Ừ',
        'ử' => 'Ử',
        'ữ' => 'Ữ',
        'ự' => 'Ự',
        'ý' => 'Ý',
        'ỳ' => 'Ỳ',
        'ỷ' => 'Ỷ',
        'ỹ' => 'Ỹ',
        'ỵ' => 'Ỵ',
        'đ' => 'Đ',
        _ => c,
    }
}

pub fn viet_is_lower(c: char) -> (r: bool)
    ensures r == is_viet_lower(c),
{
    matches!(c,
        'á' | 'à' | 'ả' | 'ã' | 'ạ' | 'ă' | 'ắ' | 'ằ' | 'ẳ' | 'ẵ' |
        'ặ' | 'â' | 'ấ' | 'ầ' | 'ẩ' | 'ẫ' | 'ậ' | 'é' | 'è' | 'ẻ' |
        'ẽ' | 'ẹ' | 'ê' | 'ế' | 'ề' | 'ể' | 'ễ' | 'ệ' | 'í' | 'ì' |
        'ỉ' | 'ĩ' | 'ị' | 'ó' | 'ò' | 'ỏ' | 'õ' | 'ọ' | 'ô' | 'ố' |
        'ồ' | 'ổ' | 'ỗ' | 'ộ' | 'ơ' | 'ớ' | 'ờ' | 'ở' | 'ỡ' | 'ợ' |
        'ú' | 'ù' | 'ủ' | 'ũ' | 'ụ' | 'ư' | 'ứ' | 'ừ' | 'ử' | 'ữ' |
        'ự' | 'ý' | 'ỳ' | 'ỷ' | 'ỹ' | 'ỵ' | 'đ'
    )
}

pub fn viet_is_upper(c: char) -> (r: bool)
    ensures r == is_viet_upper(c),
{
    matches!(c,
        'Á' | 'À' | 'Ả' | 'Ã' | 'Ạ' | 'Ă' | 'Ắ' | 'Ằ' | 'Ẳ' | 'Ẵ' |
        'Ặ' | 'Â' | 'Ấ' | 'Ầ' | 'Ẩ' | 'Ẫ' | 'Ậ' | 'É' | 'È' | 'Ẻ' |
        'Ẽ' | 'Ẹ' | 'Ê' | 'Ế' | 'Ề' | 'Ể' | 'Ễ' | 'Ệ' | 'Í' | 'Ì' |
        'Ỉ' | 'Ĩ' | 'Ị' | 'Ó' | 'Ò' | 'Ỏ' | 'Õ' | 'Ọ' | 'Ô' | 'Ố' |
        'Ồ' | 'Ổ' | 'Ỗ' | 'Ộ' | 'Ơ' | 'Ớ' | 'Ờ' | 'Ở' | 'Ỡ' | 'Ợ' |
        'Ú' | 'Ù' | 'Ủ' | 'Ũ' | 'Ụ' | 'Ư' | 'Ứ' | 'Ừ' | 'Ử' | 'Ữ' |
        'Ự' | 'Ý' | 'Ỳ' | 'Ỷ' | 'Ỹ' | 'Ỵ' | 'Đ'
    )
}

/// `char::to_ascii_lowercase`.
pub fn to_ascii_lower(c: char) -> (r: char)
    ensures r == ascii_lower(c),
{
    if 'A' <= c && c <= 'Z' {
        let b: u8 = c as u8;
        (b + 32) as char
    } else {
        c
    }
}

/// `char::to_ascii_uppercase`.
pub fn to_ascii_upper(c: char) -> (r: char)
    ensures r == ascii_upper(c),
{
    if 'a' <= c && c <= 'z' {
        let b: u8 = c as u8;
        (b - 32) as char
    } else {
        c
    }
}

/// First char of `c.to_lowercase()`.
pub fn char_lower(c: char) -> (r: char)
    ensures r == lower_of(c),
{
    if (c as u32) < 128 {
        to_ascii_lower(c)
    } else if viet_is_upper(c) {
        viet_lower_table(c)
    } else if viet_is_lower(c) {
        c
    } else {
        let v = std_to_lowercase(c);
        v[0]
    }
}

/// All chars of `c.to_lowercase()`.
pub fn char_lower_seq(c: char) -> (r: Vec<char>)
    ensures r@ == lower_seq(c),
{
    if (c as u32) < 128 || viet_is_upper(c) || viet_is_lower(c) {
        let mut v: Vec<char> = Vec::new();
        v.push(char_lower(c));
        v
    } else {
        std_to_lowercase(c)
    }
}

/// First char of `c.to_uppercase()`.
pub fn char_upper(c: char) -> (r: char)
    ensures r == upper_of(c),
{
    if (c as u32) < 128 {
        to_ascii_upper(c)
    } else if viet_is_lower(c) {
        viet_upper_table(c)
    } else if viet_is_upper(c) {
        c
    } else {
        let v = std_to_uppercase(c);
        v[0]
    }
}

/// All chars of `c.to_uppercase()`.
pub fn char_upper_seq(c: char) -> (r: Vec<char>)
    ensures r@ == upper_seq(c),
{
    if (c as u32) < 128 || viet_is_upper(c) || viet_is_lower(c) {
        let mut v: Vec<char> = Vec::new();
        v.push(char_upper(c));
        v
    } else {
        std_to_uppercase(c)
    }
}

/// `char::is_uppercase`.
pub fn char_is_upper(c: char) -> (r: bool)
    ensures r == is_upper(c),
{
    if (c as u32) < 128 {
        'A' <= c && c <= 'Z'
    } else if viet_is_upper(c) {
        true
    } else if viet_is_lower(c) {
        false
    } else {
        std_char_is_uppercase(c)
    }
}

/// `char::is_alphabetic`.
pub fn char_is_alpha(c: char) -> (r: bool)
    ensures r == is_alpha(c),
{
    if (c as u32) < 128 {
        ('A' <= c && c <= 'Z') || ('a' <= c && c <= 'z')
    } else if viet_is_upper(c) || viet_is_lower(c) {
        true
    } else {
        std_char_is_alphabetic(c)
    }
}

/// `char::is_whitespace`.
pub fn char_is_space(c: char) -> (r: bool)
    ensures r == is_space(c),
{
    std_char_is_whitespace(c)
}

/// `char::is_numeric`.
pub fn char_is_num(c: char) -> (r: bool)
    ensures r == is_num(c),
{
    if (c as u32) < 128 { '0' <= c && c <= '9' } else { std_char_is_numeric(c) }
}

/// `char::is_control`.
pub fn char_is_ctrl(c: char) -> (r: bool)
    ensures r == is_ctrl(c),
{
    std_char_is_control(c)
}

// ── Strings as char sequences ────────────────────────────────────────────────

/// `s.chars().collect::<Vec<char>>()`.
#[verifier::external_body]
pub fn str_chars(s: &str) -> (r: Vec<char>)
    ensures r@ == s@,
{
    s.chars().collect()
}

/// `chars.iter().collect::<String>()`.
#[verifier::external_body]
pub fn chars_to_string(chars: &[char]) -> (r: String)
    ensures r@ == chars@,
{
    chars.iter().collect()
}

/// Element-wise equality of two char slices.
pub fn chars_eq(a: &[char], b: &[char]) -> (r: bool)
    ensures r == (a@ == b@),
{
    if a.len() != b.len() {
        return false;
    }
    let mut i: usize = 0;
    while i < a.len()
        invariant
            a.len() == b.len(),
            0 <= i <= a.len(),
            forall|j: int| 0 <= j < i ==> a@[j] == b@[j],
        decreases a.len() - i,
    {
        if a[i] != b[i] {
            return false;
        }
        i += 1;
    }
    assert(a@ =~= b@);
    true
}

/// Copy of a char slice into a new vector.
pub fn chars_to_vec(a: &[char]) -> (r: Vec<char>)
    ensures r@ == a@,
{
    let mut v: Vec<char> = Vec::new();
    let mut i: usize = 0;
    while i < a.len()
        invariant
            0 <= i <= a.len(),
            v@ == a@.subrange(0, i as int),
        decreases a.len() - i,
    {
        v.push(a[i]);
        i += 1;
        assert(v@ =~= a@.subrange(0, i as int));
    }
    assert(a@.subrange(0, a.len() as int) =~= a@);
    v
}

/// `a[lo..hi].to_vec()`.
pub fn sub_vec(a: &[char], lo: usize, hi: usize) -> (r: Vec<char>)
    requires lo <= hi <= a.len(),
    ensures r@ == a@.subrange(lo as int, hi as int),
{
    let mut v: Vec<char> = Vec::new();
    let mut i: usize = lo;
    while i < hi
        invariant
            lo <= i <= hi,
            hi <= a.len(),
            v@ == a@.subrange(lo as int, i as int),
        decreases hi - i,
    {
        v.push(a[i]);
        i += 1;
        assert(v@ =~= a@.subrange(lo as int, i as int));
    }
    v
}

/// What `str::to_lowercase` returns for a string whose chars are `s`.
pub uninterp spec fn std_str_lower(s: Seq<char>) -> Seq<char>;

/// Calls `str::to_lowercase` on the string made of `chars`. The contract
/// claims only that the result is the (named) lowercase form of the input.
#[verifier::external_body]
pub fn chars_to_lowercase(chars: &[char]) -> (r: Vec<char>)
    ensures r@ == std_str_lower(chars@),
{
    let s: String = chars.iter().collect();
    s.to_lowercase().chars().collect()
}

/// What `str::to_uppercase` returns for a string whose chars are `s`.
pub uninterp spec fn std_str_upper(s: Seq<char>) -> Seq<char>;

/// Calls `str::to_uppercase` on the string made of `chars`. The contract
/// claims only that the result is the (named) uppercase form of the input.
#[verifier::external_body]
pub fn chars_to_uppercase(chars: &[char]) -> (r: Vec<char>)
    ensures r@ == std_str_upper(chars@),
{
    let s: String = chars.iter().collect();
    s.to_uppercase().chars().collect()
}

// ── Building text ────────────────────────────────────────────────────────────

/// Append the chars of `s` to `out`.
pub fn push_text(out: &mut Vec<char>, s: &str)
    ensures
        final(out)@ == old(out)@ + s@,
{
    let c = str_chars(s);
    let mut i: usize = 0;
    while i < c.len()
        invariant
            i <= c@.len(),
            c@ == s@,
            out@ == old(out)@ + c@.subrange(0, i as int),
        decreases c@.len() - i,
    {
        out.push(c[i]);
        i += 1;
        assert(out@ =~= old(out)@ + c@.subrange(0, i as int));
    }
    assert(c@.subrange(0, c@.len() as int) =~= c@);
}

/// Decimal digits of `n`.
pub open spec fn decimal(n: nat) -> Seq<char>
    decreases n,
{
    if n < 10 {
        seq![digit_char(n)]
    } else {
        decimal(n / 10) + seq![digit_char(n % 10)]
    }
}

/// The digit character for `d` (0 to 9).
pub open spec fn digit_char(d: nat) -> char {
    if d == 0 { '0' } else if d == 1 { '1' } else if d == 2 { '2' } else if d == 3 { '3' }
    else if d == 4 { '4' } else if d == 5 { '5' } else if d == 6 { '6' } else if d == 7 { '7' }
    else if d == 8 { '8' } else { '9' }
}

fn digit(d: usize) -> (r: char)
    requires
        d < 10,
    ensures
        r == digit_char(d as nat),
{
    if d == 0 { '0' } else if d == 1 { '1' } else if d == 2 { '2' } else if d == 3 { '3' }
    else if d == 4 { '4' } else if d == 5 { '5' } else if d == 6 { '6' } else if d == 7 { '7' }
    else if d == 8 { '8' } else { '9' }
}

/// Append the decimal digits of `n` to `out`.
pub fn push_number(out: &mut Vec<char>, n: usize)
    ensures
        final(out)@ == old(out)@ + decimal(n as nat),
    decreases n,
{
    if n < 10 {
        out.push(digit(n));
    } else {
        push_number(out, n / 10);
        out.push(digit(n % 10));
        assert(out@ =~= old(out)@ + decimal(n as nat));
    }
}

} // verus!
