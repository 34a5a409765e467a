//! Unicode normalization (NFC / NFD) and filename sanitizing.
//!
//! Windows and Linux use NFC, macOS file names use NFD; text is compared and
//! stored in NFC.

use vstd::prelude::*;
use unicode_normalization::UnicodeNormalization;
use unicode_normalization::{is_nfc_quick, is_nfd_quick, IsNormalized};
use crate::text::{is_ctrl, char_is_ctrl, str_chars, chars_to_string};

verus! {

/// The NFC form of a string (by the `unicode-normalization` crate).
pub uninterp spec fn unicode_nfc(s: Seq<char>) -> Seq<char>;

/// The NFD form of a string (by the `unicode-normalization` crate).
pub uninterp spec fn unicode_nfd(s: Seq<char>) -> Seq<char>;

/// The quick NFC check of `unicode-normalization` answers `Yes` for `s`.
pub uninterp spec fn nfc_quick_yes(s: Seq<char>) -> bool;

/// The quick NFD check of `unicode-normalization` answers `Yes` for `s`.
pub uninterp spec fn nfd_quick_yes(s: Seq<char>) -> bool;

/// Normalize a string to NFC (`UnicodeNormalization::nfc`). The contract
/// names the result; it claims nothing about what NFC is.
#[verifier::external_body]
pub fn normalize_nfc(s: &str) -> (r: String)
    ensures
        r@ == unicode_nfc(s@),
{
    s.nfc().collect()
}

/// Normalize a string to NFD (`UnicodeNormalization::nfd`). The contract
/// names the result; it claims nothing about what NFD is.
#[verifier::external_body]
pub fn normalize_nfd(s: &str) -> (r: String)
    ensures
        r@ == unicode_nfd(s@),
{
    s.nfd().collect()
}

/// `is_nfc_quick` answered `Yes`. The crate documents `Yes` as "the text is
/// definitely normalized", so the NFC form is the text itself.
#[verifier::external_body]
pub(crate) fn is_nfc_quick_yes(s: &str) -> (r: bool)
    ensures
        r == nfc_quick_yes(s@),
        r ==> unicode_nfc(s@) == s@,
{
    matches!(is_nfc_quick(s.chars()), IsNormalized::Yes)
}

/// `is_nfd_quick` answered `Yes`. The crate documents `Yes` as "the text is
/// definitely normalized", so the NFD form is the text itself.
#[verifier::external_body]
pub(crate) fn is_nfd_quick_yes(s: &str) -> (r: bool)
    ensures
        r == nfd_quick_yes(s@),
        r ==> unicode_nfd(s@) == s@,
{
    matches!(is_nfd_quick(s.chars()), IsNormalized::Yes)
}

/// Compare two strings by their NFC forms ("é" precomposed equals "é"
/// decomposed).
pub fn str_eq_normalized(a: &str, b: &str) -> (r: bool)
    ensures
        r == (unicode_nfc(a@) == unicode_nfc(b@)),
{
    let na = str_chars(normalize_nfc(a).as_str());
    let nb = str_chars(normalize_nfc(b).as_str());
    crate::text::chars_eq(na.as_slice(), nb.as_slice())
}

/// A char that is forbidden in file names (on Windows) or a control char
/// becomes `_`.
pub open spec fn sanitize_char(c: char) -> char {
    if c == '\\' || c == '/' || c == ':' || c == '*' || c == '?' || c == '"' || c == '<' || c == '>' || c == '|' || is_ctrl(c) {
        '_'
    } else {
        c
    }
}

/// Sanitize a file name: NFC form, with forbidden and control chars
/// replaced by `_`.
pub fn sanitize_filename(name: &str) -> (r: String)
    ensures
        r@ == unicode_nfc(name@).map_values(|c: char| sanitize_char(c)),
{
    let n = str_chars(normalize_nfc(name).as_str());
    let mut out: Vec<char> = Vec::new();
    let mut i: usize = 0;
    while i < n.len()
        invariant
            i <= n@.len(),
            n@ == unicode_nfc(name@),
            out@ == n@.subrange(0, i as int).map_values(|c: char| sanitize_char(c)),
        decreases n@.len() - i,
    {
        let c = n[i];
        let s = if c == '\\' || c == '/' || c == ':' || c == '*' || c == '?' || c == '"' || c == '<' || c == '>'
            || c == '|' || char_is_ctrl(c) {
            '_'
        } else {
            c
        };
        out.push(s);
        i += 1;
        assert(out@ =~= n@.subrange(0, i as int).map_values(|c: char| sanitize_char(c)));
    }
    assert(n@.subrange(0, n@.len() as int) =~= n@);
    chars_to_string(out.as_slice())
}

/// Comparing by normal form is reflexive and symmetric.
pub proof fn law_eq_normalized_reflexive_symmetric(a: Seq<char>, b: Seq<char>)
    ensures
        unicode_nfc(a) == unicode_nfc(a),
        (unicode_nfc(a) == unicode_nfc(b)) == (unicode_nfc(b) == unicode_nfc(a)),
{
}

/// A sanitized char is never forbidden in a file name nor a control char.
pub proof fn law_sanitize_clean(c: char)
    ensures
        ({
            let s = sanitize_char(c);
            s != '\\' && s != '/' && s != ':' && s != '*' && s != '?' && s != '"' && s != '<' && s != '>' && s != '|'
                && !is_ctrl(s)
        }),
{
}

} // verus!
