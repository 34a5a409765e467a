//! Gatekeeper stage: decides whether a key enters Vietnamese processing or
//! passes through (English passthrough mode, separators, numbers).

use vstd::prelude::*;
use crate::text::{is_alpha, is_num, is_space, lower_of, char_is_alpha, char_is_num, char_is_space, char_lower, str_chars};
use crate::pipeline::config::PipelineConfig;
use crate::pipeline::context::TypingContext;
use crate::pipeline::stage::{PipelineStage, StageResult};

verus! {

/// Stage 2: gatekeeper.
#[derive(Debug, Clone)]
pub struct GatekeeperStage {
    method_name: String,
    native_script_mode: bool,
}

/// Whitespace or one of `. , ; : ! ? - _`.
pub open spec fn is_separator_char(ch: char) -> bool {
    is_space(ch) || ch == '.' || ch == ',' || ch == ';' || ch == ':' || ch == '!' || ch == '?' || ch == '-' || ch == '_'
}

/// A Vietnamese vowel (any case, any tone).
pub open spec fn is_gate_vowel(ch: char) -> bool {
    matches!(lower_of(ch),
        'a' | 'e' | 'i' | 'o' | 'u' | 'y' |
        'ă' | 'â' | 'ê' | 'ô' | 'ơ' | 'ư' |
        'á' | 'à' | 'ả' | 'ã' | 'ạ' |
        'ắ' | 'ằ' | 'ẳ' | 'ẵ' | 'ặ' |
        'ấ' | 'ầ' | 'ẩ' | 'ẫ' | 'ậ' |
        'é' | 'è' | 'ẻ' | 'ẽ' | 'ẹ' |
        'ế' | 'ề' | 'ể' | 'ễ' | 'ệ' |
        'í' | 'ì' | 'ỉ' | 'ĩ' | 'ị' |
        'ó' | 'ò' | 'ỏ' | 'õ' | 'ọ' |
        'ố' | 'ồ' | 'ổ' | 'ỗ' | 'ộ' |
        'ớ' | 'ờ' | 'ở' | 'ỡ' | 'ợ' |
        'ú' | 'ù' | 'ủ' | 'ũ' | 'ụ' |
        'ứ' | 'ừ' | 'ử' | 'ữ' | 'ự' |
        'ý' | 'ỳ' | 'ỷ' | 'ỹ' | 'ỵ'
    )
}

/// Scanning left from index `i`, the first non-digit is a letter.
pub open spec fn digits_attached_to_word(s: Seq<char>, i: int) -> bool
    decreases i + 1,
{
    if i < 0 || i >= s.len() {
        false
    } else if !is_num(s[i]) {
        is_alpha(s[i])
    } else {
        digits_attached_to_word(s, i - 1)
    }
}

impl GatekeeperStage {
    /// The method name.
    pub closed spec fn method(&self) -> Seq<char> {
        self.method_name@
    }

    /// Whether native-script mode is on.
    pub closed spec fn native(&self) -> bool {
        self.native_script_mode
    }

    /// A gatekeeper with no method name.
    pub fn new() -> (r: Self)
        ensures
            r.method().len() == 0,
            !r.native(),
    {
        Self { method_name: String::new(), native_script_mode: false }
    }

    /// A gatekeeper for the named method.
    pub fn with_method(method_name: String) -> (r: Self)
        ensures
            r.method() == method_name@,
            !r.native(),
    {
        Self { method_name, native_script_mode: false }
    }

    /// From a configuration's name and native-script mode.
    pub fn from_config(config: &PipelineConfig) -> (r: Self)
        ensures
            r.method() == config.name@,
            r.native() == config.native_script_mode,
    {
        Self { method_name: config.name.clone(), native_script_mode: config.native_script_mode }
    }

    /// Whitespace and word-ending punctuation.
    pub fn is_separator(&self, ch: char) -> (r: bool)
        ensures
            r == is_separator_char(ch),
    {
        char_is_space(ch) || ch == '.' || ch == ',' || ch == ';' || ch == ':' || ch == '!' || ch == '?' || ch == '-'
            || ch == '_'
    }

    /// A Vietnamese vowel, judged on the char's lowercase form.
    pub fn is_vowel(&self, ch: char) -> (r: bool)
        ensures
            r == is_gate_vowel(ch),
    {
        let lower = char_lower(ch);
        matches!(lower,
            'a' | 'e' | 'i' | 'o' | 'u' | 'y' |
            'ă' | 'â' | 'ê' | 'ô' | 'ơ' | 'ư' |
            'á' | 'à' | 'ả' | 'ã' | 'ạ' |
            'ắ' | 'ằ' | 'ẳ' | 'ẵ' | 'ặ' |
            'ấ' | 'ầ' | 'ẩ' | 'ẫ' | 'ậ' |
            'é' | 'è' | 'ẻ' | 'ẽ' | 'ẹ' |
            'ế' | 'ề' | 'ể' | 'ễ' | 'ệ' |
            'í' | 'ì' | 'ỉ' | 'ĩ' | 'ị' |
            'ó' | 'ò' | 'ỏ' | 'õ' | 'ọ' |
            'ố' | 'ồ' | 'ổ' | 'ỗ' | 'ộ' |
            'ớ' | 'ờ' | 'ở' | 'ỡ' | 'ợ' |
            'ú' | 'ù' | 'ủ' | 'ũ' | 'ụ' |
            'ứ' | 'ừ' | 'ử' | 'ữ' | 'ự' |
            'ý' | 'ỳ' | 'ỷ' | 'ỹ' | 'ỵ'
        )
    }

    /// The decision for `input` and the English-mode flag afterwards.
    pub open spec fn gate(&self, ctx: TypingContext, input: char) -> (StageResult, bool) {
        let syl = ctx.syllable_buffer@;
        let vni = self.method() == seq!['v', 'n', 'i'];
        if ctx.temp_english_mode && !(self.native() && is_alpha(input)) {
            if is_separator_char(input) || (!is_alpha(input) && !is_num(input)) {
                (StageResult::PassThrough, false)
            } else {
                (StageResult::Continue, true)
            }
        } else if vni && is_num(input) && (syl.len() == 0 || is_space(syl.last())) {
            (StageResult::PassThrough, ctx.temp_english_mode)
        } else if vni && is_num(input) && is_num(syl.last()) && !digits_attached_to_word(syl, syl.len() - 2) {
            (StageResult::PassThrough, ctx.temp_english_mode)
        } else if !is_alpha(input) {
            if ctx.char_buffer@.len() > 0 && is_num(input) {
                (StageResult::Continue, ctx.temp_english_mode)
            } else if input == ' ' && ctx.showing_candidates {
                (StageResult::Continue, ctx.temp_english_mode)
            } else {
                (StageResult::PassThrough, ctx.temp_english_mode)
            }
        } else {
            (StageResult::Continue, ctx.temp_english_mode)
        }
    }
}

/// Scanning left from index `i - 1`, the first non-digit is a letter.
fn digits_attached(s: &[char], i: usize) -> (r: bool)
    requires
        i <= s@.len(),
    ensures
        r == digits_attached_to_word(s@, i - 1),
{
    let mut k: usize = i;
    while k > 0
        invariant
            k <= i,
            i <= s@.len(),
            digits_attached_to_word(s@, i - 1) == digits_attached_to_word(s@, k - 1),
        decreases k,
    {
        let c = s[k - 1];
        if !char_is_num(c) {
            return char_is_alpha(c);
        }
        k -= 1;
    }
    false
}

impl Default for GatekeeperStage {
    fn default() -> (r: Self)
        ensures
            r.method().len() == 0,
            !r.native(),
    {
        Self::new()
    }
}

impl GatekeeperStage {
    /// One key: the result and English mode that `gate` gives; nothing else changes.
    pub open spec fn steps(&self, before: TypingContext, input: char, r: StageResult, after: TypingContext) -> bool {
        &&& r == self.gate(before, input).0
        &&& after == (TypingContext { temp_english_mode: self.gate(before, input).1, ..before })
    }
}

impl PipelineStage for GatekeeperStage {
    /// In English mode (unless native script and a letter): separators and
    /// symbols end the mode and pass through, other keys continue. For VNI,
    /// a digit starting a number passes through. Otherwise letters continue,
    /// digits continue when keys were typed, a space continues while
    /// candidates show, and anything else passes through.
    fn process(&self, ctx: &mut TypingContext, input: char) -> (r: StageResult)
        ensures
            self.steps(*old(ctx), input, r, *final(ctx)),
    {
        if ctx.temp_english_mode {
            if self.native_script_mode && char_is_alpha(input) {
            } else {
                if self.is_separator(input) || (!char_is_alpha(input) && !char_is_num(input)) {
                    ctx.temp_english_mode = false;
                    return StageResult::PassThrough;
                }
                return StageResult::Continue;
            }
        }
        let name = str_chars(self.method_name.as_str());
        let vni = name.len() == 3 && name[0] == 'v' && name[1] == 'n' && name[2] == 'i';
        assert(vni == (self.method() == seq!['v', 'n', 'i'])) by {
            if name@.len() == 3 && name@[0] == 'v' && name@[1] == 'n' && name@[2] == 'i' {
                assert(name@ =~= seq!['v', 'n', 'i']);
            }
        }
        if vni && char_is_num(input) {
            let chars = str_chars(ctx.syllable_buffer.as_str());
            let n = chars.len();
            if n == 0 || char_is_space(chars[n - 1]) {
                return StageResult::PassThrough;
            }
            if char_is_num(chars[n - 1]) {
                let attached = digits_attached(chars.as_slice(), n - 1);
                if !attached {
                    return StageResult::PassThrough;
                }
            }
        }
        if !char_is_alpha(input) {
            if ctx.char_buffer.len() > 0 && char_is_num(input) {
                return StageResult::Continue;
            }
            if input == ' ' && ctx.showing_candidates {
                return StageResult::Continue;
            }
            return StageResult::PassThrough;
        }
        StageResult::Continue
    }

    fn name(&self) -> (r: &'static str)
        ensures
            r@ == "GatekeeperStage"@,
    {
        "GatekeeperStage"
    }

    /// Nothing to reset: the stage keeps no state between keys.
    fn reset(&mut self)
        ensures
            *final(self) == *old(self),
    {
    }
}

} // verus!
