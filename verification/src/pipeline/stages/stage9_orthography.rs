//! Orthography stage: brings the syllable into the configured Unicode form.

use vstd::prelude::*;
use crate::text::{upper_seq, char_upper_seq, str_chars, chars_to_string};
use crate::pipeline::config::{PipelineConfig, ToneStyle, UnicodeForm};
use crate::pipeline::context::TypingContext;
use crate::pipeline::stage::{PipelineStage, StageResult};
use crate::unicode::normalization::{unicode_nfc, unicode_nfd, normalize_nfc, normalize_nfd, is_nfc_quick_yes, is_nfd_quick_yes};

verus! {

/// Stage 9: orthography.
#[derive(Debug, Clone)]
pub struct OrthographyStage {
    /// Tone style (old vs new)
    pub tone_style: ToneStyle,
    /// Unicode normalization form
    pub unicode_form: UnicodeForm,
}

/// `text` in the normalization form `form`.
pub open spec fn in_form(form: UnicodeForm, text: Seq<char>) -> Seq<char> {
    match form {
        UnicodeForm::NFC => unicode_nfc(text),
        UnicodeForm::NFD => unicode_nfd(text),
    }
}

/// Which case-mask entry output char `i` of `n` takes: when the mask is
/// longer (chars were merged), the first output char takes the first entry
/// and the others align with the end of the mask.
pub open spec fn mask_index(n: int, mask_len: int, i: int) -> int {
    if mask_len > n && n > 0 {
        if i == 0 { 0 } else { mask_len - (n - i) }
    } else {
        i
    }
}

/// Output of `restore_case` for the chars of `text` from index `i` on.
pub open spec fn restore_from(text: Seq<char>, mask: Seq<bool>, i: int) -> Seq<char>
    decreases text.len() - i,
{
    if i < 0 || i >= text.len() {
        Seq::empty()
    } else {
        let k = mask_index(text.len() as int, mask.len() as int, i);
        let up = 0 <= k < mask.len() && mask[k];
        (if up { upper_seq(text[i]) } else { seq![text[i]] }) + restore_from(text, mask, i + 1)
    }
}

impl OrthographyStage {
    /// From the configuration's (legacy) tone style and Unicode form fields.
    pub fn from_config(config: &PipelineConfig) -> (r: Self)
        ensures
            r.tone_style == config.tone_style,
            r.unicode_form == config.unicode_form,
    {
        Self { tone_style: config.tone_style, unicode_form: config.unicode_form }
    }

    /// With the given settings.
    pub fn new(tone_style: ToneStyle, unicode_form: UnicodeForm) -> (r: Self)
        ensures
            r.tone_style == tone_style,
            r.unicode_form == unicode_form,
    {
        Self { tone_style, unicode_form }
    }

    /// `text` in the configured normalization form.
    pub fn normalize_unicode(&self, text: &str) -> (r: String)
        ensures
            r@ == in_form(self.unicode_form, text@),
    {
        match self.unicode_form {
            UnicodeForm::NFC => normalize_nfc(text),
            UnicodeForm::NFD => normalize_nfd(text),
        }
    }

    /// Tone placement is already right for either style: `text` unchanged.
    pub fn normalize_tone_position(&self, text: &str) -> (r: String)
        ensures
            r@ == text@,
    {
        match self.tone_style {
            ToneStyle::New => String::from_str(text),
            ToneStyle::Old => String::from_str(text),
        }
    }

    /// Uppercase the chars of `text` whose case-mask entry is set (see
    /// [`mask_index`]); an empty mask leaves `text` as it is.
    pub fn restore_case(&self, text: &str, case_mask: &[bool]) -> (r: String)
        ensures
            r@ == (if case_mask@.len() == 0 { text@ } else { restore_from(text@, case_mask@, 0) }),
    {
        if case_mask.len() == 0 {
            return String::from_str(text);
        }
        let chars = str_chars(text);
        let n = chars.len();
        let mask_len = case_mask.len();
        let mut out: Vec<char> = Vec::new();
        let mut i: usize = 0;
        while i < n
            invariant
                i <= n,
                n == chars@.len(),
                chars@ == text@,
                mask_len == case_mask@.len(),
                out@ + restore_from(text@, case_mask@, i as int) == restore_from(text@, case_mask@, 0),
            decreases n - i,
        {
            let ch = chars[i];
            let mask_idx: usize = if mask_len > n && n > 0 {
                if i == 0 { 0 } else { mask_len - (n - i) }
            } else {
                i
            };
            let is_upper = mask_idx < mask_len && case_mask[mask_idx];
            let ghost before = out@;
            let piece: Vec<char> = if is_upper {
                char_upper_seq(ch)
            } else {
                let mut v: Vec<char> = Vec::new();
                v.push(ch);
                v
            };
            let mut k: usize = 0;
            while k < piece.len()
                invariant
                    k <= piece@.len(),
                    out@ == before + piece@.subrange(0, k as int),
                decreases piece@.len() - k,
            {
                out.push(piece[k]);
                k += 1;
                assert(out@ =~= before + piece@.subrange(0, k as int));
            }
            assert(piece@.subrange(0, piece@.len() as int) =~= piece@);
            assert(!is_upper ==> piece@ =~= seq![ch]);
            assert(before + piece@ + restore_from(text@, case_mask@, i + 1)
                =~= before + (piece@ + restore_from(text@, case_mask@, i + 1)));
            i += 1;
        }
        assert(restore_from(text@, case_mask@, n as int) =~= Seq::<char>::empty());
        assert(out@ + Seq::<char>::empty() =~= out@);
        chars_to_string(out.as_slice())
    }
}

impl OrthographyStage {
    /// One key: the syllable buffer put in the configured form; continue.
    pub open spec fn steps(&self, before: TypingContext, input: char, r: StageResult, after: TypingContext) -> bool {
        &&& r == StageResult::Continue
        &&& after.syllable_buffer@ == in_form(self.unicode_form, before.syllable_buffer@)
        &&& after == (TypingContext { syllable_buffer: after.syllable_buffer, ..before })
    }
}

impl PipelineStage for OrthographyStage {
    /// The syllable buffer becomes its configured normal form (left as it
    /// is when the quick check already says it is in that form).
    fn process(&self, ctx: &mut TypingContext, input: char) -> (r: StageResult)
        ensures
            self.steps(*old(ctx), input, r, *final(ctx)),
    {
        let already_normalized = match self.unicode_form {
            UnicodeForm::NFC => is_nfc_quick_yes(ctx.syllable_buffer.as_str()),
            UnicodeForm::NFD => is_nfd_quick_yes(ctx.syllable_buffer.as_str()),
        };
        if !already_normalized {
            let normalized_tone = self.normalize_tone_position(ctx.syllable_buffer.as_str());
            let normalized_unicode = self.normalize_unicode(normalized_tone.as_str());
            ctx.syllable_buffer = normalized_unicode;
        }
        StageResult::Continue
    }

    fn name(&self) -> (r: &'static str)
        ensures
            r@ == "OrthographyStage"@,
    {
        "OrthographyStage"
    }

    /// Nothing to reset: the stage keeps no state between keys.
    fn reset(&mut self)
        ensures
            *final(self) == *old(self),
    {
    }
}

} // verus!
