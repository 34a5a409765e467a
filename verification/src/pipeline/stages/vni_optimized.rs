//! VNI transform stage: a digit after a vowel (or `d`) transforms it
//! directly in the syllable buffer (`a6` → `â`, `d9` → `đ`, …).

use vstd::prelude::*;
use crate::text::{ascii_lower, to_ascii_lower, is_upper, upper_seq, char_is_upper, char_upper_seq, str_chars, chars_to_string};
use crate::pipeline::context::{TypingContext, TransformRecord, TransformType};
use crate::pipeline::stage::{PipelineStage, StageResult};

verus! {

/// The VNI transforms: (base, key, result).
pub open spec fn vni_transforms() -> Seq<(char, char, char)> {
    seq![('a', '6', 'â'), ('a', '8', 'ă'), ('d', '9', 'đ'), ('e', '6', 'ê'), ('o', '6', 'ô'), ('o', '7', 'ơ'), ('u', '7', 'ư')]
}

/// Result of the first VNI transform from `i` on for `base key`.
pub open spec fn first_vni(t: Seq<(char, char, char)>, base: char, key: char, i: int) -> Option<char>
    decreases t.len() - i,
{
    if i < 0 || i >= t.len() {
        None
    } else if t[i].0 == base && t[i].1 == key {
        Some(t[i].2)
    } else {
        first_vni(t, base, key, i + 1)
    }
}

/// The transform for `last_char` followed by `input_char` (ASCII case
/// ignored), with whether `last_char` was uppercase.
pub open spec fn vni_find(last_char: char, input_char: char) -> Option<(char, bool)> {
    match first_vni(vni_transforms(), ascii_lower(last_char), ascii_lower(input_char), 0) {
        Some(r) => Some((r, is_upper(last_char))),
        None => None,
    }
}

/// The VNI transform stage.
#[derive(Debug, Clone)]
pub struct VniOptimizedTransformStage {
}

impl VniOptimizedTransformStage {
    /// Create the stage.
    pub fn new() -> (r: Self) {
        Self {}
    }

    /// The transform for `last_char` followed by `input_char`.
    pub fn find_transform(&self, last_char: char, input_char: char) -> (r: Option<(char, bool)>)
        ensures
            r == vni_find(last_char, input_char),
    {
        let last_lower = to_ascii_lower(last_char);
        let input_lower = to_ascii_lower(input_char);
        let table = [('a', '6', 'â'), ('a', '8', 'ă'), ('d', '9', 'đ'), ('e', '6', 'ê'), ('o', '6', 'ô'), ('o', '7', 'ơ'), ('u', '7', 'ư')];
        assert(table@ =~= vni_transforms());
        let mut i: usize = 0;
        while i < 7
            invariant
                i <= 7,
                table@ == vni_transforms(),
                last_lower == ascii_lower(last_char),
                input_lower == ascii_lower(input_char),
                first_vni(vni_transforms(), last_lower, input_lower, 0) == first_vni(vni_transforms(), last_lower, input_lower, i as int),
            decreases 7 - i,
        {
            let (base, key, result) = table[i];
            if base == last_lower && key == input_lower {
                return Some((result, char_is_upper(last_char)));
            }
            i += 1;
        }
        None
    }

    /// Replace the last char of the syllable by `result` (uppercased when
    /// asked) and record the transform.
    fn apply_transform(&self, ctx: &mut TypingContext, result: char, preserve_uppercase: bool)
        ensures
            ({
                let before = old(ctx).syllable_buffer@;
                let after = (if before.len() > 0 { before.drop_last() } else { before })
                    + (if preserve_uppercase { upper_seq(result) } else { seq![result] });
                &&& final(ctx).syllable_buffer@ == after
                &&& final(ctx).transform_history@.len() == old(ctx).transform_history@.len() + 1
                &&& final(ctx).transform_history@.drop_last() == old(ctx).transform_history@
                &&& final(ctx).transform_history@.last().input_char == result
                &&& final(ctx).transform_history@.last().before@ == before
                &&& final(ctx).transform_history@.last().after@ == after
                &&& final(ctx).transform_history@.last().transform_type == TransformType::CharTransform
            }),
            *final(ctx) == (TypingContext {
                syllable_buffer: final(ctx).syllable_buffer,
                transform_history: final(ctx).transform_history,
                ..*old(ctx)
            }),
    {
        let before = ctx.syllable_buffer.clone();
        let mut chars = str_chars(ctx.syllable_buffer.as_str());
        let ghost b = chars@;
        if chars.len() > 0 {
            chars.pop();
        }
        let ghost kept = chars@;
        let piece: Vec<char> = if preserve_uppercase {
            char_upper_seq(result)
        } else {
            let mut v: Vec<char> = Vec::new();
            v.push(result);
            v
        };
        let mut k: usize = 0;
        while k < piece.len()
            invariant
                k <= piece@.len(),
                chars@ == kept + piece@.subrange(0, k as int),
            decreases piece@.len() - k,
        {
            chars.push(piece[k]);
            k += 1;
            assert(chars@ =~= kept + piece@.subrange(0, k as int));
        }
        assert(piece@.subrange(0, piece@.len() as int) =~= piece@);
        assert(!preserve_uppercase ==> piece@ =~= seq![result]);
        ctx.syllable_buffer = chars_to_string(chars.as_slice());
        let record = TransformRecord {
            input_char: result,
            before,
            after: ctx.syllable_buffer.clone(),
            transform_type: TransformType::CharTransform,
        };
        ctx.transform_history.push(record);
    }
}

impl Default for VniOptimizedTransformStage {
    fn default() -> (r: Self) {
        Self::new()
    }
}

impl PipelineStage for VniOptimizedTransformStage {
    /// Records the input as the last char; transforms the last char of the
    /// syllable when a VNI transform applies, else appends the input.
    fn process(&self, ctx: &mut TypingContext, input: char) -> (r: StageResult)
        ensures
            r == StageResult::Continue,
            final(ctx).last_char == Some(input),
            ({
                let syl = old(ctx).syllable_buffer@;
                if syl.len() > 0 && vni_find(syl.last(), input) is Some {
                    let (res, up) = vni_find(syl.last(), input).unwrap();
                    let after = syl.drop_last() + (if up { upper_seq(res) } else { seq![res] });
                    &&& final(ctx).syllable_buffer@ == after
                    &&& final(ctx).transform_history@.len() == old(ctx).transform_history@.len() + 1
                    &&& final(ctx).transform_history@.drop_last() == old(ctx).transform_history@
                    &&& final(ctx).transform_history@.last().before@ == syl
                    &&& final(ctx).transform_history@.last().after@ == after
                } else {
                    &&& final(ctx).syllable_buffer@ == syl.push(input)
                    &&& final(ctx).transform_history == old(ctx).transform_history
                }
            }),
            *final(ctx) == (TypingContext {
                syllable_buffer: final(ctx).syllable_buffer,
                transform_history: final(ctx).transform_history,
                last_char: Some(input),
                ..*old(ctx)
            }),
    {
        ctx.last_char = Some(input);
        let chars = str_chars(ctx.syllable_buffer.as_str());
        let n = chars.len();
        if n > 0 {
            match self.find_transform(chars[n - 1], input) {
                Some((result, preserve_uppercase)) => {
                    self.apply_transform(ctx, result, preserve_uppercase);
                    return StageResult::Continue;
                },
                None => {},
            }
        }
        let mut s = chars;
        s.push(input);
        ctx.syllable_buffer = chars_to_string(s.as_slice());
        StageResult::Continue
    }

    fn name(&self) -> (r: &'static str)
        ensures
            r@ == "VniOptimizedTransformStage"@,
    {
        "VniOptimizedTransformStage"
    }

    /// Nothing to reset: the stage keeps no state between keys.
    fn reset(&mut self)
        ensures
            *final(self) == *old(self),
    {
    }
}

} // verus!
