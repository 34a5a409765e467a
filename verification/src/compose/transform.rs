//! Transform step — apply diacritic marks to the base.
//!
//! Each mark targets the rightmost vowel with a matching two-key rule among
//! the base chars typed before it (`base_len_at_typing`). When that choice
//! does not give a valid syllable, the nearest such vowel further left that
//! does is taken instead ("luuw" → "lưu", not "luư").
//!
//! `uo` + the compound trigger (Telex `w`, VNI `7`) turns into `ươ` when
//! something follows the `uo`, else into `uơ`; it is suppressed when the same
//! trigger comes again later ("uwow" → each mark acts on its own vowel).
//!
//! A mark typed before any base char applies forward: its one-key rule is
//! prepended, or else the first vowel with a matching rule is changed.
//!
//! A mark that changes nothing is appended literally.

use vstd::prelude::*;
use crate::text::{ascii_lower, to_ascii_lower, is_upper, upper_of, char_is_upper, char_upper};
use crate::vowel::cluster::{normalize_vowel_spec, normalize_vowel};
use crate::pipeline::config::{RuleModel, has_rule, rule_lookup};
use crate::pipeline::validation::{is_valid_syllable_spec, is_valid_syllable_chars};
use super::{ComposeOpts, rule_get, rule_exists2};
use super::segment::{TransformMark, AppliedMark};

verus! {

// ── Model ────────────────────────────────────────────────────────────────────

/// `new_char` in the case of `original` (first char of its uppercase form).
pub open spec fn preserve_case(original: char, new_char: char) -> char {
    if is_upper(original) { upper_of(new_char) } else { new_char }
}

/// The mark is the compound trigger: both `o{mark}` and `u{mark}` are rules.
pub open spec fn compound_trigger(mark: char, m: RuleModel) -> bool {
    let ml = ascii_lower(mark);
    has_rule(m, seq!['o', ml]) && has_rule(m, seq!['u', ml])
}

/// `s[i]` and `s[i + 1]` are `u` and `o` up to case and tone.
pub open spec fn is_uo_at(s: Seq<char>, i: int) -> bool {
    normalize_vowel_spec(s[i]) == 'u' && normalize_vowel_spec(s[i + 1]) == 'o'
}

/// First `i >= from` with `i + 1 < end` where `uo` starts.
pub open spec fn uo_from(s: Seq<char>, from: int, end: int) -> Option<int>
    decreases end - from,
{
    if from < 0 || from + 1 >= end {
        None
    } else if is_uo_at(s, from) {
        Some(from)
    } else {
        uo_from(s, from + 1, end)
    }
}

/// First char of the result of `key`'s rule, when there is one.
pub open spec fn rule_first(m: RuleModel, key: Seq<char>) -> Option<char> {
    match rule_lookup(m, key) {
        Some(v) => if v.len() > 0 { Some(v[0]) } else { None },
        None => None,
    }
}

/// The rule key for mark `ml` on `s[i]`: the vowel's base form, then the mark.
pub open spec fn single_key(s: Seq<char>, i: int, ml: char) -> Seq<char> {
    seq![normalize_vowel_spec(s[i]), ml]
}

/// `s[i]` has a rule with mark `ml`.
pub open spec fn is_candidate(s: Seq<char>, i: int, ml: char, m: RuleModel) -> bool {
    rule_first(m, single_key(s, i, ml)) is Some
}

/// `s` with mark `ml` applied to `s[i]`.
pub open spec fn apply_at(s: Seq<char>, i: int, ml: char, m: RuleModel) -> Seq<char> {
    s.update(i, preserve_case(s[i], rule_first(m, single_key(s, i, ml)).unwrap()))
}

/// Rightmost candidate below `end`.
pub open spec fn last_candidate(s: Seq<char>, ml: char, m: RuleModel, end: int) -> Option<int>
    decreases end,
{
    if end <= 0 {
        None
    } else if is_candidate(s, end - 1, ml, m) {
        Some(end - 1)
    } else {
        last_candidate(s, ml, m, end - 1)
    }
}

/// Rightmost candidate below `end` whose result is a valid syllable.
pub open spec fn last_valid_candidate(s: Seq<char>, ml: char, m: RuleModel, end: int) -> Option<int>
    decreases end,
{
    if end <= 0 {
        None
    } else if is_candidate(s, end - 1, ml, m) && is_valid_syllable_spec(apply_at(s, end - 1, ml, m)) {
        Some(end - 1)
    } else {
        last_valid_candidate(s, ml, m, end - 1)
    }
}

/// Leftmost candidate at or after `from`.
pub open spec fn first_candidate_from(s: Seq<char>, ml: char, m: RuleModel, from: int) -> Option<int>
    decreases s.len() - from,
{
    if from < 0 || from >= s.len() {
        None
    } else if is_candidate(s, from, ml, m) {
        Some(from)
    } else {
        first_candidate_from(s, ml, m, from + 1)
    }
}

/// The result of one mark on `s`, or `None` when it changes nothing.
/// `later_same`: the same mark key comes again later.
pub open spec fn apply_one_spec(s: Seq<char>, mark: char, base_len: int, later_same: bool, m: RuleModel) -> Option<Seq<char>> {
    let ml = ascii_lower(mark);
    let end = if base_len < s.len() { base_len } else { s.len() as int };
    if compound_trigger(mark, m) && !later_same && uo_from(s, 0, end) is Some {
        let p = uo_from(s, 0, end).unwrap();
        if p + 2 < s.len() {
            Some(s.update(p, preserve_case(s[p], 'ư')).update(p + 1, preserve_case(s[p + 1], 'ơ')))
        } else {
            Some(s.update(p + 1, preserve_case(s[p + 1], 'ơ')))
        }
    } else if end == 0 && s.len() > 0 {
        if has_rule(m, seq![ml]) {
            Some(rule_lookup(m, seq![ml]).unwrap() + s)
        } else {
            match first_candidate_from(s, ml, m, 0) {
                Some(i) => Some(apply_at(s, i, ml, m)),
                None => None,
            }
        }
    } else {
        match last_candidate(s, ml, m, end) {
            None => None,
            Some(r) => if is_valid_syllable_spec(apply_at(s, r, ml, m)) {
                Some(apply_at(s, r, ml, m))
            } else {
                match last_valid_candidate(s, ml, m, r) {
                    Some(l) => Some(apply_at(s, l, ml, m)),
                    None => Some(apply_at(s, r, ml, m)),
                }
            },
        }
    }
}

/// Some mark after index `idx` has ASCII-lowercase key `ml`.
pub open spec fn later_same_key(marks: Seq<TransformMark>, idx: int, ml: char) -> bool {
    exists|k: int| idx < k < marks.len() && ascii_lower((#[trigger] marks[k]).key) == ml
}

/// Text and applied marks after the first `n` marks.
pub open spec fn transforms_upto(base: Seq<char>, marks: Seq<TransformMark>, m: RuleModel, n: nat)
    -> (Seq<char>, Seq<AppliedMark>)
    decreases n,
{
    if n == 0 {
        (base, Seq::empty())
    } else {
        let prev = transforms_upto(base, marks, m, (n - 1) as nat);
        let tm = marks[n - 1];
        let later = later_same_key(marks, n - 1, ascii_lower(tm.key));
        match apply_one_spec(prev.0, tm.key, tm.base_len_at_typing as int, later, m) {
            Some(x) => (x, prev.1.push(AppliedMark { key: tm.key, raw_pos: tm.raw_pos, non_adjacent: tm.non_adjacent })),
            None => (prev.0.push(tm.key), prev.1),
        }
    }
}

/// What [`apply_transforms`] returns.
pub open spec fn transform_spec(base: Seq<char>, marks: Seq<TransformMark>, m: RuleModel) -> (Seq<char>, Seq<AppliedMark>) {
    transforms_upto(base, marks, m, marks.len())
}

// ── Executable steps ─────────────────────────────────────────────────────────

fn preserve_case_of(original: char, new_char: char) -> (r: char)
    ensures
        r == preserve_case(original, new_char),
{
    if char_is_upper(original) { char_upper(new_char) } else { new_char }
}

/// Whether `mark` is the `uo` compound trigger.
fn is_compound_trigger(mark: char, opts: &ComposeOpts) -> (r: bool)
    requires
        opts.wf(),
    ensures
        r == compound_trigger(mark, opts.rules()),
{
    let ml = to_ascii_lower(mark);
    rule_exists2(opts, 'o', ml) && rule_exists2(opts, 'u', ml)
}

/// Index of the first `uo` within `chars[..end]`.
fn find_uo_pos(chars: &[char], end: usize) -> (r: Option<usize>)
    requires
        end <= chars.len(),
    ensures
        match r {
            Some(p) => uo_from(chars@, 0, end as int) == Some(p as int) && p + 1 < end,
            None => uo_from(chars@, 0, end as int) is None,
        },
{
    let mut i: usize = 0;
    while i < end && i + 1 < end
        invariant
            end <= chars.len(),
            uo_from(chars@, 0, end as int) == uo_from(chars@, i as int, end as int),
        decreases end - i,
    {
        if normalize_vowel(chars[i]) == 'u' && normalize_vowel(chars[i + 1]) == 'o' {
            return Some(i);
        }
        i += 1;
    }
    None
}

/// First char of the result of `key`'s rule.
fn rule_first_char(opts: &ComposeOpts, key: &[char]) -> (r: Option<char>)
    requires
        opts.wf(),
    ensures
        r == rule_first(opts.rules(), key@),
{
    match rule_get(opts, key) {
        Some(v) => if v.len() > 0 { Some(v[0]) } else { None },
        None => None,
    }
}

/// The new char for mark `ml` on `chars[i]`, if `chars[i]` is a candidate.
fn candidate_char(chars: &[char], i: usize, ml: char, opts: &ComposeOpts) -> (r: Option<char>)
    requires
        opts.wf(),
        i < chars.len(),
    ensures
        r == rule_first(opts.rules(), single_key(chars@, i as int, ml)),
{
    let key = [normalize_vowel(chars[i]), ml];
    assert(key@ =~= single_key(chars@, i as int, ml));
    rule_first_char(opts, &key)
}

/// `chars` with mark `ml` applied at the candidate `i`.
fn apply_at_index(chars: &[char], i: usize, ml: char, opts: &ComposeOpts) -> (r: Vec<char>)
    requires
        opts.wf(),
        i < chars.len(),
        is_candidate(chars@, i as int, ml, opts.rules()),
    ensures
        r@ == apply_at(chars@, i as int, ml, opts.rules()),
{
    let nc = candidate_char(chars, i, ml, opts);
    let mut v = crate::text::chars_to_vec(chars);
    match nc {
        Some(c) => {
            let pc = preserve_case_of(chars[i], c);
            v.set(i, pc);
        },
        None => {},
    }
    v
}

/// Rightmost candidate below `end`.
fn find_last_candidate(chars: &[char], ml: char, end: usize, opts: &ComposeOpts) -> (r: Option<usize>)
    requires
        opts.wf(),
        end <= chars.len(),
    ensures
        match r {
            Some(i) => last_candidate(chars@, ml, opts.rules(), end as int) == Some(i as int) && i < end
                && is_candidate(chars@, i as int, ml, opts.rules()),
            None => last_candidate(chars@, ml, opts.rules(), end as int) is None,
        },
{
    let mut i: usize = end;
    while i > 0
        invariant
            i <= end,
            end <= chars.len(),
            opts.wf(),
            last_candidate(chars@, ml, opts.rules(), end as int) == last_candidate(chars@, ml, opts.rules(), i as int),
        decreases i,
    {
        if candidate_char(chars, i - 1, ml, opts).is_some() {
            return Some(i - 1);
        }
        i -= 1;
    }
    None
}

/// Rightmost candidate below `end` giving a valid syllable.
fn find_last_valid_candidate(chars: &[char], ml: char, end: usize, opts: &ComposeOpts) -> (r: Option<usize>)
    requires
        opts.wf(),
        end <= chars.len(),
    ensures
        match r {
            Some(i) => last_valid_candidate(chars@, ml, opts.rules(), end as int) == Some(i as int) && i < end
                && is_candidate(chars@, i as int, ml, opts.rules()),
            None => last_valid_candidate(chars@, ml, opts.rules(), end as int) is None,
        },
{
    let mut i: usize = end;
    while i > 0
        invariant
            i <= end,
            end <= chars.len(),
            opts.wf(),
            last_valid_candidate(chars@, ml, opts.rules(), end as int)
                == last_valid_candidate(chars@, ml, opts.rules(), i as int),
        decreases i,
    {
        if candidate_char(chars, i - 1, ml, opts).is_some() {
            let v = apply_at_index(chars, i - 1, ml, opts);
            if is_valid_syllable_chars(v.as_slice()) {
                return Some(i - 1);
            }
        }
        i -= 1;
    }
    None
}

/// Leftmost candidate.
fn find_first_candidate(chars: &[char], ml: char, opts: &ComposeOpts) -> (r: Option<usize>)
    requires
        opts.wf(),
    ensures
        match r {
            Some(i) => first_candidate_from(chars@, ml, opts.rules(), 0) == Some(i as int) && i < chars.len()
                && is_candidate(chars@, i as int, ml, opts.rules()),
            None => first_candidate_from(chars@, ml, opts.rules(), 0) is None,
        },
{
    let mut i: usize = 0;
    while i < chars.len()
        invariant
            i <= chars.len(),
            opts.wf(),
            first_candidate_from(chars@, ml, opts.rules(), 0) == first_candidate_from(chars@, ml, opts.rules(), i as int),
        decreases chars.len() - i,
    {
        if candidate_char(chars, i, ml, opts).is_some() {
            return Some(i);
        }
        i += 1;
    }
    None
}

/// Apply one mark to `chars`; `None` when it changes nothing.
fn apply_one_transform(chars: &[char], mark: char, base_len_at_typing: usize, later_same: bool, opts: &ComposeOpts)
    -> (r: Option<Vec<char>>)
    requires
        opts.wf(),
    ensures
        match r {
            Some(v) => apply_one_spec(chars@, mark, base_len_at_typing as int, later_same, opts.rules()) == Some(v@),
            None => apply_one_spec(chars@, mark, base_len_at_typing as int, later_same, opts.rules()) is None,
        },
{
    let ml = to_ascii_lower(mark);
    let n = chars.len();
    let end = if base_len_at_typing < n { base_len_at_typing } else { n };
    if is_compound_trigger(mark, opts) && !later_same {
        match find_uo_pos(chars, end) {
            Some(p) => {
                let mut v = crate::text::chars_to_vec(chars);
                if p + 2 < n {
                    let u = preserve_case_of(chars[p], 'ư');
                    v.set(p, u);
                }
                let o = preserve_case_of(chars[p + 1], 'ơ');
                v.set(p + 1, o);
                return Some(v);
            },
            None => {},
        }
    }
    if end == 0 && n > 0 {
        let single = [ml];
        assert(single@ =~= seq![ml]);
        match rule_get(opts, &single) {
            Some(prefix) => {
                let mut v = prefix;
                let ghost pre = v@;
                let mut k: usize = 0;
                while k < n
                    invariant
                        k <= n,
                        n == chars@.len(),
                        v@ == pre + chars@.subrange(0, k as int),
                    decreases n - k,
                {
                    v.push(chars[k]);
                    k += 1;
                    assert(v@ =~= pre + chars@.subrange(0, k as int));
                }
                assert(chars@.subrange(0, n as int) =~= chars@);
                return Some(v);
            },
            None => {},
        }
        return match find_first_candidate(chars, ml, opts) {
            Some(i) => Some(apply_at_index(chars, i, ml, opts)),
            None => None,
        };
    }
    match find_last_candidate(chars, ml, end, opts) {
        None => None,
        Some(r) => {
            let v = apply_at_index(chars, r, ml, opts);
            if is_valid_syllable_chars(v.as_slice()) {
                Some(v)
            } else {
                match find_last_valid_candidate(chars, ml, r, opts) {
                    Some(l) => Some(apply_at_index(chars, l, ml, opts)),
                    None => Some(v),
                }
            }
        },
    }
}

/// Some mark after `idx` has ASCII-lowercase key `ml`.
fn has_later_same_key(marks: &[TransformMark], idx: usize, ml: char) -> (r: bool)
    requires
        idx < marks.len(),
    ensures
        r == later_same_key(marks@, idx as int, ml),
{
    let mut k: usize = idx + 1;
    while k < marks.len()
        invariant
            idx < k <= marks.len(),
            forall|j: int| idx < j < k ==> ascii_lower((#[trigger] marks@[j]).key) != ml,
        decreases marks.len() - k,
    {
        if to_ascii_lower(marks[k].key) == ml {
            assert(ascii_lower(marks@[k as int].key) == ml);
            return true;
        }
        k += 1;
    }
    false
}

/// Apply all `transforms` to `base` in order. Returns the text and the marks
/// that changed it; a mark that changed nothing is appended literally.
pub fn apply_transforms(base: &str, transforms: &[TransformMark], opts: &ComposeOpts)
    -> (r: (String, Vec<AppliedMark>))
    requires
        opts.wf(),
    ensures
        (r.0@, r.1@) == transform_spec(base@, transforms@, opts.rules()),
{
    let mut result = crate::text::str_chars(base);
    let mut applied: Vec<AppliedMark> = Vec::new();
    let mut idx: usize = 0;
    while idx < transforms.len()
        invariant
            idx <= transforms.len(),
            opts.wf(),
            (result@, applied@) == transforms_upto(base@, transforms@, opts.rules(), idx as nat),
        decreases transforms.len() - idx,
    {
        let tm = transforms[idx];
        let later = has_later_same_key(transforms, idx, to_ascii_lower(tm.key));
        match apply_one_transform(result.as_slice(), tm.key, tm.base_len_at_typing, later, opts) {
            Some(v) => {
                result = v;
                applied.push(AppliedMark { key: tm.key, raw_pos: tm.raw_pos, non_adjacent: tm.non_adjacent });
            },
            None => {
                result.push(tm.key);
            },
        }
        idx += 1;
    }
    (crate::text::chars_to_string(result.as_slice()), applied)
}

} // verus!
