//! Assemble step — place and apply the tone mark on the syllable nucleus.
//!
//! The word is split (normalized) into onset + nucleus + coda; the vowels of
//! the nucleus range are handed to [`crate::tone::place`], and the chosen one
//! gets the tone from [`crate::tone::apply`]. When the nucleus range holds
//! no vowel, the first vowel of the word gets the tone.

use vstd::prelude::*;
use crate::text::{ascii_lower, to_ascii_lower, str_chars, chars_to_string};
use crate::pipeline::config::{ToneMark, tone_lookup};
use crate::pipeline::validation::{normalize_seq, split_spec, normalize_chars, split_parts};
use crate::tone::tables::apply_spec;
use crate::tone::placement::place_spec;
use crate::vowel::cluster::{is_vowel_spec, is_vowel, normalize_vowel_spec, normalize_vowel};
use super::{ComposeOpts, tone_get};

verus! {

/// Indices `i` in `[lo, hi)` with `i < s.len()` whose char is a vowel.
pub open spec fn vowel_positions(s: Seq<char>, lo: int, hi: int) -> Seq<int>
    decreases hi - lo,
{
    if hi <= lo {
        Seq::empty()
    } else {
        let prev = vowel_positions(s, lo, hi - 1);
        let i = hi - 1;
        if i < s.len() && is_vowel_spec(normalize_vowel_spec(s[i])) { prev.push(i) } else { prev }
    }
}

/// `word` with tone `t` on char `i`, or `None` when that changes nothing.
pub open spec fn toned_at(word: Seq<char>, i: int, t: ToneMark) -> Option<Seq<char>> {
    if apply_spec(word[i], t) == word[i] {
        None
    } else {
        Some(word.update(i, apply_spec(word[i], t)))
    }
}

/// What [`apply_tone`] returns.
pub open spec fn apply_tone_spec(word: Seq<char>, tone_key: char, opts: ComposeOpts) -> Option<Seq<char>> {
    match tone_lookup(opts.tone_map@, ascii_lower(tone_key)) {
        None => None,
        Some(t) => if t == ToneMark::NoTone {
            None
        } else {
            let parts = split_spec(normalize_seq(word));
            let lo = parts.0.len() as int;
            let pos = vowel_positions(word, lo, lo + parts.1.len());
            if pos.len() == 0 {
                let all = vowel_positions(word, 0, word.len() as int);
                if all.len() == 0 { None } else { toned_at(word, all[0], t) }
            } else {
                let nucleus = pos.map_values(|i: int| normalize_vowel_spec(word[i]));
                match place_spec(nucleus, opts.tone_style, parts.2.len() > 0) {
                    None => None,
                    Some(k) => toned_at(word, pos[k], t),
                }
            }
        },
    }
}

proof fn lemma_vowel_positions_valid(s: Seq<char>, lo: int, hi: int)
    requires
        0 <= lo,
    ensures
        forall|k: int| #![trigger vowel_positions(s, lo, hi)[k]] 0 <= k < vowel_positions(s, lo, hi).len()
            ==> lo <= vowel_positions(s, lo, hi)[k] < hi && 0 <= vowel_positions(s, lo, hi)[k] < s.len()
            && is_vowel_spec(normalize_vowel_spec(s[vowel_positions(s, lo, hi)[k]])),
    decreases hi - lo,
{
    if hi > lo {
        lemma_vowel_positions_valid(s, lo, hi - 1);
        let prev = vowel_positions(s, lo, hi - 1);
        let cur = vowel_positions(s, lo, hi);
        let i = hi - 1;
        assert forall|k: int| #![trigger cur[k]] 0 <= k < cur.len() implies lo <= cur[k] < hi && 0 <= cur[k] < s.len()
            && is_vowel_spec(normalize_vowel_spec(s[cur[k]])) by {
            if i < s.len() && is_vowel_spec(normalize_vowel_spec(s[i])) {
                assert(cur == prev.push(i));
                if k < prev.len() {
                    assert(cur[k] == prev[k]);
                }
            } else {
                assert(cur == prev);
            }
        }
    }
}

/// A tone key changes exactly one character of the word, a vowel, which
/// receives the key's tone.
pub proof fn law_tone_changes_one_vowel(word: Seq<char>, tone_key: char, opts: ComposeOpts)
    ensures
        apply_tone_spec(word, tone_key, opts) matches Some(r) ==> exists|i: int| #![trigger word[i]]
            0 <= i < word.len() && is_vowel_spec(normalize_vowel_spec(word[i]))
            && r == word.update(i, apply_spec(word[i], tone_lookup(opts.tone_map@, ascii_lower(tone_key)).unwrap())),
{
    let parts = split_spec(normalize_seq(word));
    let lo = parts.0.len() as int;
    lemma_vowel_positions_valid(word, lo, lo + parts.1.len());
    lemma_vowel_positions_valid(word, 0, word.len() as int);
    let pos = vowel_positions(word, lo, lo + parts.1.len());
    let nucleus = pos.map_values(|i: int| normalize_vowel_spec(word[i]));
    crate::tone::placement::law_place_inside(nucleus, opts.tone_style, parts.2.len() > 0);
    if apply_tone_spec(word, tone_key, opts) is Some {
        if pos.len() == 0 {
            let all = vowel_positions(word, 0, word.len() as int);
            let i = all[0];
            assert(0 <= i < word.len() && is_vowel_spec(normalize_vowel_spec(word[i])));
        } else {
            let k = place_spec(nucleus, opts.tone_style, parts.2.len() > 0).unwrap();
            let i = pos[k];
            assert(0 <= i < word.len() && is_vowel_spec(normalize_vowel_spec(word[i])));
        }
    }
}

fn vowel_positions_of(s: &[char], lo: usize, hi: usize) -> (r: Vec<usize>)
    requires
        lo <= hi,
    ensures
        r@.len() == vowel_positions(s@, lo as int, hi as int).len(),
        forall|k: int| 0 <= k < r@.len() ==> (#[trigger] r@[k]) as int == vowel_positions(s@, lo as int, hi as int)[k],
        forall|k: int| 0 <= k < r@.len() ==> (#[trigger] r@[k]) < s@.len(),
{
    let mut v: Vec<usize> = Vec::new();
    let mut i: usize = lo;
    while i < hi
        invariant
            lo <= i <= hi,
            v@.len() == vowel_positions(s@, lo as int, i as int).len(),
            forall|k: int| 0 <= k < v@.len() ==> (#[trigger] v@[k]) as int == vowel_positions(s@, lo as int, i as int)[k],
            forall|k: int| 0 <= k < v@.len() ==> (#[trigger] v@[k]) < s@.len(),
        decreases hi - i,
    {
        if i < s.len() && is_vowel(normalize_vowel(s[i])) {
            v.push(i);
        }
        i += 1;
    }
    v
}

fn apply_at_position(chars: &[char], idx: usize, tone: ToneMark) -> (r: Option<String>)
    requires
        idx < chars.len(),
    ensures
        match r {
            Some(s) => toned_at(chars@, idx as int, tone) == Some(s@),
            None => toned_at(chars@, idx as int, tone) is None,
        },
{
    let original = chars[idx];
    let toned = crate::tone::apply(original, tone);
    if toned == original {
        return None;
    }
    let mut v = crate::text::chars_to_vec(chars);
    v.set(idx, toned);
    Some(chars_to_string(v.as_slice()))
}

/// Apply `tone_key` to `word`: `None` when the key is not a tone key (or
/// means no tone) or no vowel could take the tone.
pub fn apply_tone(word: &str, tone_key: char, opts: &ComposeOpts) -> (r: Option<String>)
    requires
        opts.wf(),
    ensures
        match r {
            Some(s) => apply_tone_spec(word@, tone_key, *opts) == Some(s@),
            None => apply_tone_spec(word@, tone_key, *opts) is None,
        },
{
    let t = match tone_get(opts, to_ascii_lower(tone_key)) {
        Some(t) => t,
        None => return None,
    };
    if t == ToneMark::NoTone {
        return None;
    }
    let chars = str_chars(word);
    let norm = normalize_chars(chars.as_slice());
    let (o, n, c) = split_parts(norm.as_slice());
    let total = norm.len();
    assert(o@.len() + n@.len() <= total) by {
        assert((o@ + n@ + c@).len() == norm@.len());
    }
    let lo = o.len();
    let hi = lo + n.len();
    let pos = vowel_positions_of(chars.as_slice(), lo, hi);
    if pos.len() == 0 {
        let all = vowel_positions_of(chars.as_slice(), 0, chars.len());
        if all.len() == 0 {
            return None;
        }
        return apply_at_position(chars.as_slice(), all[0], t);
    }
    let ghost pos_spec = vowel_positions(word@, lo as int, hi as int);
    let mut nucleus: Vec<char> = Vec::new();
    let mut k: usize = 0;
    while k < pos.len()
        invariant
            k <= pos@.len(),
            chars@ == word@,
            pos@.len() == pos_spec.len(),
            forall|j: int| 0 <= j < pos@.len() ==> (#[trigger] pos@[j]) as int == pos_spec[j],
            forall|j: int| 0 <= j < pos@.len() ==> (#[trigger] pos@[j]) < chars@.len(),
            nucleus@ == pos_spec.subrange(0, k as int).map_values(|i: int| normalize_vowel_spec(word@[i])),
        decreases pos@.len() - k,
    {
        nucleus.push(normalize_vowel(chars[pos[k]]));
        k += 1;
        assert(nucleus@ =~= pos_spec.subrange(0, k as int).map_values(|i: int| normalize_vowel_spec(word@[i])));
    }
    assert(pos_spec.subrange(0, pos@.len() as int) =~= pos_spec);
    match crate::tone::place(nucleus.as_slice(), opts.tone_style, c.len() > 0) {
        None => None,
        Some(p) => apply_at_position(chars.as_slice(), pos[p], t),
    }
}

} // verus!
