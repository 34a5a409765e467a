//! Segment step — split the raw key buffer into (base, transform marks, tone
//! marks).
//!
//! * `MarkBased` (Telex / VNI / VIQR): context-aware. Tone keys count only
//!   after a vowel; `aa`/`ee`/`oo`/`dd` doubles become marks, adjacent or —
//!   under structural guards — non-adjacent; standalone modifier keys (Telex
//!   `w`, VNI digits) become marks once a compatible vowel precedes them.
//! * `DirectMap` (Cham, Khmer, …): every key is a base key; two-key digraphs
//!   resolve through the transform table first.
//!
//! The behaviour is stated as a left fold of [`seg_step`] over the raw keys.

use vstd::prelude::*;
use crate::text::{ascii_lower, to_ascii_lower, is_alpha, char_is_alpha, chars_to_string,
    chars_to_lowercase, std_str_lower};
use crate::vowel::cluster::{is_vowel_spec, is_vowel};
use crate::pipeline::config::{RuleModel, has_rule, has_tone, rule_lookup};
use super::{ComposeOpts, rule_get, rule_exists2, is_tone_key};

verus! {

/// Segmentation mode.
#[derive(Debug, Clone, Copy, PartialEq, Eq, Structural)]
pub enum SegmentMode {
    /// Telex/VNI/VIQR: extract base + transform marks + tone marks.
    MarkBased,
    /// Cham/Khmer: every key maps to a glyph; double keys via the transform table.
    DirectMap,
}

/// A transform mark with the position context it was typed in.
#[derive(Debug, Clone, Copy, PartialEq, Eq, Structural)]
pub struct TransformMark {
    /// The raw key pressed.
    pub key: char,
    /// Number of base chars typed before this mark key; the mark targets the
    /// rightmost matching vowel among them.
    pub base_len_at_typing: usize,
    /// Index of `key` in the raw buffer.
    pub raw_pos: usize,
    /// `true` when `key` was not typed right after a char it forms a
    /// two-key rule with (in raw key order).
    pub non_adjacent: bool,
}

/// A transform mark that changed the composed text.
#[derive(Debug, Clone, Copy, PartialEq, Eq, Structural)]
pub struct AppliedMark {
    /// The raw key that triggered the transform.
    pub key: char,
    /// Index of the trigger key in the raw buffer.
    pub raw_pos: usize,
    /// Copied from the mark's `non_adjacent`.
    pub non_adjacent: bool,
}

/// Output of the segment step.
#[derive(Debug, Clone)]
pub struct Segment {
    /// Base string (consonants + vowels without marks).
    pub base: String,
    /// Transform marks in typing order.
    pub transforms: Vec<TransformMark>,
    /// Tone keys in typing order (the last one wins).
    pub tones: Vec<char>,
}

/// The mathematical state of a segmentation in progress.
pub struct SegModel {
    pub base: Seq<char>,
    pub marks: Seq<TransformMark>,
    pub tones: Seq<char>,
    pub seen_vowel: bool,
}

// ── Structural predicates ────────────────────────────────────────────────────

/// The keys that can double into a mark: `a`, `e`, `o`, `d`.
pub open spec fn is_doubling(c: char) -> bool {
    c == 'a' || c == 'e' || c == 'o' || c == 'd'
}

/// `c` is a vowel once ASCII-lowercased.
pub open spec fn is_vowel_lc(c: char) -> bool {
    is_vowel_spec(ascii_lower(c))
}

/// Number of chars of `s` whose ASCII lowercase is `c`.
pub open spec fn count_lower(s: Seq<char>, c: char) -> nat
    decreases s.len(),
{
    if s.len() == 0 {
        0
    } else {
        count_lower(s.drop_last(), c) + if ascii_lower(s.last()) == c { 1nat } else { 0nat }
    }
}

/// Some char of `s` has ASCII lowercase `c`.
pub open spec fn has_lower(s: Seq<char>, c: char) -> bool {
    exists|k: int| 0 <= k < s.len() && ascii_lower(#[trigger] s[k]) == c
}

/// Before the last char of `base` there is an occurrence of `v` followed
/// (still before the last char) by a consonant.
pub open spec fn earlier_vowel_with_consonants(base: Seq<char>, v: char) -> bool {
    exists|i: int, j: int|
        0 <= i < j < base.len() - 1 && ascii_lower(#[trigger] base[i]) == v && !is_vowel_lc(#[trigger] base[j])
}

/// A vowel follows the second `d` of `raw` (equivalently: some vowel has at
/// least two `d`s before it).
pub open spec fn vowel_after_second_d(raw: Seq<char>) -> bool {
    exists|q: int| 0 <= q < raw.len() && is_vowel_lc(#[trigger] raw[q]) && count_lower(raw.take(q), 'd') >= 2
}

/// Empty, or one of the codas c m n p t ch ng nh.
pub open spec fn is_short_coda(t: Seq<char>) -> bool {
    ||| t.len() == 0
    ||| (t.len() == 1 && (t[0] == 'c' || t[0] == 'm' || t[0] == 'n' || t[0] == 'p' || t[0] == 't'))
    ||| (t.len() == 2 && ((t[0] == 'c' && t[1] == 'h') || (t[0] == 'n' && t[1] == 'g') || (t[0] == 'n' && t[1] == 'h')))
}

/// `v` occurs in `base`, and the (ASCII-lowercased) chars after its last
/// occurrence form an empty or valid coda.
pub open spec fn coda_after_last_vowel_valid(base: Seq<char>, v: char) -> bool {
    exists|p: int|
        0 <= p < base.len() && ascii_lower(#[trigger] base[p]) == v
        && (forall|k: int| p < k < base.len() ==> ascii_lower(#[trigger] base[k]) != v)
        && is_short_coda(base.subrange(p + 1, base.len() as int).map_values(|c: char| ascii_lower(c)))
}

/// A standalone modifier may fire: it is not alphabetic, or some base char
/// forms a two-key rule with it.
pub open spec fn modifier_has_vowel(ch: char, base: Seq<char>, m: RuleModel) -> bool {
    !is_alpha(ch) || exists|k: int|
        0 <= k < base.len() && has_rule(m, seq![ascii_lower(#[trigger] base[k]), ascii_lower(ch)])
}

/// `base` ends with a consonant that some vowel precedes.
pub open spec fn ends_with_coda(base: Seq<char>) -> bool {
    &&& base.len() > 0
    &&& !is_vowel_lc(base.last())
    &&& exists|k: int| 0 <= k < base.len() - 1 && is_vowel_lc(#[trigger] base[k])
}

/// Number of maximal runs of vowels in `s`.
pub open spec fn vowel_groups(s: Seq<char>) -> nat
    decreases s.len(),
{
    if s.len() == 0 {
        0
    } else {
        vowel_groups(s.drop_last())
            + if is_vowel_lc(s.last()) && (s.len() == 1 || !is_vowel_lc(s[s.len() - 2])) { 1nat } else { 0nat }
    }
}

/// Bytes `c` takes in UTF-8.
pub open spec fn utf8_width(c: char) -> nat {
    let u = c as u32;
    if u < 0x80 { 1 } else if u < 0x800 { 2 } else if u < 0x10000 { 3 } else { 4 }
}

/// Bytes `s` takes in UTF-8.
pub open spec fn utf8_len(s: Seq<char>) -> nat
    decreases s.len(),
{
    if s.len() == 0 { 0 } else { utf8_len(s.drop_last()) + utf8_width(s.last()) }
}

/// With `key` lowercased: two bytes ending in `lc`, or one byte equal to `lc`.
pub open spec fn key_is_modifier_of(key: Seq<char>, lc: char) -> bool {
    let kl = std_str_lower(key);
    ||| (utf8_len(kl) == 2 && kl.len() > 0 && kl.last() == lc)
    ||| (utf8_len(kl) == 1 && kl.len() > 0 && kl[0] == lc)
}

/// A key that only ever modifies (Telex `w`, VNI digits): not a tone key,
/// not a vowel, not `d`, and the modifier of some rule.
pub open spec fn is_standalone_key(ch: char, opts: ComposeOpts) -> bool {
    let lc = ascii_lower(ch);
    &&& !has_tone(opts.tone_map@, lc)
    &&& !is_vowel_spec(lc)
    &&& lc != 'd'
    &&& exists|k: int| 0 <= k < opts.rules().len() && key_is_modifier_of(#[trigger] opts.rules()[k].0, lc)
}

/// The key at raw index `i` directly follows a char it forms a rule with.
pub open spec fn adjacent_trigger(raw: Seq<char>, i: int, t: char, m: RuleModel) -> bool {
    i >= 1 && has_rule(m, seq![ascii_lower(raw[i - 1]), t])
}

/// The non-adjacency flag of a mark at raw index `i` typed after `base_len`
/// base chars (a mark typed before any base char is adjacent).
pub open spec fn non_adjacent_mark(raw: Seq<char>, i: int, t: char, base_len: int, m: RuleModel) -> bool {
    base_len != 0 && !adjacent_trigger(raw, i, t, m)
}

// ── Executable predicates ────────────────────────────────────────────────────

fn count_lower_of(s: &[char], c: char) -> (r: usize)
    ensures
        r == count_lower(s@, c),
{
    let mut n: usize = 0;
    let mut i: usize = 0;
    while i < s.len()
        invariant
            i <= s.len(),
            n <= i,
            n == count_lower(s@.take(i as int), c),
        decreases s.len() - i,
    {
        assert(s@.take(i + 1).drop_last() =~= s@.take(i as int));
        if to_ascii_lower(s[i]) == c {
            n += 1;
        }
        i += 1;
    }
    assert(s@.take(s.len() as int) =~= s@);
    n
}

fn has_lower_char(s: &[char], c: char) -> (r: bool)
    ensures
        r == has_lower(s@, c),
{
    let mut i: usize = 0;
    while i < s.len()
        invariant
            i <= s.len(),
            forall|k: int| 0 <= k < i ==> ascii_lower(#[trigger] s@[k]) != c,
        decreases s.len() - i,
    {
        if to_ascii_lower(s[i]) == c {
            return true;
        }
        i += 1;
    }
    false
}

/// Guard for the adjacent double: an earlier `vowel` with a consonant
/// between it and the last char ("fallbaack", "implemeent").
fn has_earlier_vowel_with_consonants(base: &[char], vowel: char) -> (r: bool)
    ensures
        r == earlier_vowel_with_consonants(base@, vowel),
{
    if base.len() == 0 {
        return false;
    }
    let last = base.len() - 1;
    let mut seen = false;
    let mut j: usize = 0;
    while j < last
        invariant
            j <= last,
            last == base@.len() - 1,
            seen == exists|i: int| 0 <= i < j && ascii_lower(#[trigger] base@[i]) == vowel,
            forall|i: int, k: int| 0 <= i < k < j ==> !(ascii_lower(#[trigger] base@[i]) == vowel && !is_vowel_lc(#[trigger] base@[k])),
        decreases last - j,
    {
        let cj = to_ascii_lower(base[j]);
        if seen && !is_vowel(cj) {
            let ghost i = choose|i: int| 0 <= i < j && ascii_lower(#[trigger] base@[i]) == vowel;
            assert(ascii_lower(base@[i]) == vowel && !is_vowel_lc(base@[j as int]));
            return true;
        }
        if cj == vowel {
            seen = true;
        }
        j += 1;
    }
    false
}

/// Whether a vowel follows the second `d` in `raw`.
fn has_vowel_after_second_d(raw: &[char]) -> (r: bool)
    ensures
        r == vowel_after_second_d(raw@),
{
    let mut d: usize = 0;
    let mut q: usize = 0;
    while q < raw.len()
        invariant
            q <= raw.len(),
            d <= q,
            d == count_lower(raw@.take(q as int), 'd'),
            forall|p: int| 0 <= p < q ==> !(is_vowel_lc(#[trigger] raw@[p]) && count_lower(raw@.take(p), 'd') >= 2),
        decreases raw.len() - q,
    {
        let c = to_ascii_lower(raw[q]);
        if d >= 2 && is_vowel(c) {
            assert(is_vowel_lc(raw@[q as int]) && count_lower(raw@.take(q as int), 'd') >= 2);
            return true;
        }
        assert(raw@.take(q + 1).drop_last() =~= raw@.take(q as int));
        if c == 'd' {
            d += 1;
        }
        q += 1;
    }
    false
}

fn is_short_coda_chars(t: &[char]) -> (r: bool)
    ensures
        r == is_short_coda(t@),
{
    let n = t.len();
    n == 0 || (n == 1 && (t[0] == 'c' || t[0] == 'm' || t[0] == 'n' || t[0] == 'p' || t[0] == 't'))
        || (n == 2 && ((t[0] == 'c' && t[1] == 'h') || (t[0] == 'n' && t[1] == 'g') || (t[0] == 'n' && t[1] == 'h')))
}

/// The chars after the last `vowel` in `base` form a valid coda (or none).
fn coda_after_last_vowel_is_valid(base: &[char], vowel: char) -> (r: bool)
    ensures
        r == coda_after_last_vowel_valid(base@, vowel),
{
    let n = base.len();
    let mut i: usize = n;
    while i > 0
        invariant
            i <= n,
            n == base@.len(),
            forall|k: int| i <= k < n ==> ascii_lower(#[trigger] base@[k]) != vowel,
        decreases i,
    {
        if to_ascii_lower(base[i - 1]) == vowel {
            let p = i - 1;
            let mut tail: Vec<char> = Vec::new();
            let mut k: usize = p + 1;
            while k < n
                invariant
                    p + 1 <= k <= n,
                    n == base@.len(),
                    tail@ == base@.subrange(p + 1, k as int).map_values(|c: char| ascii_lower(c)),
                decreases n - k,
            {
                tail.push(to_ascii_lower(base[k]));
                k += 1;
                assert(tail@ =~= base@.subrange(p + 1, k as int).map_values(|c: char| ascii_lower(c)));
            }
            let ok = is_short_coda_chars(tail.as_slice());
            proof {
                if coda_after_last_vowel_valid(base@, vowel) {
                    let q = choose|q: int|
                        0 <= q < base@.len() && ascii_lower(#[trigger] base@[q]) == vowel
                        && (forall|k: int| q < k < base@.len() ==> ascii_lower(#[trigger] base@[k]) != vowel)
                        && is_short_coda(base@.subrange(q + 1, base@.len() as int).map_values(|c: char| ascii_lower(c)));
                    assert(q == p);
                }
            }
            return ok;
        }
        i -= 1;
    }
    false
}

/// Whether a standalone modifier `ch` may act here.
fn standalone_modifier_has_vowel(ch: char, base: &[char], opts: &ComposeOpts) -> (r: bool)
    requires
        opts.wf(),
    ensures
        r == modifier_has_vowel(ch, base@, opts.rules()),
{
    if !char_is_alpha(ch) {
        return true;
    }
    let key = to_ascii_lower(ch);
    let mut k: usize = 0;
    while k < base.len()
        invariant
            k <= base.len(),
            opts.wf(),
            key == ascii_lower(ch),
            forall|j: int| 0 <= j < k ==> !has_rule(opts.rules(), seq![ascii_lower(#[trigger] base@[j]), key]),
        decreases base.len() - k,
    {
        if rule_exists2(opts, to_ascii_lower(base[k]), key) {
            return true;
        }
        k += 1;
    }
    false
}

/// `base` has a coda: it ends in a consonant preceded by some vowel.
fn base_ends_with_coda(base: &[char]) -> (r: bool)
    ensures
        r == ends_with_coda(base@),
{
    let n = base.len();
    if n == 0 || is_vowel(to_ascii_lower(base[n - 1])) {
        return false;
    }
    assert(!is_vowel_lc(base@.last()));
    let mut k: usize = 0;
    while k < n - 1
        invariant
            k <= n - 1,
            n == base@.len(),
            n > 0,
            !is_vowel_lc(base@.last()),
            forall|j: int| 0 <= j < k ==> !is_vowel_lc(#[trigger] base@[j]),
        decreases n - 1 - k,
    {
        if is_vowel(to_ascii_lower(base[k])) {
            assert(is_vowel_lc(base@[k as int]));
            return true;
        }
        k += 1;
    }
    false
}

/// Count maximal runs of consecutive vowels.
fn count_vowel_groups(s: &[char]) -> (r: usize)
    ensures
        r == vowel_groups(s@),
{
    let mut groups: usize = 0;
    let mut in_vowel = false;
    let mut i: usize = 0;
    while i < s.len()
        invariant
            i <= s.len(),
            groups <= i,
            groups == vowel_groups(s@.take(i as int)),
            in_vowel == (i > 0 && is_vowel_lc(s@[i - 1])),
        decreases s.len() - i,
    {
        assert(s@.take(i + 1).drop_last() =~= s@.take(i as int));
        if is_vowel(to_ascii_lower(s[i])) {
            if !in_vowel {
                groups += 1;
                in_vowel = true;
            }
        } else {
            in_vowel = false;
        }
        i += 1;
    }
    assert(s@.take(s.len() as int) =~= s@);
    groups
}

proof fn lemma_utf8_len_at_least_len(s: Seq<char>)
    ensures
        utf8_len(s) >= s.len(),
    decreases s.len(),
{
    if s.len() > 0 {
        lemma_utf8_len_at_least_len(s.drop_last());
    }
}

fn utf8_width_of(c: char) -> (r: usize)
    ensures
        r == utf8_width(c),
{
    let u = c as u32;
    if u < 0x80 { 1 } else if u < 0x800 { 2 } else if u < 0x10000 { 3 } else { 4 }
}

/// The UTF-8 length of `s` when it is at most 2.
fn utf8_len_small(s: &[char]) -> (r: Option<usize>)
    ensures
        match r {
            Some(n) => n == utf8_len(s@),
            None => utf8_len(s@) > 2,
        },
{
    proof {
        lemma_utf8_len_at_least_len(s@);
        reveal_with_fuel(utf8_len, 3);
    }
    if s.len() == 0 {
        Some(0)
    } else if s.len() == 1 {
        assert(s@.drop_last() =~= Seq::<char>::empty());
        Some(utf8_width_of(s[0]))
    } else if s.len() == 2 {
        assert(s@.drop_last() =~= seq![s@[0]]);
        assert(s@.drop_last().drop_last() =~= Seq::<char>::empty());
        let n = utf8_width_of(s[0]) + utf8_width_of(s[1]);
        if n <= 2 { Some(n) } else { None }
    } else {
        None
    }
}

/// A standalone transform key: never a base letter, only a modifier.
fn is_standalone_transform_key(ch: char, opts: &ComposeOpts) -> (r: bool)
    requires
        opts.wf(),
    ensures
        r == is_standalone_key(ch, *opts),
{
    let lc = to_ascii_lower(ch);
    if is_tone_key(opts, lc) {
        return false;
    }
    if is_vowel(lc) {
        return false;
    }
    if lc == 'd' {
        return false;
    }
    let ghost m = opts.rules();
    let mut k: usize = 0;
    while k < opts.transform_rules.len()
        invariant
            k <= opts.transform_rules@.len(),
            m == opts.rules(),
            m.len() == opts.transform_rules@.len(),
            lc == ascii_lower(ch),
            !has_tone(opts.tone_map@, lc),
            !is_vowel_spec(lc),
            lc != 'd',
            forall|j: int| 0 <= j < k ==> !key_is_modifier_of(#[trigger] m[j].0, lc),
        decreases opts.transform_rules@.len() - k,
    {
        let kl = chars_to_lowercase(opts.transform_rules[k].0.as_slice());
        let w = utf8_len_small(kl.as_slice());
        let hit = match w {
            Some(n) => {
                if n == 2 {
                    kl.len() > 0 && kl[kl.len() - 1] == lc
                } else if n == 1 {
                    kl.len() > 0 && kl[0] == lc
                } else {
                    false
                }
            },
            None => false,
        };
        assert(m[k as int].0 == opts.transform_rules@[k as int].0@);
        if hit {
            assert(kl@ == std_str_lower(m[k as int].0));
            assert(key_is_modifier_of(m[k as int].0, lc));
            return true;
        }
        k += 1;
    }
    false
}

/// The key at `i` was typed right after a char it forms a two-key rule with.
fn is_adjacent_trigger(raw: &[char], i: usize, trigger_lc: char, opts: &ComposeOpts) -> (r: bool)
    requires
        opts.wf(),
        i < raw.len(),
    ensures
        r == adjacent_trigger(raw@, i as int, trigger_lc, opts.rules()),
{
    if i == 0 {
        return false;
    }
    rule_exists2(opts, to_ascii_lower(raw[i - 1]), trigger_lc)
}

/// The `non_adjacent` flag of a mark firing at raw index `i`.
fn mark_non_adjacent(raw: &[char], i: usize, trigger_lc: char, base_len: usize, opts: &ComposeOpts) -> (r: bool)
    requires
        opts.wf(),
        i < raw.len(),
    ensures
        r == non_adjacent_mark(raw@, i as int, trigger_lc, base_len as int, opts.rules()),
{
    if base_len == 0 {
        return false;
    }
    !is_adjacent_trigger(raw, i, trigger_lc, opts)
}

// ── The step relation ───────────────────────────────────────────────────────

/// The state before any key.
pub open spec fn seg_init() -> SegModel {
    SegModel { base: Seq::empty(), marks: Seq::empty(), tones: Seq::empty(), seen_vowel: false }
}

/// What the `MarkBased` segmentation does with raw key `i` in state `st`.
///
/// The key becomes a mark when it doubles a letter — adjacently, or (with
/// exactly two of them in `raw`) non-adjacently under the vowel or `đ`
/// guards — or when it is a standalone modifier with a compatible vowel
/// before it; a non-adjacent mark is kept literal when `allow` is off. It
/// becomes a tone when it is a tone key and a vowel has been seen; otherwise
/// it is a base char.
pub open spec fn seg_step(raw: Seq<char>, opts: ComposeOpts, allow: bool, i: int, st: SegModel) -> SegModel {
    let ch = raw[i];
    let lc = ascii_lower(ch);
    let m = opts.rules();
    let seen = st.seen_vowel || is_vowel_spec(lc);
    let blen = st.base.len();
    let na = non_adjacent_mark(raw, i, lc, blen as int, m);
    let permitted = allow || !na;
    let mark = TransformMark { key: ch, base_len_at_typing: blen as usize, raw_pos: i as usize, non_adjacent: na };
    let with_mark = SegModel { base: st.base, marks: st.marks.push(mark), tones: st.tones, seen_vowel: seen };
    let with_base = SegModel { base: st.base.push(ch), marks: st.marks, tones: st.tones, seen_vowel: seen };
    let with_tone = SegModel { base: st.base, marks: st.marks, tones: st.tones.push(ch), seen_vowel: seen };
    let adjacent_double = blen > 0 && ascii_lower(st.base.last()) == lc && is_doubling(lc)
        && !earlier_vowel_with_consonants(st.base, lc);
    let vowel_double = (lc == 'a' || lc == 'e' || lc == 'o') && count_lower(raw, lc) == 2 && has_lower(st.base, lc)
        && (opts.attest_non_adjacent || (vowel_groups(st.base) <= 1 && coda_after_last_vowel_valid(st.base, lc)));
    let d_double = lc == 'd' && count_lower(raw, 'd') == 2 && has_lower(st.base, 'd')
        && (st.tones.len() > 0 || ends_with_coda(st.base) || (is_vowel_lc(st.base.last()) && vowel_after_second_d(raw)));
    let standalone = is_standalone_key(ch, opts);
    if (adjacent_double || vowel_double || d_double) && permitted {
        with_mark
    } else if standalone && modifier_has_vowel(ch, st.base, m) {
        if permitted { with_mark } else { with_base }
    } else if standalone {
        with_base
    } else if has_tone(opts.tone_map@, lc) && seen {
        with_tone
    } else {
        with_base
    }
}

/// The state after the first `n` raw keys.
pub open spec fn seg_upto(raw: Seq<char>, opts: ComposeOpts, allow: bool, n: nat) -> SegModel
    decreases n,
{
    if n == 0 {
        seg_init()
    } else {
        seg_step(raw, opts, allow, n - 1, seg_upto(raw, opts, allow, (n - 1) as nat))
    }
}

/// `DirectMap` output of `raw` from index `i` on: a two-key rule first, then
/// a one-key rule, else the key itself.
pub open spec fn direct_map_from(raw: Seq<char>, m: RuleModel, i: int) -> Seq<char>
    decreases raw.len() - i,
{
    if i < 0 || i >= raw.len() {
        Seq::empty()
    } else if i + 1 < raw.len() && has_rule(m, seq![raw[i], raw[i + 1]]) {
        rule_lookup(m, seq![raw[i], raw[i + 1]]).unwrap() + direct_map_from(raw, m, i + 2)
    } else if has_rule(m, seq![raw[i]]) {
        rule_lookup(m, seq![raw[i]]).unwrap() + direct_map_from(raw, m, i + 1)
    } else {
        seq![raw[i]] + direct_map_from(raw, m, i + 1)
    }
}

/// What [`segment`] returns, as a model.
pub open spec fn segment_spec(raw: Seq<char>, opts: ComposeOpts, allow: bool) -> SegModel {
    match opts.segment_mode {
        SegmentMode::MarkBased => seg_upto(raw, opts, allow, raw.len()),
        SegmentMode::DirectMap => SegModel {
            base: direct_map_from(raw, opts.rules(), 0),
            marks: Seq::empty(),
            tones: Seq::empty(),
            seen_vowel: false,
        },
    }
}

// ── Entry point ──────────────────────────────────────────────────────────────

/// Split raw keys into base + transform marks + tone marks.
///
/// With `allow_nonadjacent` off, a mark that would be flagged non-adjacent
/// stays a literal base char instead.
pub fn segment(raw: &[char], opts: &ComposeOpts, allow_nonadjacent: bool) -> (r: Segment)
    requires
        opts.wf(),
    ensures
        r.base@ == segment_spec(raw@, *opts, allow_nonadjacent).base,
        r.transforms@ == segment_spec(raw@, *opts, allow_nonadjacent).marks,
        r.tones@ == segment_spec(raw@, *opts, allow_nonadjacent).tones,
{
    match opts.segment_mode {
        SegmentMode::MarkBased => segment_mark_based(raw, opts, allow_nonadjacent),
        SegmentMode::DirectMap => segment_direct_map(raw, opts),
    }
}

fn segment_mark_based(raw: &[char], opts: &ComposeOpts, allow_nonadjacent: bool) -> (r: Segment)
    requires
        opts.wf(),
    ensures
        r.base@ == seg_upto(raw@, *opts, allow_nonadjacent, raw@.len()).base,
        r.transforms@ == seg_upto(raw@, *opts, allow_nonadjacent, raw@.len()).marks,
        r.tones@ == seg_upto(raw@, *opts, allow_nonadjacent, raw@.len()).tones,
{
    let mut base: Vec<char> = Vec::new();
    let mut transforms: Vec<TransformMark> = Vec::new();
    let mut tones: Vec<char> = Vec::new();
    let mut seen = false;
    let mut i: usize = 0;
    while i < raw.len()
        invariant
            i <= raw.len(),
            opts.wf(),
            base@.len() <= i,
            base@ == seg_upto(raw@, *opts, allow_nonadjacent, i as nat).base,
            transforms@ == seg_upto(raw@, *opts, allow_nonadjacent, i as nat).marks,
            tones@ == seg_upto(raw@, *opts, allow_nonadjacent, i as nat).tones,
            seen == seg_upto(raw@, *opts, allow_nonadjacent, i as nat).seen_vowel,
        decreases raw.len() - i,
    {
        let ch = raw[i];
        let lc = to_ascii_lower(ch);
        if is_vowel(lc) {
            seen = true;
        }
        let blen = base.len();
        let na = mark_non_adjacent(raw, i, lc, blen, opts);
        let permitted = allow_nonadjacent || !na;
        let adjacent_double = blen > 0 && to_ascii_lower(base[blen - 1]) == lc
            && (lc == 'a' || lc == 'e' || lc == 'o' || lc == 'd')
            && !has_earlier_vowel_with_consonants(base.as_slice(), lc);
        let vowel_double = (lc == 'a' || lc == 'e' || lc == 'o') && count_lower_of(raw, lc) == 2
            && has_lower_char(base.as_slice(), lc)
            && (opts.attest_non_adjacent
                || (count_vowel_groups(base.as_slice()) <= 1 && coda_after_last_vowel_is_valid(base.as_slice(), lc)));
        let d_double = lc == 'd' && count_lower_of(raw, 'd') == 2 && has_lower_char(base.as_slice(), 'd')
            && (tones.len() > 0 || base_ends_with_coda(base.as_slice())
                || (is_vowel(to_ascii_lower(base[blen - 1])) && has_vowel_after_second_d(raw)));
        let standalone = is_standalone_transform_key(ch, opts);
        let mark = TransformMark { key: ch, base_len_at_typing: blen, raw_pos: i, non_adjacent: na };
        if (adjacent_double || vowel_double || d_double) && permitted {
            transforms.push(mark);
        } else if standalone && standalone_modifier_has_vowel(ch, base.as_slice(), opts) {
            if permitted {
                transforms.push(mark);
            } else {
                base.push(ch);
            }
        } else if standalone {
            base.push(ch);
        } else if is_tone_key(opts, lc) && seen {
            tones.push(ch);
        } else {
            base.push(ch);
        }
        i += 1;
    }
    Segment { base: chars_to_string(base.as_slice()), transforms, tones }
}

/// DirectMap: resolve each key (or two-key digraph) through the table.
fn segment_direct_map(raw: &[char], opts: &ComposeOpts) -> (r: Segment)
    requires
        opts.wf(),
    ensures
        r.base@ == direct_map_from(raw@, opts.rules(), 0),
        r.transforms@.len() == 0,
        r.tones@.len() == 0,
{
    let ghost m = opts.rules();
    let mut base: Vec<char> = Vec::new();
    let mut i: usize = 0;
    while i < raw.len()
        invariant
            i <= raw.len(),
            opts.wf(),
            m == opts.rules(),
            base@ + direct_map_from(raw@, m, i as int) == direct_map_from(raw@, m, 0),
        decreases raw.len() - i,
    {
        let ch = raw[i];
        let mut step: usize = 1;
        let mut piece: Vec<char> = Vec::new();
        let mut found = false;
        if i + 1 < raw.len() {
            let pair = [ch, raw[i + 1]];
            assert(pair@ =~= seq![raw@[i as int], raw@[i + 1]]);
            match rule_get(opts, &pair) {
                Some(v) => {
                    piece = v;
                    step = 2;
                    found = true;
                },
                None => {},
            }
        }
        if !found {
            let single = [ch];
            assert(single@ =~= seq![raw@[i as int]]);
            match rule_get(opts, &single) {
                Some(v) => {
                    piece = v;
                },
                None => {
                    piece.push(ch);
                },
            }
        }
        let ghost old_base = base@;
        let mut k: usize = 0;
        while k < piece.len()
            invariant
                k <= piece@.len(),
                base@ == old_base + piece@.subrange(0, k as int),
            decreases piece@.len() - k,
        {
            base.push(piece[k]);
            k += 1;
            assert(base@ =~= old_base + piece@.subrange(0, k as int));
        }
        assert(piece@.subrange(0, piece@.len() as int) =~= piece@);
        assert(piece@ + direct_map_from(raw@, m, (i + step) as int) == direct_map_from(raw@, m, i as int));
        assert(old_base + piece@ + direct_map_from(raw@, m, (i + step) as int)
            =~= old_base + (piece@ + direct_map_from(raw@, m, (i + step) as int)));
        i += step;
    }
    assert(direct_map_from(raw@, m, i as int) =~= Seq::<char>::empty());
    assert(base@ + Seq::<char>::empty() =~= base@);
    Segment { base: chars_to_string(base.as_slice()), transforms: Vec::new(), tones: Vec::new() }
}

} // verus!
