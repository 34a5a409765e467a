//! Fallback step — undo / toggle derived from the raw key counts.
//!
//! * Tone toggle: an even trailing run of one tone key undoes the tone and
//!   leaves half the run literal, keeping the diacritic transforms of the
//!   rest (`a611` → `â1`, `seess` → `sês`). A tone key pressed again after a
//!   coda, when that tone is on the syllable, strips it (`vie65t5` → `viêt5`).
//! * Transform toggle: a two-key rule typed with its second key once more at
//!   the end undoes it (`aaa` → `aa`, `ddaaa` → `đaa`).
//! * Non-adjacent undo: retyping the trigger of a non-adjacent mark that
//!   fired on the previous key reverts to the literal keys (`canaa` → `cana`).
//!
//! Every undo latches English passthrough (`temp_english`).
//!
//! The prefix recomposition (`recompute_prefix_marks`,
//! `apply_transforms_only`) applies every mark that fired: this crate has no
//! table of attested syllables (`is_attested`, `is_shape_attested`), so the
//! gate that would demote a non-adjacent mark whose result is not an attested
//! syllable is not applied.

use vstd::prelude::*;
use crate::text::{ascii_lower, to_ascii_lower, std_str_lower, chars_to_lowercase, str_chars, chars_to_string};
use crate::pipeline::config::{ToneMark, has_tone, tone_lookup};
use crate::tone::tables::{strip_spec, apply_spec};
use super::{ComposeOpts, is_tone_key, tone_get};
use super::segment::{AppliedMark, segment, segment_spec, has_lower};
use super::transform::{apply_transforms, transform_spec};
use super::assemble::{apply_tone, apply_tone_spec};

verus! {

/// Result of the fallback check.
#[derive(Debug, Clone)]
pub struct FallbackResult {
    /// This check fully handled the input (compose stops here).
    pub is_handled: bool,
    /// The resulting text (empty when not handled).
    pub text: String,
    /// Whether to latch English passthrough.
    pub temp_english: bool,
}

impl FallbackResult {
    fn not_handled() -> (r: Self)
        ensures
            !r.is_handled,
            r.text@ == Seq::<char>::empty(),
            !r.temp_english,
    {
        FallbackResult { is_handled: false, text: String::new(), temp_english: false }
    }

    fn handled(text: String, temp_english: bool) -> (r: Self)
        ensures
            r.is_handled,
            r.text@ == text@,
            r.temp_english == temp_english,
    {
        FallbackResult { is_handled: true, text, temp_english }
    }
}

// ── Model ────────────────────────────────────────────────────────────────────

/// Length of the trailing run of keys whose ASCII lowercase is `c`.
pub open spec fn trailing_lower(s: Seq<char>, c: char) -> nat
    decreases s.len(),
{
    if s.len() == 0 {
        0
    } else if ascii_lower(s.last()) == c {
        1 + trailing_lower(s.drop_last(), c)
    } else {
        0
    }
}

/// Segment + transform of `raw`, tone keys dropped.
pub open spec fn transforms_only_spec(raw: Seq<char>, opts: ComposeOpts, allow: bool) -> Seq<char> {
    if raw.len() == 0 {
        Seq::empty()
    } else {
        let seg = segment_spec(raw, opts, allow);
        transform_spec(seg.base, seg.marks, opts.rules()).0
    }
}

/// Segment + transform + the last tone key of `raw`, with the marks applied.
pub open spec fn recompute_spec(raw: Seq<char>, opts: ComposeOpts, allow: bool) -> (Seq<char>, Seq<AppliedMark>) {
    if raw.len() == 0 {
        (Seq::empty(), Seq::empty())
    } else {
        let seg = segment_spec(raw, opts, allow);
        let tr = transform_spec(seg.base, seg.marks, opts.rules());
        let text = if seg.tones.len() > 0 {
            match apply_tone_spec(tr.0, seg.tones.last(), opts) {
                Some(t) => t,
                None => tr.0,
            }
        } else {
            tr.0
        };
        (text, tr.1)
    }
}

/// `text` with the tone removed from its first char carrying `tone`.
pub open spec fn strip_tone_from(text: Seq<char>, tone: ToneMark, i: int) -> Option<Seq<char>>
    decreases text.len() - i,
{
    if i < 0 || i >= text.len() {
        None
    } else if strip_spec(text[i]).1 == tone {
        Some(text.update(i, apply_spec(text[i], ToneMark::NoTone)))
    } else {
        strip_tone_from(text, tone, i + 1)
    }
}

proof fn lemma_strip_tone_from_len(text: Seq<char>, tone: ToneMark, i: int)
    ensures
        strip_tone_from(text, tone, i) matches Some(s) ==> s.len() == text.len(),
    decreases text.len() - i,
{
    if 0 <= i < text.len() && strip_spec(text[i]).1 != tone {
        lemma_strip_tone_from_len(text, tone, i + 1);
    }
}

/// `n` copies of `c`.
pub open spec fn repeat_char(c: char, n: nat) -> Seq<char> {
    Seq::new(n, |_i: int| c)
}

/// The tone toggle: trailing even run, or the same tone pressed again.
pub open spec fn tone_toggle_spec(raw: Seq<char>, opts: ComposeOpts, allow: bool) -> Option<(Seq<char>, bool)> {
    let n = raw.len();
    let last_lc = ascii_lower(raw.last());
    if n == 0 || !has_tone(opts.tone_map@, last_lc) {
        None
    } else {
        let t = trailing_lower(raw, last_lc);
        if t >= 2 {
            if t % 2 == 0 {
                Some((transforms_only_spec(raw.take(n - t), opts, allow) + repeat_char(last_lc, t / 2), true))
            } else {
                None
            }
        } else {
            let rest = raw.drop_last();
            if rest.len() == 0 || !has_lower(rest, last_lc) || ascii_lower(rest.last()) == last_lc {
                None
            } else {
                let expected = tone_lookup(opts.tone_map@, last_lc).unwrap();
                if expected == ToneMark::NoTone {
                    None
                } else {
                    match strip_tone_from(recompute_spec(rest, opts, allow).0, expected, 0) {
                        Some(stripped) => Some((stripped.push(last_lc), true)),
                        None => None,
                    }
                }
            }
        }
    }
}

/// A tone key pressed once more after a coda (not repeated at the end),
/// when the toggle fires, strips the tone and keeps the key as a literal:
/// the text is the recomposed keys before it, one tone removed, with the
/// key appended (`vie65t5` → `viêt5`), and the word latches as English.
pub proof fn law_tone_repress_keeps_key(raw: Seq<char>, opts: ComposeOpts, allow: bool)
    requires
        raw.len() >= 2,
        ascii_lower(raw[raw.len() - 2]) != ascii_lower(raw.last()),
        tone_toggle_spec(raw, opts, allow) is Some,
    ensures
        ({
            let p = tone_toggle_spec(raw, opts, allow).unwrap();
            &&& p.0.len() == recompute_spec(raw.drop_last(), opts, allow).0.len() + 1
            &&& p.0.last() == ascii_lower(raw.last())
            &&& p.1
        }),
{
    let l = ascii_lower(raw.last());
    let rest = raw.drop_last();
    assert(rest.last() == raw[raw.len() - 2]);
    assert(trailing_lower(rest, l) == 0);
    assert(trailing_lower(raw, l) == 1);
    let expected = tone_lookup(opts.tone_map@, l).unwrap();
    lemma_strip_tone_from_len(recompute_spec(rest, opts, allow).0, expected, 0);
}

/// Some rule, lowercased, is exactly the two keys `a b`.
pub open spec fn has_lowered_pair_rule(opts: ComposeOpts, a: char, b: char) -> bool {
    exists|k: int| 0 <= k < opts.rules().len() && std_str_lower(#[trigger] opts.rules()[k].0) == seq![a, b]
}

/// The transform toggle: the raw keys end in `x y y` for a rule `xy`.
pub open spec fn transform_toggle_spec(raw: Seq<char>, opts: ComposeOpts, allow: bool) -> Option<(Seq<char>, bool)> {
    let n = raw.len();
    if n < 3 {
        None
    } else {
        let t0 = ascii_lower(raw[n - 3]);
        let t1 = ascii_lower(raw[n - 2]);
        let t2 = ascii_lower(raw[n - 1]);
        if t1 == t2 && has_lowered_pair_rule(opts, t0, t1) {
            Some((transforms_only_spec(raw.take(n - 3), opts, allow) + seq![t0, t1], true))
        } else {
            None
        }
    }
}

/// Some rule key ends in a char whose ASCII lowercase is `k`.
pub open spec fn is_trigger_key(k: char, opts: ComposeOpts) -> bool {
    exists|j: int| 0 <= j < opts.rules().len() && (#[trigger] opts.rules()[j]).0.len() > 0
        && ascii_lower(opts.rules()[j].0.last()) == k
}

/// The last key repeats the one before it, and it can trigger a transform.
pub open spec fn undo_candidate(raw: Seq<char>, opts: ComposeOpts) -> Option<char> {
    let n = raw.len();
    if n >= 2 && ascii_lower(raw[n - 2]) == ascii_lower(raw[n - 1]) && is_trigger_key(ascii_lower(raw[n - 1]), opts) {
        Some(ascii_lower(raw[n - 1]))
    } else {
        None
    }
}

/// The non-adjacent undo: the prefix's non-adjacent mark fired on its last key
/// and that key is typed again.
pub open spec fn nonadjacent_toggle_spec(raw: Seq<char>, opts: ComposeOpts, allow: bool) -> Option<(Seq<char>, bool)> {
    if !allow {
        None
    } else {
        match undo_candidate(raw, opts) {
            None => None,
            Some(k) => {
                let prefix = raw.drop_last();
                let ap = recompute_spec(prefix, opts, true).1;
                if exists|j: int| 0 <= j < ap.len() && (#[trigger] ap[j]).non_adjacent
                    && ap[j].raw_pos == prefix.len() - 1 && ascii_lower(ap[j].key) == k {
                    Some((prefix, true))
                } else {
                    None
                }
            },
        }
    }
}

/// What [`check_fallback`] decides: handled text and English latch, or `None`.
pub open spec fn fallback_spec(raw: Seq<char>, opts: ComposeOpts, allow: bool) -> Option<(Seq<char>, bool)> {
    if raw.len() < 2 {
        None
    } else if tone_toggle_spec(raw, opts, allow) is Some {
        tone_toggle_spec(raw, opts, allow)
    } else if transform_toggle_spec(raw, opts, allow) is Some {
        transform_toggle_spec(raw, opts, allow)
    } else {
        nonadjacent_toggle_spec(raw, opts, allow)
    }
}

/// Every undo or toggle latches the word as English.
pub proof fn law_undo_latches_english(raw: Seq<char>, opts: ComposeOpts, allow: bool)
    ensures
        fallback_spec(raw, opts, allow) matches Some(p) ==> p.1,
{
}

/// Adjacent toggles take priority over the non-adjacent undo, and a
/// non-adjacent undo answers with the literal keys typed before the repeat.
pub proof fn law_nonadjacent_undo_is_literal_prefix(raw: Seq<char>, opts: ComposeOpts)
    requires
        raw.len() >= 2,
        tone_toggle_spec(raw, opts, true) is None,
        transform_toggle_spec(raw, opts, true) is None,
        nonadjacent_toggle_spec(raw, opts, true) is Some,
    ensures
        fallback_spec(raw, opts, true) == Some((raw.drop_last(), true)),
{
}

/// The result of a fallback check matches the model `f`.
pub open spec fn fallback_matches(r: FallbackResult, f: Option<(Seq<char>, bool)>) -> bool {
    match f {
        Some(p) => r.is_handled && r.text@ == p.0 && r.temp_english == p.1,
        None => !r.is_handled && r.text@ == Seq::<char>::empty() && !r.temp_english,
    }
}

// ── Entry points ─────────────────────────────────────────────────────────────

/// Check whether the raw keys end in an undo/toggle pattern.
pub fn check_fallback(raw: &[char], opts: &ComposeOpts, allow_nonadjacent: bool) -> (r: FallbackResult)
    requires
        opts.wf(),
    ensures
        fallback_matches(r, fallback_spec(raw@, *opts, allow_nonadjacent)),
{
    if raw.len() < 2 {
        return FallbackResult::not_handled();
    }
    match check_tone_toggle(raw, opts, allow_nonadjacent) {
        Some(r) => return r,
        None => {},
    }
    match check_transform_toggle(raw, opts, allow_nonadjacent) {
        Some(r) => return r,
        None => {},
    }
    match check_nonadjacent_transform_toggle(raw, opts, allow_nonadjacent) {
        Some(r) => return r,
        None => {},
    }
    FallbackResult::not_handled()
}

/// Whether the raw keys, as typed so far, end in a just-fired undo event.
pub fn is_last_event_undo(raw: &[char], opts: &ComposeOpts) -> (r: bool)
    requires
        opts.wf(),
    ensures
        r == fallback_spec(raw@, *opts, true) is Some,
{
    check_fallback(raw, opts, true).is_handled
}

// ── Toggles ──────────────────────────────────────────────────────────────────

fn trailing_lower_count(raw: &[char], c: char) -> (r: usize)
    ensures
        r == trailing_lower(raw@, c),
        r <= raw@.len(),
{
    let n = raw.len();
    let mut t: usize = 0;
    assert(raw@.take(n as int) =~= raw@);
    while t < n && to_ascii_lower(raw[n - 1 - t]) == c
        invariant
            t <= n,
            n == raw@.len(),
            trailing_lower(raw@, c) == t + trailing_lower(raw@.take(n - t), c),
        decreases n - t,
    {
        assert(raw@.take(n - t).drop_last() =~= raw@.take(n - t - 1));
        t += 1;
    }
    assert(t < n ==> raw@.take(n - t).last() == raw@[n - 1 - t]);
    t
}

fn check_tone_toggle(raw: &[char], opts: &ComposeOpts, allow_nonadjacent: bool) -> (r: Option<FallbackResult>)
    requires
        opts.wf(),
        raw@.len() >= 2,
    ensures
        match r {
            Some(f) => tone_toggle_spec(raw@, *opts, allow_nonadjacent) is Some
                && fallback_matches(f, tone_toggle_spec(raw@, *opts, allow_nonadjacent)),
            None => tone_toggle_spec(raw@, *opts, allow_nonadjacent) is None,
        },
{
    let n = raw.len();
    let last_lc = to_ascii_lower(raw[n - 1]);
    if !is_tone_key(opts, last_lc) {
        return None;
    }
    let t = trailing_lower_count(raw, last_lc);
    if t >= 2 {
        if t % 2 == 0 {
            let base_part = crate::text::sub_vec(raw, 0, n - t);
            assert(base_part@ =~= raw@.take(n - t));
            let transformed = apply_transforms_only(base_part.as_slice(), opts, allow_nonadjacent);
            let mut text = str_chars(transformed.as_str());
            let ghost pre = text@;
            let half = t / 2;
            let mut k: usize = 0;
            while k < half
                invariant
                    k <= half,
                    text@ == pre + repeat_char(last_lc, k as nat),
                decreases half - k,
            {
                text.push(last_lc);
                k += 1;
                assert(text@ =~= pre + repeat_char(last_lc, k as nat));
            }
            return Some(FallbackResult::handled(chars_to_string(text.as_slice()), true));
        }
        return None;
    }
    let rest = crate::text::sub_vec(raw, 0, n - 1);
    assert(rest@ =~= raw@.drop_last());
    let mut earlier = false;
    let mut i: usize = 0;
    while i < rest.len()
        invariant
            i <= rest@.len(),
            earlier == exists|k: int| 0 <= k < i && ascii_lower(#[trigger] rest@[k]) == last_lc,
        decreases rest@.len() - i,
    {
        if to_ascii_lower(rest[i]) == last_lc {
            assert(ascii_lower(rest@[i as int]) == last_lc);
            earlier = true;
        }
        i += 1;
    }
    if !earlier || to_ascii_lower(rest[n - 2]) == last_lc {
        return None;
    }
    let candidate = match compose_base_and_transforms_with_tone(rest.as_slice(), opts, allow_nonadjacent) {
        Some(c) => c,
        None => return None,
    };
    let expected = match tone_get(opts, last_lc) {
        Some(t) => t,
        None => return None,
    };
    if expected == ToneMark::NoTone {
        return None;
    }
    match strip_tone_from_text(candidate.as_str(), expected) {
        Some(stripped) => {
            let mut text = str_chars(stripped.as_str());
            text.push(last_lc);
            Some(FallbackResult::handled(chars_to_string(text.as_slice()), true))
        },
        None => None,
    }
}

fn check_transform_toggle(raw: &[char], opts: &ComposeOpts, allow_nonadjacent: bool) -> (r: Option<FallbackResult>)
    requires
        opts.wf(),
    ensures
        match r {
            Some(f) => transform_toggle_spec(raw@, *opts, allow_nonadjacent) is Some
                && fallback_matches(f, transform_toggle_spec(raw@, *opts, allow_nonadjacent)),
            None => transform_toggle_spec(raw@, *opts, allow_nonadjacent) is None,
        },
{
    let n = raw.len();
    if n < 3 {
        return None;
    }
    let t0 = to_ascii_lower(raw[n - 3]);
    let t1 = to_ascii_lower(raw[n - 2]);
    let t2 = to_ascii_lower(raw[n - 1]);
    let ghost m = opts.rules();
    let mut k: usize = 0;
    while k < opts.transform_rules.len()
        invariant
            k <= opts.transform_rules@.len(),
            opts.wf(),
            m == opts.rules(),
            m.len() == opts.transform_rules@.len(),
            n == raw@.len(),
            n >= 3,
            t0 == ascii_lower(raw@[n - 3]),
            t1 == ascii_lower(raw@[n - 2]),
            t2 == ascii_lower(raw@[n - 1]),
            forall|j: int| 0 <= j < k ==> !(t1 == t2 && std_str_lower(#[trigger] m[j].0) == seq![t0, t1]),
        decreases opts.transform_rules@.len() - k,
    {
        let rk = chars_to_lowercase(opts.transform_rules[k].0.as_slice());
        assert(m[k as int].0 == opts.transform_rules@[k as int].0@);
        if rk.len() == 2 && rk[0] == t0 && rk[1] == t1 && t1 == t2 {
            assert(rk@ =~= seq![t0, t1]);
            assert(std_str_lower(m[k as int].0) == seq![t0, t1]);
            let prefix = crate::text::sub_vec(raw, 0, n - 3);
            assert(prefix@ =~= raw@.take(n - 3));
            let composed = apply_transforms_only(prefix.as_slice(), opts, allow_nonadjacent);
            let mut text = str_chars(composed.as_str());
            text.push(t0);
            text.push(t1);
            assert(text@ =~= transforms_only_spec(raw@.take(n - 3), *opts, allow_nonadjacent) + seq![t0, t1]);
            return Some(FallbackResult::handled(chars_to_string(text.as_slice()), true));
        }
        proof {
            if t1 == t2 && std_str_lower(m[k as int].0) == seq![t0, t1] {
                assert(rk@.len() == 2 && rk@[0] == t0 && rk@[1] == t1);
            }
        }
        k += 1;
    }
    None
}

fn check_nonadjacent_transform_toggle(raw: &[char], opts: &ComposeOpts, allow_nonadjacent: bool)
    -> (r: Option<FallbackResult>)
    requires
        opts.wf(),
    ensures
        match r {
            Some(f) => nonadjacent_toggle_spec(raw@, *opts, allow_nonadjacent) is Some
                && fallback_matches(f, nonadjacent_toggle_spec(raw@, *opts, allow_nonadjacent)),
            None => nonadjacent_toggle_spec(raw@, *opts, allow_nonadjacent) is None,
        },
{
    if !allow_nonadjacent {
        return None;
    }
    let k_lc = match nonadjacent_undo_candidate(raw, opts) {
        Some(k) => k,
        None => return None,
    };
    let n = raw.len();
    let prefix = crate::text::sub_vec(raw, 0, n - 1);
    assert(prefix@ =~= raw@.drop_last());
    let (_, applied) = recompute_prefix_marks(prefix.as_slice(), opts, true);
    let last_idx = n - 2;
    let mut j: usize = 0;
    while j < applied.len()
        invariant
            j <= applied@.len(),
            last_idx == prefix@.len() - 1,
            prefix@ == raw@.drop_last(),
            applied@ == recompute_spec(prefix@, *opts, true).1,
            undo_candidate(raw@, *opts) == Some(k_lc),
            allow_nonadjacent,
            forall|i: int| 0 <= i < j ==> !((#[trigger] applied@[i]).non_adjacent
                && applied@[i].raw_pos == last_idx && ascii_lower(applied@[i].key) == k_lc),
        decreases applied@.len() - j,
    {
        let a = applied[j];
        if a.non_adjacent && a.raw_pos == last_idx && to_ascii_lower(a.key) == k_lc {
            proof {
                let ap = recompute_spec(raw@.drop_last(), *opts, true).1;
                assert(ap == applied@);
                assert(ap[j as int].non_adjacent && ap[j as int].raw_pos == raw@.drop_last().len() - 1
                    && ascii_lower(ap[j as int].key) == k_lc);
            }
            return Some(FallbackResult::handled(chars_to_string(prefix.as_slice()), true));
        }
        j += 1;
    }
    None
}

fn nonadjacent_undo_candidate(raw: &[char], opts: &ComposeOpts) -> (r: Option<char>)
    requires
        opts.wf(),
    ensures
        r == undo_candidate(raw@, *opts),
        r is Some ==> raw@.len() >= 2,
{
    let n = raw.len();
    if n < 2 {
        return None;
    }
    let k_lc = to_ascii_lower(raw[n - 1]);
    if to_ascii_lower(raw[n - 2]) != k_lc {
        return None;
    }
    if !is_transform_trigger_char(k_lc, opts) {
        return None;
    }
    Some(k_lc)
}

/// Some rule key ends in `key_lc` (up to ASCII case).
fn is_transform_trigger_char(key_lc: char, opts: &ComposeOpts) -> (r: bool)
    requires
        opts.wf(),
    ensures
        r == is_trigger_key(key_lc, *opts),
{
    let ghost m = opts.rules();
    let mut k: usize = 0;
    while k < opts.transform_rules.len()
        invariant
            k <= opts.transform_rules@.len(),
            m == opts.rules(),
            m.len() == opts.transform_rules@.len(),
            forall|j: int| 0 <= j < k ==> !((#[trigger] m[j]).0.len() > 0 && ascii_lower(m[j].0.last()) == key_lc),
        decreases opts.transform_rules@.len() - k,
    {
        let key = &opts.transform_rules[k].0;
        assert(m[k as int].0 == opts.transform_rules@[k as int].0@);
        if key.len() > 0 && to_ascii_lower(key[key.len() - 1]) == key_lc {
            return true;
        }
        k += 1;
    }
    false
}

// ── Recomposition helpers ────────────────────────────────────────────────────

/// Segment + transform + tone of `raw`, with the marks that fired.
fn recompute_prefix_marks(raw: &[char], opts: &ComposeOpts, allow_nonadjacent: bool)
    -> (r: (String, Vec<AppliedMark>))
    requires
        opts.wf(),
    ensures
        (r.0@, r.1@) == recompute_spec(raw@, *opts, allow_nonadjacent),
{
    if raw.len() == 0 {
        return (String::new(), Vec::new());
    }
    let seg = segment(raw, opts, allow_nonadjacent);
    let (transformed, applied) = apply_transforms(seg.base.as_str(), seg.transforms.as_slice(), opts);
    if seg.tones.len() > 0 {
        let last = seg.tones[seg.tones.len() - 1];
        match apply_tone(transformed.as_str(), last, opts) {
            Some(t) => (t, applied),
            None => (transformed, applied),
        }
    } else {
        (transformed, applied)
    }
}

/// Segment + transform of `raw`; the tone keys are dropped.
fn apply_transforms_only(raw: &[char], opts: &ComposeOpts, allow_nonadjacent: bool) -> (r: String)
    requires
        opts.wf(),
    ensures
        r@ == transforms_only_spec(raw@, *opts, allow_nonadjacent),
{
    if raw.len() == 0 {
        return String::new();
    }
    let seg = segment(raw, opts, allow_nonadjacent);
    let (text, _) = apply_transforms(seg.base.as_str(), seg.transforms.as_slice(), opts);
    text
}

/// Segment + transform + tone of `raw`; `None` when `raw` is empty.
fn compose_base_and_transforms_with_tone(raw: &[char], opts: &ComposeOpts, allow_nonadjacent: bool)
    -> (r: Option<String>)
    requires
        opts.wf(),
    ensures
        match r {
            Some(s) => raw@.len() > 0 && s@ == recompute_spec(raw@, *opts, allow_nonadjacent).0,
            None => raw@.len() == 0,
        },
{
    if raw.len() == 0 {
        return None;
    }
    let (text, _) = recompute_prefix_marks(raw, opts, allow_nonadjacent);
    Some(text)
}

/// Remove the tone from the first char of `text` carrying `expected_tone`.
fn strip_tone_from_text(text: &str, expected_tone: ToneMark) -> (r: Option<String>)
    ensures
        match r {
            Some(s) => strip_tone_from(text@, expected_tone, 0) == Some(s@),
            None => strip_tone_from(text@, expected_tone, 0) is None,
        },
{
    let chars = str_chars(text);
    let mut i: usize = 0;
    while i < chars.len()
        invariant
            i <= chars@.len(),
            chars@ == text@,
            strip_tone_from(text@, expected_tone, 0) == strip_tone_from(text@, expected_tone, i as int),
        decreases chars@.len() - i,
    {
        let (_, found) = crate::tone::strip(chars[i]);
        if found == expected_tone {
            let stripped = crate::tone::apply(chars[i], ToneMark::NoTone);
            let mut v = crate::text::chars_to_vec(chars.as_slice());
            v.set(i, stripped);
            return Some(chars_to_string(v.as_slice()));
        }
        i += 1;
    }
    None
}

} // verus!
