//! Permutation matching: flexible typing where marks come in any order.
//!
//! The input is split into a base word and its marks (Telex `w z f j`, and
//! `s r x` once a vowel has been typed; VNI digits and the same letter tone
//! keys), and the marks are then applied to the last vowel cluster of the
//! base: transforms to the first vowel that takes them (`w`/`7` on `uo`
//! hook both, VNI `9` turns the word's `d` into `đ`), tones to the vowel
//! the vowel-sequence table names, else to the vowel the placement rules
//! choose. So `truongwf` splits into `truong` with `w`, `f`, and applying
//! those gives `trường`.

use vstd::prelude::*;
use crate::text::{is_ascii_digit, is_upper, upper_of, char_is_upper, char_upper, str_chars, chars_to_string};
use crate::pipeline::config::{ToneConfig, ToneMark, ToneStyle};
use crate::tone::placement::{place, place_spec, law_place_inside};
use crate::tone::tables::{table_lower, vowel_row_of, tone_col_of, table_lower_at, vowel_row, tone_col};
use crate::vowel::cluster::{normalize_vowel_spec, normalize_vowel, find_vowel_clusters, VowelCluster, are_clusters_of,
    lemma_last_cluster_unique, is_vowel, is_vowel_spec};
use crate::vowel::sequences::first_seq_index;

verus! {

/// A diacritic or tone mark to apply.
#[derive(Debug, Clone, Copy, PartialEq, Eq, Structural)]
pub enum MarkOp {
    /// Transform mark (Telex: w, z; VNI: 6, 7, 8, 9)
    Transform(char),
    /// Tone mark (Telex: s, f, r, x, j, VNI: 1-5)
    Tone(char),
}

// ── Splitting marks from the base ────────────────────────────────────────────

/// Telex marks are `w s f r x j z` (either case); VNI marks are digits.
pub open spec fn is_mark_key_spec(ch: char, is_vni: bool) -> bool {
    if is_vni {
        is_ascii_digit(ch)
    } else {
        matches!(ch, 'w' | 'W' | 's' | 'S' | 'f' | 'F' | 'r' | 'R' | 'x' | 'X' | 'j' | 'J' | 'z' | 'Z')
    }
}

/// Telex transform marks are `w z`; VNI transform marks are `6 7 8 9`.
pub open spec fn is_transform_mark_spec(ch: char, is_vni: bool) -> bool {
    if is_vni {
        matches!(ch, '6' | '7' | '8' | '9')
    } else {
        matches!(ch, 'w' | 'W' | 'z' | 'Z')
    }
}

/// The mark operation a mark key stands for.
pub open spec fn mark_op_of(ch: char, is_vni: bool) -> MarkOp {
    if is_transform_mark_spec(ch, is_vni) { MarkOp::Transform(ch) } else { MarkOp::Tone(ch) }
}

/// Whether `s` holds a vowel.
pub open spec fn has_vowel(s: Seq<char>) -> bool {
    exists|k: int| 0 <= k < s.len() && is_vowel_spec(#[trigger] s[k])
}

/// Tone keys that are also onset consonants (`s r x`, either case).
pub open spec fn is_onset_letter_key(ch: char) -> bool {
    matches!(ch, 's' | 'S' | 'r' | 'R' | 'x' | 'X')
}

/// Letter tone keys (`s f r x j`, either case).
pub open spec fn is_letter_tone_key(ch: char) -> bool {
    matches!(ch, 's' | 'S' | 'f' | 'F' | 'r' | 'R' | 'x' | 'X' | 'j' | 'J')
}

/// Whether `ch`, typed after the base letters `before`, is taken as a mark.
/// Letters that can only be marks (`w z f j` in Telex) are marks wherever
/// they stand; `s r x` are onset consonants until a vowel has been typed, so
/// they are marks only after one. In VNI every digit is a mark, and so are
/// the letter tone keys under the same rule.
pub open spec fn takes_as_mark(before: Seq<char>, ch: char, is_vni: bool) -> bool {
    let letter_mark = if is_onset_letter_key(ch) { has_vowel(before) } else { is_letter_tone_key(ch) };
    if is_vni {
        is_ascii_digit(ch) || letter_mark
    } else {
        matches!(ch, 'w' | 'W' | 'z' | 'Z') || letter_mark
    }
}

/// (base, marks) of `s`: the chars not taken as marks, in order, and the
/// marks in order (see `takes_as_mark`).
pub open spec fn split_marks(s: Seq<char>, is_vni: bool) -> (Seq<char>, Seq<MarkOp>)
    decreases s.len(),
{
    if s.len() == 0 {
        (Seq::empty(), Seq::empty())
    } else {
        let prev = split_marks(s.drop_last(), is_vni);
        let c = s.last();
        if takes_as_mark(prev.0, c, is_vni) {
            (prev.0, prev.1.push(mark_op_of(c, is_vni)))
        } else {
            (prev.0.push(c), prev.1)
        }
    }
}

/// Check if a character is a mark key.
pub fn is_mark_key(ch: char, is_vni: bool) -> (r: bool)
    ensures
        r == is_mark_key_spec(ch, is_vni),
{
    if is_vni {
        '0' <= ch && ch <= '9'
    } else {
        matches!(ch, 'w' | 'W' | 's' | 'S' | 'f' | 'F' | 'r' | 'R' | 'x' | 'X' | 'j' | 'J' | 'z' | 'Z')
    }
}

/// Check if a mark is a transform mark (vs tone mark).
pub fn is_transform_mark(ch: char, is_vni: bool) -> (r: bool)
    ensures
        r == is_transform_mark_spec(ch, is_vni),
{
    if is_vni {
        matches!(ch, '6' | '7' | '8' | '9')
    } else {
        matches!(ch, 'w' | 'W' | 'z' | 'Z')
    }
}

/// Split `input` into its base word and its marks, both in typing order:
/// `truongwf` gives `truong` with `w`, `f` (the `r` before the first vowel
/// is an onset consonant), and in VNI `truong6f` gives `truong` with `6`,
/// `f`. See `takes_as_mark` for which keys are marks.
pub fn extract_base_and_marks(input: &str, is_vni: bool) -> (r: (String, Vec<MarkOp>))
    ensures
        (r.0@, r.1@) == split_marks(input@, is_vni),
{
    let chars = str_chars(input);
    let mut base: Vec<char> = Vec::new();
    let mut marks: Vec<MarkOp> = Vec::new();
    let mut seen_vowel = false;
    let mut i: usize = 0;
    while i < chars.len()
        invariant
            i <= chars@.len(),
            chars@ == input@,
            (base@, marks@) == split_marks(chars@.take(i as int), is_vni),
            seen_vowel == has_vowel(base@),
        decreases chars@.len() - i,
    {
        assert(chars@.take(i + 1).drop_last() =~= chars@.take(i as int));
        let ch = chars[i];
        let onset_letter = matches!(ch, 's' | 'S' | 'r' | 'R' | 'x' | 'X');
        let letter_mark = if onset_letter {
            seen_vowel
        } else {
            matches!(ch, 'f' | 'F' | 'j' | 'J')
        };
        let is_mark = if is_vni {
            ('0' <= ch && ch <= '9') || letter_mark
        } else {
            matches!(ch, 'w' | 'W' | 'z' | 'Z') || letter_mark
        };
        if is_mark {
            let op = if is_transform_mark(ch, is_vni) { MarkOp::Transform(ch) } else { MarkOp::Tone(ch) };
            marks.push(op);
        } else {
            let ghost before = base@;
            base.push(ch);
            proof {
                if is_vowel_spec(ch) {
                    assert(base@[before.len() as int] == ch);
                }
                if has_vowel(before) {
                    let k = choose|k: int| 0 <= k < before.len() && is_vowel_spec(#[trigger] before[k]);
                    assert(base@[k] == before[k]);
                }
                if has_vowel(base@) {
                    let k = choose|k: int| 0 <= k < base@.len() && is_vowel_spec(#[trigger] base@[k]);
                    if k < before.len() {
                        assert(before[k] == base@[k]);
                    }
                }
            }
            seen_vowel = seen_vowel || is_vowel(ch);
        }
        i += 1;
    }
    assert(chars@.take(chars@.len() as int) =~= chars@);
    (chars_to_string(base.as_slice()), marks)
}

// ── Transforms on a cluster ──────────────────────────────────────────────────

/// What transform `mark` makes of base letter `v`, if anything: Telex `w`
/// (o→ơ, u→ư, a→ă, e→ê), VNI `6` (a→ă, e→ê, o→ô), `7` (a→â, o→ơ, u→ư),
/// `8` (a→ă), `9` (d→đ).
pub open spec fn transform_target(mark: char, v: char) -> Option<char> {
    if mark == 'w' || mark == 'W' {
        match v { 'o' => Some('ơ'), 'u' => Some('ư'), 'a' => Some('ă'), 'e' => Some('ê'), _ => None }
    } else if mark == '6' {
        match v { 'a' => Some('ă'), 'e' => Some('ê'), 'o' => Some('ô'), _ => None }
    } else if mark == '7' {
        match v { 'a' => Some('â'), 'o' => Some('ơ'), 'u' => Some('ư'), _ => None }
    } else if mark == '8' {
        match v { 'a' => Some('ă'), _ => None }
    } else if mark == '9' {
        match v { 'd' => Some('đ'), _ => None }
    } else {
        None
    }
}

/// The horn marks (Telex `w`, VNI `7`) hook `uo` as a pair: `ươ`.
pub open spec fn hooks_pair(mark: char) -> bool {
    mark == 'w' || mark == 'W' || mark == '7'
}

/// The char `mark` turns `ch` into (`ch` being a target of the mark): the
/// transform of its base letter; `9` keeps the case of `D`.
pub open spec fn transformed_char(mark: char, ch: char) -> char {
    if mark == '9' && ch == 'D' {
        'Đ'
    } else {
        transform_target(mark, normalize_vowel_spec(ch)).unwrap()
    }
}

/// First index in `[from, end)` whose letter `mark` transforms.
pub open spec fn first_target(s: Seq<char>, mark: char, from: int, end: int) -> Option<int>
    decreases end - from,
{
    if from < 0 || from >= end {
        None
    } else if transform_target(mark, normalize_vowel_spec(s[from])) is Some {
        Some(from)
    } else {
        first_target(s, mark, from + 1, end)
    }
}

/// Where `mark` looks for its target: the whole word for `9` (its `d` is a
/// consonant), else the cluster.
pub open spec fn target_range(s: Seq<char>, c: VowelCluster, mark: char) -> (int, int) {
    if mark == '9' { (0, s.len() as int) } else { (c.start_pos as int, c.end_pos as int) }
}

/// What [`apply_transform_to_cluster`] returns: the first letter in range
/// that `mark` transforms is transformed; a horn mark on `u` followed by `o`
/// in the cluster hooks both; `None` when nothing in range takes the mark.
pub open spec fn transform_cluster_spec(s: Seq<char>, c: VowelCluster, mark: char) -> Option<Seq<char>> {
    let hi = target_range(s, c, mark).1;
    match first_target(s, mark, target_range(s, c, mark).0, hi) {
        Some(i) => if hooks_pair(mark) && normalize_vowel_spec(s[i]) == 'u' && i + 1 < hi
            && normalize_vowel_spec(s[i + 1]) == 'o' {
            Some(s.update(i, 'ư').update(i + 1, 'ơ'))
        } else {
            Some(s.update(i, transformed_char(mark, s[i])))
        },
        None => None,
    }
}

fn transform_target_of(mark: char, v: char) -> (r: Option<char>)
    ensures
        r == transform_target(mark, v),
{
    if mark == 'w' || mark == 'W' {
        match v { 'o' => Some('ơ'), 'u' => Some('ư'), 'a' => Some('ă'), 'e' => Some('ê'), _ => None }
    } else if mark == '6' {
        match v { 'a' => Some('ă'), 'e' => Some('ê'), 'o' => Some('ô'), _ => None }
    } else if mark == '7' {
        match v { 'a' => Some('â'), 'o' => Some('ơ'), 'u' => Some('ư'), _ => None }
    } else if mark == '8' {
        match v { 'a' => Some('ă'), _ => None }
    } else if mark == '9' {
        match v { 'd' => Some('đ'), _ => None }
    } else {
        None
    }
}

/// Apply a transform mark: to the first vowel of `cluster` that takes it —
/// Telex `w` (o→ơ, u→ư, a→ă, e→ê), VNI `6` (a→ă, e→ê, o→ô), `7` (a→â,
/// o→ơ, u→ư), `8` (a→ă); `w` and `7` on `uo` give `ươ` — or, for VNI `9`,
/// to the first `d` of the word (d→đ, D→Đ).
pub fn apply_transform_to_cluster(base: &str, cluster: &VowelCluster, mark: char, _config: &ToneConfig)
    -> (r: Option<String>)
    requires
        cluster.end_pos <= base@.len(),
    ensures
        match r {
            Some(s) => transform_cluster_spec(base@, *cluster, mark) == Some(s@) && s@.len() == base@.len(),
            None => transform_cluster_spec(base@, *cluster, mark) is None,
        },
{
    let mut chars = str_chars(base);
    let (lo, hi) = if mark == '9' { (0, chars.len()) } else { (cluster.start_pos, cluster.end_pos) };
    assert(target_range(base@, *cluster, mark) == (lo as int, hi as int));
    let mut i: usize = lo;
    while i < hi
        invariant
            hi <= chars@.len(),
            chars@ == base@,
            target_range(base@, *cluster, mark) == (lo as int, hi as int),
            lo <= i || hi <= i,
            first_target(base@, mark, lo as int, hi as int) == first_target(base@, mark, i as int, hi as int),
        decreases hi - i,
    {
        let ch = chars[i];
        match transform_target_of(mark, normalize_vowel(ch)) {
            Some(t) => {
                let horn = mark == 'w' || mark == 'W' || mark == '7';
                if horn && normalize_vowel(ch) == 'u' && i + 1 < hi && normalize_vowel(chars[i + 1]) == 'o' {
                    chars.set(i, 'ư');
                    chars.set(i + 1, 'ơ');
                } else {
                    let t2 = if mark == '9' && ch == 'D' { 'Đ' } else { t };
                    chars.set(i, t2);
                }
                return Some(chars_to_string(chars.as_slice()));
            },
            None => {},
        }
        i += 1;
    }
    None
}

// ── Tones on a cluster ───────────────────────────────────────────────────────

/// The tone a Telex or VNI tone key stands for.
pub open spec fn tone_of_key(k: char) -> Option<ToneMark> {
    match k {
        's' | '1' => Some(ToneMark::Acute),
        'f' | '2' => Some(ToneMark::Grave),
        'r' | '3' => Some(ToneMark::Hook),
        'x' | '4' => Some(ToneMark::Tilde),
        'j' | '5' => Some(ToneMark::Dot),
        _ => None,
    }
}

/// What [`apply_tone_to_vowel`] returns: the base vowel with the key's tone,
/// uppercased when `vowel` is uppercase.
pub open spec fn tone_vowel_spec(vowel: char, tone_key: char) -> Option<char> {
    match (vowel_row_of(normalize_vowel_spec(vowel)), tone_of_key(tone_key)) {
        (Some(row), Some(t)) => {
            let toned = table_lower(row, tone_col_of(t));
            Some(if is_upper(vowel) { upper_of(toned) } else { toned })
        },
        _ => None,
    }
}

/// Apply a tone key (Telex `s f r x j`, VNI `1`-`5`) to a single vowel.
pub fn apply_tone_to_vowel(vowel: char, tone_key: char) -> (r: Option<char>)
    ensures
        r == tone_vowel_spec(vowel, tone_key),
{
    let base = normalize_vowel(vowel);
    let tone = match tone_key {
        's' | '1' => ToneMark::Acute,
        'f' | '2' => ToneMark::Grave,
        'r' | '3' => ToneMark::Hook,
        'x' | '4' => ToneMark::Tilde,
        'j' | '5' => ToneMark::Dot,
        _ => return None,
    };
    let row = match vowel_row(base) {
        Some(row) => row,
        None => return None,
    };
    let toned = table_lower_at(row, tone_col(tone));
    Some(if char_is_upper(vowel) { char_upper(toned) } else { toned })
}

/// Position that gets the tone in cluster `c` of `s`: from the
/// vowel-sequence table when it is non-empty and lists the cluster (`None`
/// when that entry has no tone position); otherwise by the placement rules
/// on the cluster's vowels as they now stand in `s` (a super vowel first, so
/// `ươ` takes it on `ơ`), in the old style (`hòa`), with a final consonant
/// when a letter follows the cluster.
pub open spec fn cluster_tone_pos(s: Seq<char>, c: VowelCluster, config: ToneConfig) -> Option<int> {
    let e = config.vowel_sequences.entries();
    if e.len() > 0 && first_seq_index(e, c.vowels@, 0) is Some {
        let info = e[first_seq_index(e, c.vowels@, 0).unwrap()];
        if info.tone_positions@.len() > 0 {
            Some(c.start_pos + info.tone_positions@[0])
        } else {
            None
        }
    } else {
        match place_spec(s.subrange(c.start_pos as int, c.end_pos as int), ToneStyle::Old, c.end_pos < s.len()) {
            Some(k) => Some(c.start_pos + k),
            None => None,
        }
    }
}

/// What [`apply_tone_to_cluster`] returns.
pub open spec fn tone_cluster_spec(s: Seq<char>, c: VowelCluster, tone_key: char, config: ToneConfig) -> Option<Seq<char>> {
    match cluster_tone_pos(s, c, config) {
        None => None,
        Some(p) => match tone_vowel_spec(s[p], tone_key) {
            Some(t) => Some(s.update(p, t)),
            None => None,
        },
    }
}

/// Apply a tone key to the vowel of `cluster` that should carry the tone
/// (see `cluster_tone_pos`).
pub fn apply_tone_to_cluster(base: &str, cluster: &VowelCluster, tone_key: char, config: &ToneConfig)
    -> (r: Option<String>)
    requires
        cluster.start_pos <= cluster.end_pos <= base@.len(),
        cluster_tone_pos(base@, *cluster, *config) matches Some(p) ==> 0 <= p < base@.len(),
    ensures
        match r {
            Some(s) => tone_cluster_spec(base@, *cluster, tone_key, *config) == Some(s@) && s@.len() == base@.len(),
            None => tone_cluster_spec(base@, *cluster, tone_key, *config) is None,
        },
{
    let mut chars = str_chars(base);
    let from_table = if !config.vowel_sequences.is_empty() {
        let cluster_str = chars_to_string(cluster.vowels.as_slice());
        assert(cluster_str@ == cluster.vowels@);
        match config.vowel_sequences.find(cluster_str.as_str()) {
            Some(info) => match info.primary_tone_position() {
                Some(pos) => {
                    assert(first_seq_index(config.vowel_sequences.entries(), cluster.vowels@, 0) is Some);
                    assert(cluster_tone_pos(base@, *cluster, *config) == Some(cluster.start_pos + pos));
                    assert(cluster.start_pos + pos < chars.len());
                    Some(cluster.start_pos + pos)
                },
                None => return None,
            },
            None => None,
        }
    } else {
        None
    };
    let tone_pos = match from_table {
        Some(p) => p,
        None => {
            let mut nucleus: Vec<char> = Vec::new();
            let mut k: usize = cluster.start_pos;
            while k < cluster.end_pos
                invariant
                    cluster.start_pos <= k <= cluster.end_pos <= chars@.len(),
                    chars@ == base@,
                    nucleus@ == chars@.subrange(cluster.start_pos as int, k as int),
                decreases cluster.end_pos - k,
            {
                nucleus.push(chars[k]);
                k += 1;
                assert(nucleus@ =~= chars@.subrange(cluster.start_pos as int, k as int));
            }
            let has_final = cluster.end_pos < chars.len();
            match place(nucleus.as_slice(), ToneStyle::Old, has_final) {
                Some(i) => cluster.start_pos + i,
                None => return None,
            }
        },
    };
    match apply_tone_to_vowel(chars[tone_pos], tone_key) {
        Some(t) => {
            chars.set(tone_pos, t);
            Some(chars_to_string(chars.as_slice()))
        },
        None => None,
    }
}

// ── Applying all marks ───────────────────────────────────────────────────────

/// Result of applying `marks` in order to `s` on cluster `c`; `None` as soon
/// as one mark cannot be applied.
pub open spec fn marks_upto(s: Seq<char>, marks: Seq<MarkOp>, c: VowelCluster, config: ToneConfig, n: nat) -> Option<Seq<char>>
    decreases n,
{
    if n == 0 {
        Some(s)
    } else {
        match marks_upto(s, marks, c, config, (n - 1) as nat) {
            None => None,
            Some(prev) => match marks[n - 1] {
                MarkOp::Transform(ch) => transform_cluster_spec(prev, c, ch),
                MarkOp::Tone(ch) => tone_cluster_spec(prev, c, ch, config),
            },
        }
    }
}

/// The cluster and table agree: every tone position a table entry gives lies
/// inside its sequence.
pub open spec fn table_positions_inside(config: ToneConfig) -> bool {
    forall|i: int| 0 <= i < config.vowel_sequences.entries().len() ==>
        forall|k: int| 0 <= k < (#[trigger] config.vowel_sequences.entries()[i]).tone_positions@.len() ==>
            config.vowel_sequences.entries()[i].tone_positions@[k] < config.vowel_sequences.entries()[i].sequence@.len()
}

/// What [`apply_marks_permutation`] returns: `None` when `base` has no vowel
/// cluster, else the marks applied in order on its last cluster.
pub open spec fn permutation_spec(base: Seq<char>, marks: Seq<MarkOp>, clusters: Seq<VowelCluster>, config: ToneConfig) -> Option<Seq<char>> {
    if clusters.len() == 0 {
        None
    } else {
        marks_upto(base, marks, clusters.last(), config, marks.len())
    }
}

proof fn lemma_marks_none_stays(s: Seq<char>, marks: Seq<MarkOp>, c: VowelCluster, config: ToneConfig, n: nat, m: nat)
    requires
        n <= m,
        marks_upto(s, marks, c, config, n) is None,
    ensures
        marks_upto(s, marks, c, config, m) is None,
    decreases m - n,
{
    if n < m {
        lemma_marks_none_stays(s, marks, c, config, n, (m - 1) as nat);
    }
}

proof fn lemma_marks_upto_same_bounds(s: Seq<char>, marks: Seq<MarkOp>, c1: VowelCluster, c2: VowelCluster, config: ToneConfig, n: nat)
    requires
        c1.start_pos == c2.start_pos,
        c1.end_pos == c2.end_pos,
        c1.vowels@ == c2.vowels@,
    ensures
        marks_upto(s, marks, c1, config, n) == marks_upto(s, marks, c2, config, n),
    decreases n,
{
    if n > 0 {
        lemma_marks_upto_same_bounds(s, marks, c1, c2, config, (n - 1) as nat);
    }
}

/// The result does not depend on which clustering of `base` is used.
proof fn lemma_permutation_spec_unique(base: Seq<char>, marks: Seq<MarkOp>, cs1: Seq<VowelCluster>, cs2: Seq<VowelCluster>, config: ToneConfig)
    requires
        are_clusters_of(base, cs1),
        are_clusters_of(base, cs2),
    ensures
        permutation_spec(base, marks, cs1, config) == permutation_spec(base, marks, cs2, config),
{
    lemma_last_cluster_unique(base, cs1, cs2);
    if cs1.len() > 0 {
        lemma_marks_upto_same_bounds(base, marks, cs1.last(), cs2.last(), config, marks.len());
    }
}

/// Apply `marks` to `base` on its last vowel cluster.
pub fn apply_marks_permutation(base: &str, marks: &[MarkOp], config: &ToneConfig) -> (r: Option<String>)
    requires
        table_positions_inside(*config),
    ensures
        forall|clusters: Seq<VowelCluster>| #[trigger] are_clusters_of(base@, clusters)
            ==> match r {
                Some(s) => permutation_spec(base@, marks@, clusters, *config) == Some(s@),
                None => permutation_spec(base@, marks@, clusters, *config) is None,
            },
{
    let clusters = find_vowel_clusters(base);
    if clusters.len() == 0 {
        proof {
            assert forall|cs: Seq<VowelCluster>| #[trigger] are_clusters_of(base@, cs)
                implies permutation_spec(base@, marks@, cs, *config) is None by {
                lemma_last_cluster_unique(base@, clusters@, cs);
            }
        }
        return None;
    }
    let cluster = &clusters[clusters.len() - 1];
    proof {
        assert(crate::vowel::cluster::is_cluster_of(base@, clusters@.last()));
    }
    let mut result = str_chars(base);
    let mut i: usize = 0;
    while i < marks.len()
        invariant
            i <= marks@.len(),
            table_positions_inside(*config),
            crate::vowel::cluster::is_cluster_of(base@, *cluster),
            are_clusters_of(base@, clusters@),
            clusters@.len() > 0,
            *cluster == clusters@.last(),
            result@.len() == base@.len(),
            marks_upto(base@, marks@, *cluster, *config, i as nat) == Some(result@),
        decreases marks@.len() - i,
    {
        let s = chars_to_string(result.as_slice());
        let next = match marks[i] {
            MarkOp::Transform(ch) => apply_transform_to_cluster(s.as_str(), cluster, ch, config),
            MarkOp::Tone(ch) => {
                proof {
                    let e = config.vowel_sequences.entries();
                    if e.len() > 0 && first_seq_index(e, cluster.vowels@, 0) is Some {
                        let k = first_seq_index(e, cluster.vowels@, 0).unwrap();
                        lemma_first_seq_index_bounds(e, cluster.vowels@, 0);
                        assert(e[k].sequence@ == cluster.vowels@);
                    } else {
                        law_place_inside(
                            s@.subrange(cluster.start_pos as int, cluster.end_pos as int),
                            ToneStyle::Old,
                            cluster.end_pos < s@.len(),
                        );
                    }
                }
                apply_tone_to_cluster(s.as_str(), cluster, ch, config)
            },
        };
        match next {
            Some(n) => {
                result = str_chars(n.as_str());
            },
            None => {
                proof {
                    lemma_marks_none_stays(base@, marks@, *cluster, *config, (i + 1) as nat, marks@.len());
                    assert forall|cs: Seq<VowelCluster>| #[trigger] are_clusters_of(base@, cs)
                        implies permutation_spec(base@, marks@, cs, *config) is None by {
                        lemma_permutation_spec_unique(base@, marks@, clusters@, cs, *config);
                    }
                }
                return None;
            },
        }
        i += 1;
    }
    assert(marks@.take(marks@.len() as int) =~= marks@);
    let out = chars_to_string(result.as_slice());
    proof {
        assert forall|cs: Seq<VowelCluster>| #[trigger] are_clusters_of(base@, cs)
            implies permutation_spec(base@, marks@, cs, *config) == Some(out@) by {
            lemma_permutation_spec_unique(base@, marks@, clusters@, cs, *config);
        }
    }
    Some(out)
}

proof fn lemma_first_seq_index_bounds(e: Seq<crate::vowel::sequences::VowelSeqInfo>, key: Seq<char>, from: int)
    ensures
        first_seq_index(e, key, from) matches Some(k) ==> from <= k < e.len() && e[k].sequence@ == key,
    decreases e.len() - from,
{
    if 0 <= from < e.len() && e[from].sequence@ != key {
        lemma_first_seq_index_bounds(e, key, from + 1);
    }
}

} // verus!
