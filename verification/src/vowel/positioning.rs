//! Tone positioning on a vowel cluster: by Vietnamese phonology, by free
//! marking (nearest vowel to where the tone key was typed), or by a vowel
//! sequence table.

use vstd::prelude::*;
use crate::text::{lower_of, char_lower, str_chars, chars_to_lowercase, std_str_lower};
use super::cluster::{ClusterType, VowelCluster};
use super::sequences::{VowelSeqTable, is_first_match, VowelSeqInfo};

verus! {

/// Tone positioning mode.
#[derive(Debug, Clone, Copy, PartialEq, Eq, Structural)]
pub enum TonePositioningMode {
    /// Follow Vietnamese phonology rules
    Phonology,
    /// Allow tone on any vowel (free marking)
    Free,
}

/// ă, â, ê, ô, ơ in either case.
pub open spec fn is_super_vowel_spec(ch: char) -> bool {
    let l = lower_of(ch);
    l == 'ă' || l == 'â' || l == 'ê' || l == 'ô' || l == 'ơ'
}

/// Check if a vowel is a "super vowel" (ă, â, ê, ô, ơ).
pub fn is_super_vowel(ch: char) -> (r: bool)
    ensures r == is_super_vowel_spec(ch),
{
    let l = char_lower(ch);
    l == 'ă' || l == 'â' || l == 'ê' || l == 'ô' || l == 'ơ'
}

/// Index (within the cluster) of its first super vowel.
pub open spec fn first_super(v: Seq<char>, k: nat) -> Option<int>
    decreases k,
{
    if k == 0 {
        None
    } else {
        match first_super(v, (k - 1) as nat) {
            Some(i) => Some(i),
            None => if is_super_vowel_spec(v[k - 1]) { Some(k - 1) } else { None },
        }
    }
}

/// Whether the lowercase form of `s` starts with `a` followed by `b`.
pub open spec fn lower_starts_with(s: Seq<char>, a: char, b: char) -> bool {
    let l = std_str_lower(s);
    l.len() >= 2 && l[0] == a && l[1] == b
}

/// Absolute position chosen by the phonology rules.
pub open spec fn phonology_position(syllable: Seq<char>, c: VowelCluster) -> int {
    let n = c.vowels@.len();
    match first_super(c.vowels@, n) {
        Some(i) => c.start_pos + i,
        None => if (lower_starts_with(syllable, 'q', 'u') || lower_starts_with(syllable, 'g', 'i')) && n >= 2 {
            c.start_pos + 1
        } else if n == 3 {
            c.start_pos + 1
        } else if n == 2 {
            match c.cluster_type {
                ClusterType::DoubleOA => c.start_pos + 1,
                ClusterType::CompoundUO => c.start_pos + 1,
                _ => c.start_pos as int,
            }
        } else {
            c.start_pos as int
        },
    }
}

/// Find the tone position using Vietnamese phonology rules: super vowel
/// first, then the vowel after "qu"/"gi", the middle of a triple, the second
/// vowel of oa/oe and uo/ươ, otherwise the first vowel.
pub fn find_phonology_position(syllable: &str, cluster: &VowelCluster) -> (r: Option<usize>)
    requires
        cluster.start_pos + cluster.vowels@.len() + 1 <= usize::MAX,
    ensures
        r == Some(phonology_position(syllable@, *cluster) as usize),
        phonology_position(syllable@, *cluster) >= 0,
{
    let n = cluster.vowels.len();
    let mut i: usize = 0;
    while i < n
        invariant
            i <= n,
            n == cluster.vowels@.len(),
            cluster.start_pos + cluster.vowels@.len() + 1 <= usize::MAX,
            first_super(cluster.vowels@, i as nat) is None,
        decreases n - i,
    {
        if is_super_vowel(cluster.vowels[i]) {
            assert(first_super(cluster.vowels@, (i + 1) as nat) == Some(i as int));
            proof { lemma_first_super_stable(cluster.vowels@, (i + 1) as nat, n as nat); }
            return Some(cluster.start_pos + i);
        }
        i += 1;
    }
    let chars = str_chars(syllable);
    let lower = chars_to_lowercase(chars.as_slice());
    let qu = lower.len() >= 2 && lower[0] == 'q' && lower[1] == 'u';
    let gi = lower.len() >= 2 && lower[0] == 'g' && lower[1] == 'i';
    if (qu || gi) && n >= 2 {
        return Some(cluster.start_pos + 1);
    }
    if n == 3 {
        return Some(cluster.start_pos + 1);
    }
    if n == 2 {
        return match cluster.cluster_type {
            ClusterType::DoubleOA => Some(cluster.start_pos + 1),
            ClusterType::CompoundUO => Some(cluster.start_pos + 1),
            _ => Some(cluster.start_pos),
        };
    }
    Some(cluster.start_pos)
}

proof fn lemma_first_super_stable(v: Seq<char>, k: nat, n: nat)
    requires
        k <= n,
        first_super(v, k) is Some,
    ensures
        first_super(v, n) == first_super(v, k),
    decreases n - k,
{
    if k < n {
        lemma_first_super_stable(v, k, (n - 1) as nat);
    }
}

/// Distance between two positions.
pub open spec fn dist(a: int, b: int) -> int {
    if a >= b { a - b } else { b - a }
}

/// Position of the vowel of the cluster nearest to `input_pos`; the earliest
/// one wins a tie.
pub open spec fn nearest_position(c: VowelCluster, input_pos: int) -> int
    decreases c.vowels@.len(),
{
    nearest_upto(c.start_pos as int, c.vowels@.len(), input_pos)
}

/// Nearest of the positions `start .. start + k` to `input_pos` (earliest on ties).
pub open spec fn nearest_upto(start: int, k: nat, input_pos: int) -> int
    decreases k,
{
    if k <= 1 {
        start
    } else {
        let prev = nearest_upto(start, (k - 1) as nat, input_pos);
        let cand = start + k - 1;
        if dist(input_pos, cand) < dist(input_pos, prev) { cand } else { prev }
    }
}

proof fn lemma_nearest_bounds(start: int, k: nat, input_pos: int)
    ensures
        k >= 1 ==> start <= nearest_upto(start, k, input_pos) < start + k,
        k == 0 ==> nearest_upto(start, k, input_pos) == start,
    decreases k,
{
    if k > 1 {
        lemma_nearest_bounds(start, (k - 1) as nat, input_pos);
    }
}

/// Find the tone position by free marking: the vowel of the cluster nearest
/// to where the tone key was typed. `None` when no input position is given.
pub fn find_free_position(cluster: &VowelCluster, input_pos: Option<usize>) -> (r: Option<usize>)
    requires
        cluster.start_pos + cluster.vowels@.len() <= usize::MAX,
    ensures
        match input_pos {
            None => r is None,
            Some(p) => r == Some(nearest_position(*cluster, p as int) as usize),
        },
{
    let input_pos = match input_pos {
        Some(p) => p,
        None => return None,
    };
    let start = cluster.start_pos;
    let mut closest_pos = start;
    let mut min_distance: usize = if input_pos >= start { input_pos - start } else { start - input_pos };
    let mut i: usize = 0;
    while i < cluster.vowels.len()
        invariant
            start == cluster.start_pos,
            start + cluster.vowels@.len() <= usize::MAX,
            i <= cluster.vowels@.len(),
            closest_pos as int == nearest_upto(start as int, i as nat, input_pos as int),
            min_distance as int == dist(input_pos as int, closest_pos as int),
        decreases cluster.vowels@.len() - i,
    {
        let pos = start + i;
        let distance: usize = if input_pos >= pos { input_pos - pos } else { pos - input_pos };
        if distance < min_distance {
            min_distance = distance;
            closest_pos = pos;
        }
        proof {
            lemma_nearest_bounds(start as int, i as nat, input_pos as int);
            if i == 0 {
                assert(nearest_upto(start as int, 1, input_pos as int) == start as int);
            }
        }
        i += 1;
    }
    Some(closest_pos)
}

/// Find the tone position: phonology rules or free marking, by `mode`.
pub fn find_tone_position(
    syllable: &str,
    cluster: &VowelCluster,
    mode: TonePositioningMode,
    input_pos: Option<usize>,
) -> (r: Option<usize>)
    requires
        cluster.start_pos + cluster.vowels@.len() + 1 <= usize::MAX,
    ensures
        match mode {
            TonePositioningMode::Phonology => r == Some(phonology_position(syllable@, *cluster) as usize),
            TonePositioningMode::Free => match input_pos {
                None => r is None,
                Some(p) => r == Some(nearest_position(*cluster, p as int) as usize),
            },
        },
{
    match mode {
        TonePositioningMode::Phonology => find_phonology_position(syllable, cluster),
        TonePositioningMode::Free => find_free_position(cluster, input_pos),
    }
}

/// Find the tone position from a vowel sequence table: the primary tone
/// position of the first entry whose vowels are the cluster's, offset by
/// the cluster's start.
pub fn find_tone_position_from_table(cluster: &VowelCluster, table: &VowelSeqTable) -> (r: Option<usize>)
    requires
        forall|i: int| 0 <= i < table.entries().len() && (#[trigger] table.entries()[i]).tone_positions@.len() > 0
            ==> cluster.start_pos + table.entries()[i].tone_positions@[0] <= usize::MAX,
    ensures
        match r {
            Some(p) => exists|i: int| is_first_match(table.entries(), i, |e: VowelSeqInfo| e.vowels@ == cluster.vowels@)
                && table.entries()[i].tone_positions@.len() > 0
                && p == cluster.start_pos + table.entries()[i].tone_positions@[0],
            None => forall|i: int| is_first_match(table.entries(), i, |e: VowelSeqInfo| e.vowels@ == cluster.vowels@)
                ==> table.entries()[i].tone_positions@.len() == 0,
        },
{
    let seq_info = match table.find_by_vowels(cluster.vowels.as_slice()) {
        Some(s) => s,
        None => return None,
    };
    let relative_pos = match seq_info.primary_tone_position() {
        Some(p) => p,
        None => {
            proof {
                assert forall|i: int| is_first_match(table.entries(), i, |e: VowelSeqInfo| e.vowels@ == cluster.vowels@)
                    implies table.entries()[i].tone_positions@.len() == 0 by {
                    let k = choose|k: int| is_first_match(table.entries(), k, |e: VowelSeqInfo| e.vowels@ == cluster.vowels@)
                        && *seq_info == table.entries()[k];
                    if i < k {
                        assert(!(table.entries()[i].vowels@ == cluster.vowels@));
                    } else if k < i {
                        assert(!(table.entries()[k].vowels@ == cluster.vowels@));
                    }
                }
            }
            return None;
        },
    };
    Some(cluster.start_pos + relative_pos)
}

} // verus!
