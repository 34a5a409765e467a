//! Vowel cluster detection: maximal runs of consecutive vowels in a word.

use vstd::prelude::*;
use crate::text::{lower_of, char_lower, chars_to_string, str_chars};

verus! {

/// Vowel cluster: a maximal run of consecutive vowels in a buffer.
#[derive(Debug, Clone, PartialEq)]
pub struct VowelCluster {
    /// Start position in the buffer (inclusive)
    pub start_pos: usize,
    /// End position in the buffer (exclusive)
    pub end_pos: usize,
    /// Vowel characters in the cluster (tone marks removed)
    pub vowels: Vec<char>,
    /// Type of cluster
    pub cluster_type: ClusterType,
}

/// Classification of vowel clusters based on their composition.
#[derive(Debug, Clone, Copy, PartialEq, Eq, Structural)]
pub enum ClusterType {
    /// Single vowel
    Single,
    /// Double vowel (ai, ao, …)
    Double,
    /// Triple vowel (oai, uôi, …)
    Triple,
    /// Compound uo / ươ
    CompoundUO,
    /// Double with the oa / oe pattern
    DoubleOA,
    /// Not a Vietnamese cluster shape
    Invalid,
}

impl VowelCluster {
    /// Length of the cluster.
    pub fn len(&self) -> (r: usize)
        ensures r == self.vowels@.len(),
    {
        self.vowels.len()
    }

    /// Whether the cluster is empty.
    pub fn is_empty(&self) -> (r: bool)
        ensures r == (self.vowels@.len() == 0),
    {
        self.vowels.len() == 0
    }

    /// Whether `pos` lies within this cluster.
    pub fn contains_position(&self, pos: usize) -> (r: bool)
        ensures r == (self.start_pos <= pos && pos < self.end_pos),
    {
        pos >= self.start_pos && pos < self.end_pos
    }

    /// The cluster's vowels as a string.
    pub fn to_string(&self) -> (r: String)
        ensures r@ == self.vowels@,
    {
        chars_to_string(self.vowels.as_slice())
    }
}

/// Vietnamese vowels, with or without marks, in either case.
pub open spec fn is_vowel_spec(ch: char) -> bool {
    matches!(ch,
        'a' | 'ă' | 'â' | 'e' | 'ê' | 'i' | 'o' | 'ô' | 'ơ' | 'u' |
        'ư' | 'y' | 'A' | 'Ă' | 'Â' | 'E' | 'Ê' | 'I' | 'O' | 'Ô' |
        'Ơ' | 'U' | 'Ư' | 'Y' | 'á' | 'à' | 'ả' | 'ã' | 'ạ' | 'ắ' |
        'ằ' | 'ẳ' | 'ẵ' | 'ặ' | 'ấ' | 'ầ' | 'ẩ' | 'ẫ' | 'ậ' | 'é' |
        'è' | 'ẻ' | 'ẽ' | 'ẹ' | 'ế' | 'ề' | 'ể' | 'ễ' | 'ệ' | 'í' |
        'ì' | 'ỉ' | 'ĩ' | 'ị' | 'ó' | 'ò' | 'ỏ' | 'õ' | 'ọ' | 'ố' |
        'ồ' | 'ổ' | 'ỗ' | 'ộ' | 'ớ' | 'ờ' | 'ở' | 'ỡ' | 'ợ' | 'ú' |
        'ù' | 'ủ' | 'ũ' | 'ụ' | 'ứ' | 'ừ' | 'ử' | 'ữ' | 'ự' | 'ý' |
        'ỳ' | 'ỷ' | 'ỹ' | 'ỵ' | 'Á' | 'À' | 'Ả' | 'Ã' | 'Ạ' | 'Ắ' |
        'Ằ' | 'Ẳ' | 'Ẵ' | 'Ặ' | 'Ấ' | 'Ầ' | 'Ẩ' | 'Ẫ' | 'Ậ' | 'É' |
        'È' | 'Ẻ' | 'Ẽ' | 'Ẹ' | 'Ế' | 'Ề' | 'Ể' | 'Ễ' | 'Ệ' | 'Í' |
        'Ì' | 'Ỉ' | 'Ĩ' | 'Ị' | 'Ó' | 'Ò' | 'Ỏ' | 'Õ' | 'Ọ' | 'Ố' |
        'Ồ' | 'Ổ' | 'Ỗ' | 'Ộ' | 'Ớ' | 'Ờ' | 'Ở' | 'Ỡ' | 'Ợ' | 'Ú' |
        'Ù' | 'Ủ' | 'Ũ' | 'Ụ' | 'Ứ' | 'Ừ' | 'Ử' | 'Ữ' | 'Ự' | 'Ý' |
        'Ỳ' | 'Ỷ' | 'Ỹ' | 'Ỵ'
    )
}

/// Check if a character is a Vietnamese vowel (with or without marks).
pub fn is_vowel(ch: char) -> (r: bool)
    ensures r == is_vowel_spec(ch),
{
    matches!(ch,
        'a' | 'ă' | 'â' | 'e' | 'ê' | 'i' | 'o' | 'ô' | 'ơ' | 'u' |
        'ư' | 'y' | 'A' | 'Ă' | 'Â' | 'E' | 'Ê' | 'I' | 'O' | 'Ô' |
        'Ơ' | 'U' | 'Ư' | 'Y' | 'á' | 'à' | 'ả' | 'ã' | 'ạ' | 'ắ' |
        'ằ' | 'ẳ' | 'ẵ' | 'ặ' | 'ấ' | 'ầ' | 'ẩ' | 'ẫ' | 'ậ' | 'é' |
        'è' | 'ẻ' | 'ẽ' | 'ẹ' | 'ế' | 'ề' | 'ể' | 'ễ' | 'ệ' | 'í' |
        'ì' | 'ỉ' | 'ĩ' | 'ị' | 'ó' | 'ò' | 'ỏ' | 'õ' | 'ọ' | 'ố' |
        'ồ' | 'ổ' | 'ỗ' | 'ộ' | 'ớ' | 'ờ' | 'ở' | 'ỡ' | 'ợ' | 'ú' |
        'ù' | 'ủ' | 'ũ' | 'ụ' | 'ứ' | 'ừ' | 'ử' | 'ữ' | 'ự' | 'ý' |
        'ỳ' | 'ỷ' | 'ỹ' | 'ỵ' | 'Á' | 'À' | 'Ả' | 'Ã' | 'Ạ' | 'Ắ' |
        'Ằ' | 'Ẳ' | 'Ẵ' | 'Ặ' | 'Ấ' | 'Ầ' | 'Ẩ' | 'Ẫ' | 'Ậ' | 'É' |
        'È' | 'Ẻ' | 'Ẽ' | 'Ẹ' | 'Ế' | 'Ề' | 'Ể' | 'Ễ' | 'Ệ' | 'Í' |
        'Ì' | 'Ỉ' | 'Ĩ' | 'Ị' | 'Ó' | 'Ò' | 'Ỏ' | 'Õ' | 'Ọ' | 'Ố' |
        'Ồ' | 'Ổ' | 'Ỗ' | 'Ộ' | 'Ớ' | 'Ờ' | 'Ở' | 'Ỡ' | 'Ợ' | 'Ú' |
        'Ù' | 'Ủ' | 'Ũ' | 'Ụ' | 'Ứ' | 'Ừ' | 'Ử' | 'Ữ' | 'Ự' | 'Ý' |
        'Ỳ' | 'Ỷ' | 'Ỹ' | 'Ỵ'
    )
}

/// Base form of a vowel: tone marks removed and lowercased; any other char is
/// lowercased.
pub open spec fn normalize_vowel_spec(ch: char) -> char {
    match ch {
        'á' | 'à' | 'ả' | 'ã' | 'ạ' | 'Á' | 'À' | 'Ả' | 'Ã' | 'Ạ' => 'a',
        'ắ' | 'ằ' | 'ẳ' | 'ẵ' | 'ặ' | 'Ắ' | 'Ằ' | 'Ẳ' | 'Ẵ' | 'Ặ' => 'ă',
        'ấ' | 'ầ' | 'ẩ' | 'ẫ' | 'ậ' | 'Ấ' | 'Ầ' | 'Ẩ' | 'Ẫ' | 'Ậ' => 'â',
        'é' | 'è' | 'ẻ' | 'ẽ' | 'ẹ' | 'É' | 'È' | 'Ẻ' | 'Ẽ' | 'Ẹ' => 'e',
        'ế' | 'ề' | 'ể' | 'ễ' | 'ệ' | 'Ế' | 'Ề' | 'Ể' | 'Ễ' | 'Ệ' => 'ê',
        'í' | 'ì' | 'ỉ' | 'ĩ' | 'ị' | 'Í' | 'Ì' | 'Ỉ' | 'Ĩ' | 'Ị' => 'i',
        'ó' | 'ò' | 'ỏ' | 'õ' | 'ọ' | 'Ó' | 'Ò' | 'Ỏ' | 'Õ' | 'Ọ' => 'o',
        'ố' | 'ồ' | 'ổ' | 'ỗ' | 'ộ' | 'Ố' | 'Ồ' | 'Ổ' | 'Ỗ' | 'Ộ' => 'ô',
        'ớ' | 'ờ' | 'ở' | 'ỡ' | 'ợ' | 'Ớ' | 'Ờ' | 'Ở' | 'Ỡ' | 'Ợ' => 'ơ',
        'ú' | 'ù' | 'ủ' | 'ũ' | 'ụ' | 'Ú' | 'Ù' | 'Ủ' | 'Ũ' | 'Ụ' => 'u',
        'ứ' | 'ừ' | 'ử' | 'ữ' | 'ự' | 'Ứ' | 'Ừ' | 'Ử' | 'Ữ' | 'Ự' => 'ư',
        'ý' | 'ỳ' | 'ỷ' | 'ỹ' | 'ỵ' | 'Ý' | 'Ỳ' | 'Ỷ' | 'Ỹ' | 'Ỵ' => 'y',
        c => lower_of(c),
    }
}

/// Normalize a vowel to its base form (remove tone marks, lowercase).
pub fn normalize_vowel(ch: char) -> (r: char)
    ensures r == normalize_vowel_spec(ch),
{
    match ch {
        'á' | 'à' | 'ả' | 'ã' | 'ạ' | 'Á' | 'À' | 'Ả' | 'Ã' | 'Ạ' => 'a',
        'ắ' | 'ằ' | 'ẳ' | 'ẵ' | 'ặ' | 'Ắ' | 'Ằ' | 'Ẳ' | 'Ẵ' | 'Ặ' => 'ă',
        'ấ' | 'ầ' | 'ẩ' | 'ẫ' | 'ậ' | 'Ấ' | 'Ầ' | 'Ẩ' | 'Ẫ' | 'Ậ' => 'â',
        'é' | 'è' | 'ẻ' | 'ẽ' | 'ẹ' | 'É' | 'È' | 'Ẻ' | 'Ẽ' | 'Ẹ' => 'e',
        'ế' | 'ề' | 'ể' | 'ễ' | 'ệ' | 'Ế' | 'Ề' | 'Ể' | 'Ễ' | 'Ệ' => 'ê',
        'í' | 'ì' | 'ỉ' | 'ĩ' | 'ị' | 'Í' | 'Ì' | 'Ỉ' | 'Ĩ' | 'Ị' => 'i',
        'ó' | 'ò' | 'ỏ' | 'õ' | 'ọ' | 'Ó' | 'Ò' | 'Ỏ' | 'Õ' | 'Ọ' => 'o',
        'ố' | 'ồ' | 'ổ' | 'ỗ' | 'ộ' | 'Ố' | 'Ồ' | 'Ổ' | 'Ỗ' | 'Ộ' => 'ô',
        'ớ' | 'ờ' | 'ở' | 'ỡ' | 'ợ' | 'Ớ' | 'Ờ' | 'Ở' | 'Ỡ' | 'Ợ' => 'ơ',
        'ú' | 'ù' | 'ủ' | 'ũ' | 'ụ' | 'Ú' | 'Ù' | 'Ủ' | 'Ũ' | 'Ụ' => 'u',
        'ứ' | 'ừ' | 'ử' | 'ữ' | 'ự' | 'Ứ' | 'Ừ' | 'Ử' | 'Ữ' | 'Ự' => 'ư',
        'ý' | 'ỳ' | 'ỷ' | 'ỹ' | 'ỵ' | 'Ý' | 'Ỳ' | 'Ỷ' | 'Ỹ' | 'Ỵ' => 'y',
        c => char_lower(c),
    }
}

/// What `classify_cluster` returns for a vowel sequence.
pub open spec fn classify_spec(v: Seq<char>) -> ClusterType {
    if v.len() == 0 {
        ClusterType::Invalid
    } else if v.len() == 1 {
        ClusterType::Single
    } else if v.len() == 2 {
        if (v[0] == 'u' || v[0] == 'ư') && (v[1] == 'o' || v[1] == 'ơ') {
            ClusterType::CompoundUO
        } else if v[0] == 'o' && (v[1] == 'a' || v[1] == 'e') {
            ClusterType::DoubleOA
        } else {
            ClusterType::Double
        }
    } else if v.len() == 3 {
        ClusterType::Triple
    } else {
        ClusterType::Invalid
    }
}

/// Classify a vowel cluster by its composition.
pub fn classify_cluster(vowels: &[char]) -> (r: ClusterType)
    ensures r == classify_spec(vowels@),
{
    let n = vowels.len();
    if n == 0 {
        ClusterType::Invalid
    } else if n == 1 {
        ClusterType::Single
    } else if n == 2 {
        let (a, b) = (vowels[0], vowels[1]);
        if (a == 'u' || a == 'ư') && (b == 'o' || b == 'ơ') {
            ClusterType::CompoundUO
        } else if a == 'o' && (b == 'a' || b == 'e') {
            ClusterType::DoubleOA
        } else {
            ClusterType::Double
        }
    } else if n == 3 {
        ClusterType::Triple
    } else {
        ClusterType::Invalid
    }
}

/// `c` is one maximal run of vowels of `chars`, with its vowels normalized and
/// its type classified.
pub open spec fn is_cluster_of(chars: Seq<char>, c: VowelCluster) -> bool {
    &&& c.start_pos < c.end_pos <= chars.len()
    &&& forall|k: int| c.start_pos <= k < c.end_pos ==> is_vowel_spec(#[trigger] chars[k])
    &&& (c.start_pos == 0 || !is_vowel_spec(chars[c.start_pos - 1]))
    &&& (c.end_pos == chars.len() || !is_vowel_spec(chars[c.end_pos as int]))
    &&& c.vowels@ == chars.subrange(c.start_pos as int, c.end_pos as int).map_values(
        |x: char| normalize_vowel_spec(x),
    )
    &&& c.cluster_type == classify_spec(c.vowels@)
}

/// `cs` lists every maximal vowel run of `chars`, left to right.
pub open spec fn are_clusters_of(chars: Seq<char>, cs: Seq<VowelCluster>) -> bool {
    &&& forall|i: int| 0 <= i < cs.len() ==> is_cluster_of(chars, #[trigger] cs[i])
    &&& forall|i: int, j: int|
        0 <= i < j < cs.len() ==> (#[trigger] cs[i]).end_pos <= (#[trigger] cs[j]).start_pos
    &&& forall|k: int|
        0 <= k < chars.len() && is_vowel_spec(#[trigger] chars[k]) ==> exists|i: int|
            0 <= i < cs.len() && (#[trigger] cs[i]).start_pos <= k < cs[i].end_pos
}

/// Two clusterings of the same text agree on whether there is any cluster,
/// and on the bounds and vowels of the last one.
pub proof fn lemma_last_cluster_unique(chars: Seq<char>, cs1: Seq<VowelCluster>, cs2: Seq<VowelCluster>)
    requires
        are_clusters_of(chars, cs1),
        are_clusters_of(chars, cs2),
    ensures
        (cs1.len() == 0) == (cs2.len() == 0),
        cs1.len() > 0 ==> cs1.last().start_pos == cs2.last().start_pos
            && cs1.last().end_pos == cs2.last().end_pos
            && cs1.last().vowels@ == cs2.last().vowels@,
{
    lemma_no_vowel_after_last(chars, cs1);
    lemma_no_vowel_after_last(chars, cs2);
    if cs1.len() > 0 && cs2.len() > 0 {
        let a = cs1.last();
        let b = cs2.last();
        assert(is_cluster_of(chars, a));
        assert(is_cluster_of(chars, b));
        assert(is_vowel_spec(chars[a.end_pos - 1]));
        assert(is_vowel_spec(chars[b.end_pos - 1]));
        assert(a.end_pos == b.end_pos);
        if a.start_pos < b.start_pos {
            assert(is_vowel_spec(chars[b.start_pos - 1]));
        }
        if b.start_pos < a.start_pos {
            assert(is_vowel_spec(chars[a.start_pos - 1]));
        }
        assert(a.vowels@ =~= b.vowels@);
    } else if cs1.len() > 0 {
        let a = cs1.last();
        assert(is_cluster_of(chars, a));
        assert(is_vowel_spec(chars[a.start_pos as int]));
    } else if cs2.len() > 0 {
        let b = cs2.last();
        assert(is_cluster_of(chars, b));
        assert(is_vowel_spec(chars[b.start_pos as int]));
    }
}

proof fn lemma_no_vowel_after_last(chars: Seq<char>, cs: Seq<VowelCluster>)
    requires
        are_clusters_of(chars, cs),
    ensures
        cs.len() == 0 ==> forall|k: int| 0 <= k < chars.len() ==> !is_vowel_spec(#[trigger] chars[k]),
        cs.len() > 0 ==> forall|k: int| cs.last().end_pos <= k < chars.len() ==> !is_vowel_spec(#[trigger] chars[k]),
{
    assert forall|k: int| 0 <= k < chars.len() && (cs.len() == 0 || cs.last().end_pos <= k)
        implies !is_vowel_spec(#[trigger] chars[k]) by {
        if is_vowel_spec(chars[k]) {
            let i = choose|i: int| 0 <= i < cs.len() && (#[trigger] cs[i]).start_pos <= k < cs[i].end_pos;
            if i < cs.len() - 1 {
                assert(cs[i].end_pos <= cs[cs.len() - 1].start_pos);
                assert(is_cluster_of(chars, cs[cs.len() - 1]));
            }
        }
    }
}

/// Find all vowel clusters (maximal runs of consecutive vowels) in a buffer.
pub fn find_vowel_clusters(buffer: &str) -> (r: Vec<VowelCluster>)
    ensures are_clusters_of(buffer@, r@),
{
    let chars = str_chars(buffer);
    let n = chars.len();
    let mut clusters: Vec<VowelCluster> = Vec::new();
    let mut i: usize = 0;
    while i < n
        invariant
            n == chars@.len(),
            chars@ == buffer@,
            i <= n,
            0 < i < n ==> !is_vowel_spec(chars@[i - 1]) || !is_vowel_spec(chars@[i as int]),
            forall|j: int| 0 <= j < clusters@.len() ==> is_cluster_of(chars@, #[trigger] clusters@[j]),
            forall|j: int| 0 <= j < clusters@.len() ==> (#[trigger] clusters@[j]).end_pos <= i,
            forall|a: int, b: int|
                0 <= a < b < clusters@.len() ==> (#[trigger] clusters@[a]).end_pos
                    <= (#[trigger] clusters@[b]).start_pos,
            forall|k: int|
                0 <= k < i && is_vowel_spec(#[trigger] chars@[k]) ==> exists|j: int|
                    0 <= j < clusters@.len() && (#[trigger] clusters@[j]).start_pos <= k < clusters@[j].end_pos,
        decreases n - i,
    {
        if is_vowel(chars[i]) {
            let start_pos = i;
            let mut vowels: Vec<char> = Vec::new();
            while i < n && is_vowel(chars[i])
                invariant
                    n == chars@.len(),
                    start_pos <= i <= n,
                    forall|k: int| start_pos <= k < i ==> is_vowel_spec(#[trigger] chars@[k]),
                    vowels@ == chars@.subrange(start_pos as int, i as int).map_values(
                        |x: char| normalize_vowel_spec(x),
                    ),
                decreases n - i,
            {
                vowels.push(normalize_vowel(chars[i]));
                i += 1;
                assert(vowels@ =~= chars@.subrange(start_pos as int, i as int).map_values(
                    |x: char| normalize_vowel_spec(x),
                ));
            }
            let cluster_type = classify_cluster(vowels.as_slice());
            let c = VowelCluster { start_pos, end_pos: i, vowels, cluster_type };
            let ghost old_clusters = clusters@;
            clusters.push(c);
            assert forall|k: int|
                0 <= k < i && is_vowel_spec(#[trigger] chars@[k]) implies exists|j: int|
                    0 <= j < clusters@.len() && (#[trigger] clusters@[j]).start_pos <= k < clusters@[j].end_pos by {
                if k < start_pos {
                    let j = choose|j: int|
                        0 <= j < old_clusters.len() && (#[trigger] old_clusters[j]).start_pos <= k
                            < old_clusters[j].end_pos;
                    assert(clusters@[j] == old_clusters[j]);
                } else {
                    assert(clusters@[clusters@.len() - 1] == c);
                }
            }
        } else {
            i += 1;
        }
    }
    clusters
}

} // verus!
