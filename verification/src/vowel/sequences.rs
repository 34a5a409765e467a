//! Vowel sequence data: the metadata of each Vietnamese vowel sequence and a
//! table to look it up by spelling or by vowels.

use vstd::prelude::*;
use crate::text::{str_chars, chars_eq, chars_to_string, push_text, push_number, decimal};

verus! {

/// Vietnamese vowel sequences (single, double and triple vowels).
#[derive(Debug, Clone, Copy, PartialEq, Eq, Hash, Structural)]
pub enum VowelSeq {
    /// a
    A,
    /// ă
    AB,
    /// â
    AR,
    /// e
    E,
    /// ê
    ER,
    /// i
    I,
    /// o
    O,
    /// ô
    OR,
    /// ơ
    OH,
    /// u
    U,
    /// ư
    UH,
    /// y
    Y,
    /// ai
    AI,
    /// ao
    AO,
    /// au
    AU,
    /// âu
    ARU,
    /// ay
    AY,
    /// ây
    ARY,
    /// eo
    EO,
    /// êu
    ERU,
    /// ia
    IA,
    /// iê
    IER,
    /// iu
    IU,
    /// oa
    OA,
    /// oă
    OAB,
    /// oe
    OE,
    /// oi
    OI,
    /// ôi
    ORI,
    /// ơi
    OHI,
    /// ua
    UA,
    /// uâ
    UAR,
    /// uê
    UER,
    /// ui
    UI,
    /// ưa
    UHA,
    /// ươ
    UHO,
    /// ưu
    UHU,
    /// uy
    UY,
    /// uôi
    UOI,
    /// ươi
    UHOI,
    /// oai
    OAI,
    /// oao
    OAO,
    /// oay
    OAY,
    /// uoai
    UOAI,
    /// uôi
    UORI,
    /// uya
    UAYA,
    /// uyê
    UYER,
    /// No vowel sequence
    Nil,
}

/// Diacritical mark types.
#[derive(Debug, Clone, Copy, PartialEq, Eq, Structural)]
pub enum Mark {
    /// Roof (^): a→â, e→ê, o→ô
    Roof,
    /// Hook (+): o→ơ, u→ư
    Hook,
    /// Breve (˘): a→ă
    Breve,
    /// Stroke: d→đ
    Stroke,
    /// Tone key (s, f, r, x, j for Telex; 1-5 for VNI)
    Tone(char),
}

/// Metadata of one vowel sequence.
#[derive(Debug, Clone, PartialEq)]
pub struct VowelSeqInfo {
    /// The vowel sequence as a string
    pub sequence: String,
    /// Length of the sequence (1-3)
    pub len: usize,
    /// Whether this is a complete sequence
    pub complete: bool,
    /// Individual vowel characters
    pub vowels: Vec<char>,
    /// Valid positions for tone marks, in priority order
    pub tone_positions: Vec<usize>,
    /// Position that can receive the roof mark
    pub roof_pos: Option<usize>,
    /// Position that can receive the hook mark
    pub hook_pos: Option<usize>,
    /// Sequence when the roof is added
    pub with_roof: Option<VowelSeq>,
    /// Sequence when the hook is added
    pub with_hook: Option<VowelSeq>,
}

/// The decimal numbers of `ns`, separated by ", ".
pub open spec fn numbers_text(ns: Seq<usize>) -> Seq<char>
    decreases ns.len(),
{
    if ns.len() == 0 {
        Seq::empty()
    } else if ns.len() == 1 {
        decimal(ns[0] as nat)
    } else {
        numbers_text(ns.drop_last()) + ", "@ + decimal(ns.last() as nat)
    }
}

/// The display form of an entry: `"oa (len=2, complete=true, tone_pos=[1, 0])"`.
pub open spec fn info_text(info: VowelSeqInfo) -> Seq<char> {
    info.sequence@ + " (len="@ + decimal(info.len as nat) + ", complete="@
        + (if info.complete { "true"@ } else { "false"@ }) + ", tone_pos=["@
        + numbers_text(info.tone_positions@) + "])"@
}

impl VowelSeqInfo {
    /// The display form (see `info_text`).
    pub fn to_display_string(&self) -> (r: String)
        ensures
            r@ == info_text(*self),
    {
        let mut out: Vec<char> = Vec::new();
        push_text(&mut out, self.sequence.as_str());
        push_text(&mut out, " (len=");
        push_number(&mut out, self.len);
        push_text(&mut out, ", complete=");
        if self.complete {
            push_text(&mut out, "true");
        } else {
            push_text(&mut out, "false");
        }
        push_text(&mut out, ", tone_pos=[");
        let ghost head = out@;
        let mut i: usize = 0;
        while i < self.tone_positions.len()
            invariant
                i <= self.tone_positions@.len(),
                out@ == head + numbers_text(self.tone_positions@.subrange(0, i as int)),
            decreases self.tone_positions@.len() - i,
        {
            if i > 0 {
                push_text(&mut out, ", ");
            }
            push_number(&mut out, self.tone_positions[i]);
            proof {
                let pre = self.tone_positions@.subrange(0, i as int + 1);
                assert(pre.drop_last() =~= self.tone_positions@.subrange(0, i as int));
                assert(out@ =~= head + numbers_text(pre));
            }
            i += 1;
        }
        assert(self.tone_positions@.subrange(0, self.tone_positions@.len() as int) =~= self.tone_positions@);
        push_text(&mut out, "])");
        assert(out@ =~= info_text(*self));
        chars_to_string(out.as_slice())
    }

    /// Whether `pos` is one of the tone positions.
    pub fn can_receive_tone(&self, pos: usize) -> (r: bool)
        ensures r == self.tone_positions@.contains(pos),
    {
        let mut i: usize = 0;
        while i < self.tone_positions.len()
            invariant
                i <= self.tone_positions@.len(),
                forall|j: int| 0 <= j < i ==> self.tone_positions@[j] != pos,
            decreases self.tone_positions@.len() - i,
        {
            if self.tone_positions[i] == pos {
                return true;
            }
            i += 1;
        }
        false
    }

    /// The highest-priority tone position.
    pub fn primary_tone_position(&self) -> (r: Option<usize>)
        ensures
            r == (if self.tone_positions@.len() > 0 {
                Some(self.tone_positions@[0])
            } else {
                None
            }),
    {
        if self.tone_positions.len() > 0 {
            Some(self.tone_positions[0])
        } else {
            None
        }
    }

    /// Whether this sequence can receive a roof mark.
    pub fn can_receive_roof(&self) -> (r: bool)
        ensures r == self.roof_pos is Some,
    {
        self.roof_pos.is_some()
    }

    /// Whether this sequence can receive a hook mark.
    pub fn can_receive_hook(&self) -> (r: bool)
        ensures r == self.hook_pos is Some,
    {
        self.hook_pos.is_some()
    }
}

/// A collection of vowel sequences with lookup.
#[derive(Debug, Clone)]
pub struct VowelSeqTable {
    sequences: Vec<VowelSeqInfo>,
}

/// Index of the first entry of `s` satisfying `p`.
pub open spec fn is_first_match(s: Seq<VowelSeqInfo>, i: int, p: spec_fn(VowelSeqInfo) -> bool) -> bool {
    &&& 0 <= i < s.len()
    &&& p(s[i])
    &&& forall|j: int| 0 <= j < i ==> !p(#[trigger] s[j])
}

/// Index of the first entry of `e` at or after `from` whose sequence is `key`.
pub open spec fn first_seq_index(e: Seq<VowelSeqInfo>, key: Seq<char>, from: int) -> Option<int>
    decreases e.len() - from,
{
    if from < 0 || from >= e.len() {
        None
    } else if e[from].sequence@ == key {
        Some(from)
    } else {
        first_seq_index(e, key, from + 1)
    }
}

impl VowelSeqTable {
    /// The entries of the table, in order.
    pub closed spec fn entries(&self) -> Seq<VowelSeqInfo> {
        self.sequences@
    }

    /// Create a table holding `sequences`.
    pub fn new(sequences: Vec<VowelSeqInfo>) -> (r: Self)
        ensures r.entries() == sequences@,
    {
        Self { sequences }
    }

    /// Create an empty table.
    pub fn empty() -> (r: Self)
        ensures r.entries().len() == 0,
    {
        Self { sequences: Vec::new() }
    }

    /// First sequence whose spelling is `seq`.
    pub fn find(&self, seq: &str) -> (r: Option<&VowelSeqInfo>)
        ensures
            match r {
                Some(x) => exists|i: int| is_first_match(self.entries(), i, |e: VowelSeqInfo| e.sequence@ == seq@)
                    && *x == self.entries()[i],
                None => forall|i: int| 0 <= i < self.entries().len() ==> (#[trigger] self.entries()[i]).sequence@ != seq@,
            },
            match r {
                Some(x) => first_seq_index(self.entries(), seq@, 0) is Some
                    && *x == self.entries()[first_seq_index(self.entries(), seq@, 0).unwrap()],
                None => first_seq_index(self.entries(), seq@, 0) is None,
            },
    {
        let key = str_chars(seq);
        let mut i: usize = 0;
        while i < self.sequences.len()
            invariant
                i <= self.sequences@.len(),
                key@ == seq@,
                first_seq_index(self.sequences@, seq@, 0) == first_seq_index(self.sequences@, seq@, i as int),
                forall|j: int| 0 <= j < i ==> (#[trigger] self.sequences@[j]).sequence@ != seq@,
            decreases self.sequences@.len() - i,
        {
            let s = str_chars(self.sequences[i].sequence.as_str());
            if chars_eq(s.as_slice(), key.as_slice()) {
                let ghost p = |e: VowelSeqInfo| e.sequence@ == seq@;
                assert(is_first_match(self.entries(), i as int, p));
                return Some(&self.sequences[i]);
            }
            i += 1;
        }
        None
    }

    /// First sequence whose vowels are exactly `vowels`.
    pub fn find_by_vowels(&self, vowels: &[char]) -> (r: Option<&VowelSeqInfo>)
        ensures
            match r {
                Some(x) => exists|i: int| is_first_match(self.entries(), i, |e: VowelSeqInfo| e.vowels@ == vowels@)
                    && *x == self.entries()[i],
                None => forall|i: int| 0 <= i < self.entries().len() ==> (#[trigger] self.entries()[i]).vowels@ != vowels@,
            },
    {
        let mut i: usize = 0;
        while i < self.sequences.len()
            invariant
                i <= self.sequences@.len(),
                forall|j: int| 0 <= j < i ==> (#[trigger] self.sequences@[j]).vowels@ != vowels@,
            decreases self.sequences@.len() - i,
        {
            if chars_eq(self.sequences[i].vowels.as_slice(), vowels) {
                let ghost p = |e: VowelSeqInfo| e.vowels@ == vowels@;
                assert(is_first_match(self.entries(), i as int, p));
                return Some(&self.sequences[i]);
            }
            i += 1;
        }
        None
    }

    /// All sequences.
    pub fn all(&self) -> (r: &[VowelSeqInfo])
        ensures r@ == self.entries(),
    {
        self.sequences.as_slice()
    }

    /// Number of sequences in the table.
    pub fn len(&self) -> (r: usize)
        ensures r == self.entries().len(),
    {
        self.sequences.len()
    }

    /// Whether the table is empty.
    pub fn is_empty(&self) -> (r: bool)
        ensures r == (self.entries().len() == 0),
    {
        self.sequences.len() == 0
    }
}

impl Default for VowelSeqTable {
    fn default() -> (r: Self)
        ensures r.entries().len() == 0,
    {
        Self::empty()
    }
}

} // verus!
