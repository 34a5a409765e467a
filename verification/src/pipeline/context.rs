//! State carried between the processing stages: characters with their case,
//! dictionary candidates and transform records.

use vstd::prelude::*;
use crate::text::{lower_of, upper_of, is_upper, char_lower, char_upper, char_is_upper, chars_to_string, str_chars};
use vstd::utf8::{encode_utf8, decode_utf8, is_char_boundary};

verus! {

// ── CharInfo ─────────────────────────────────────────────────────────────────

/// A character in lowercase form with the case it was typed in.
#[derive(Debug, Clone, Copy, PartialEq, Eq, Structural)]
pub struct CharInfo {
    /// Normalized (lowercase) character for internal processing
    pub ch: char,
    /// Whether the original input was uppercase
    pub is_uppercase: bool,
}

/// The output form of `c`: uppercased when it was typed uppercase.
pub open spec fn output_char(c: CharInfo) -> char {
    if c.is_uppercase { upper_of(c.ch) } else { c.ch }
}

impl CharInfo {
    /// Create a CharInfo from a typed character: its lowercase form (first
    /// char of the lowercase mapping) and whether it is uppercase.
    pub fn new(input: char) -> (r: Self)
        ensures
            r.ch == lower_of(input),
            r.is_uppercase == is_upper(input),
    {
        Self { ch: char_lower(input), is_uppercase: char_is_upper(input) }
    }

    /// Create a CharInfo from an already-normalized char with explicit case.
    pub fn with_case(ch: char, is_uppercase: bool) -> (r: Self)
        ensures
            r.ch == ch,
            r.is_uppercase == is_uppercase,
    {
        Self { ch, is_uppercase }
    }

    /// The output character with the original case restored.
    pub fn to_output_char(&self) -> (r: char)
        ensures
            r == output_char(*self),
    {
        if self.is_uppercase { char_upper(self.ch) } else { self.ch }
    }
}

impl From<char> for CharInfo {
    fn from(ch: char) -> (r: Self) {
        Self::new(ch)
    }
}

impl vstd::std_specs::convert::FromSpecImpl<char> for CharInfo {
    open spec fn obeys_from_spec() -> bool {
        true
    }

    open spec fn from_spec(v: char) -> Self {
        CharInfo { ch: lower_of(v), is_uppercase: is_upper(v) }
    }
}

/// Conversions of a buffer of `CharInfo`.
pub trait CharInfoBufferExt {
    /// Normalized (lowercase) string for internal processing.
    fn to_normalized_string(&self) -> String;
    /// Output string with the case restored.
    fn to_output_string(&self) -> String;
    /// Just the characters.
    fn to_char_vec(&self) -> Vec<char>;
    /// The case mask.
    fn to_case_mask(&self) -> Vec<bool>;
}

fn normalized_chars(s: &[CharInfo]) -> (r: Vec<char>)
    ensures
        r@ == s@.map_values(|c: CharInfo| c.ch),
{
    let mut v: Vec<char> = Vec::new();
    let mut i: usize = 0;
    while i < s.len()
        invariant
            i <= s@.len(),
            v@ == s@.subrange(0, i as int).map_values(|c: CharInfo| c.ch),
        decreases s@.len() - i,
    {
        v.push(s[i].ch);
        i += 1;
        assert(v@ =~= s@.subrange(0, i as int).map_values(|c: CharInfo| c.ch));
    }
    assert(s@.subrange(0, s@.len() as int) =~= s@);
    v
}

fn output_chars(s: &[CharInfo]) -> (r: Vec<char>)
    ensures
        r@ == s@.map_values(|c: CharInfo| output_char(c)),
{
    let mut v: Vec<char> = Vec::new();
    let mut i: usize = 0;
    while i < s.len()
        invariant
            i <= s@.len(),
            v@ == s@.subrange(0, i as int).map_values(|c: CharInfo| output_char(c)),
        decreases s@.len() - i,
    {
        v.push(s[i].to_output_char());
        i += 1;
        assert(v@ =~= s@.subrange(0, i as int).map_values(|c: CharInfo| output_char(c)));
    }
    assert(s@.subrange(0, s@.len() as int) =~= s@);
    v
}

fn case_mask_of(s: &[CharInfo]) -> (r: Vec<bool>)
    ensures
        r@ == s@.map_values(|c: CharInfo| c.is_uppercase),
{
    let mut v: Vec<bool> = Vec::new();
    let mut i: usize = 0;
    while i < s.len()
        invariant
            i <= s@.len(),
            v@ == s@.subrange(0, i as int).map_values(|c: CharInfo| c.is_uppercase),
        decreases s@.len() - i,
    {
        v.push(s[i].is_uppercase);
        i += 1;
        assert(v@ =~= s@.subrange(0, i as int).map_values(|c: CharInfo| c.is_uppercase));
    }
    assert(s@.subrange(0, s@.len() as int) =~= s@);
    v
}

impl CharInfoBufferExt for Vec<CharInfo> {
    fn to_normalized_string(&self) -> (r: String)
        ensures
            r@ == self@.map_values(|c: CharInfo| c.ch),
    {
        chars_to_string(normalized_chars(self.as_slice()).as_slice())
    }

    fn to_output_string(&self) -> (r: String)
        ensures
            r@ == self@.map_values(|c: CharInfo| output_char(c)),
    {
        chars_to_string(output_chars(self.as_slice()).as_slice())
    }

    fn to_char_vec(&self) -> (r: Vec<char>)
        ensures
            r@ == self@.map_values(|c: CharInfo| c.ch),
    {
        normalized_chars(self.as_slice())
    }

    fn to_case_mask(&self) -> (r: Vec<bool>)
        ensures
            r@ == self@.map_values(|c: CharInfo| c.is_uppercase),
    {
        case_mask_of(self.as_slice())
    }
}

impl CharInfoBufferExt for [CharInfo] {
    fn to_normalized_string(&self) -> (r: String)
        ensures
            r@ == self@.map_values(|c: CharInfo| c.ch),
    {
        chars_to_string(normalized_chars(self).as_slice())
    }

    fn to_output_string(&self) -> (r: String)
        ensures
            r@ == self@.map_values(|c: CharInfo| output_char(c)),
    {
        chars_to_string(output_chars(self).as_slice())
    }

    fn to_char_vec(&self) -> (r: Vec<char>)
        ensures
            r@ == self@.map_values(|c: CharInfo| c.ch),
    {
        normalized_chars(self)
    }

    fn to_case_mask(&self) -> (r: Vec<bool>)
        ensures
            r@ == self@.map_values(|c: CharInfo| c.is_uppercase),
    {
        case_mask_of(self)
    }
}

// ── Records and candidates ───────────────────────────────────────────────────

/// Record of a single transformation, for undo.
#[derive(Debug, Clone, PartialEq)]
pub struct TransformRecord {
    /// The input character that triggered the transformation
    pub input_char: char,
    /// Buffer state before the transformation
    pub before: String,
    /// Buffer state after the transformation
    pub after: String,
    /// Type of transformation
    pub transform_type: TransformType,
}

/// Type of transformation for undo tracking.
#[derive(Debug, Clone, Copy, PartialEq, Eq, Structural)]
pub enum TransformType {
    /// Character transformation (aa→â, aw→ă, dd→đ, etc.)
    CharTransform,
    /// Tone application
    ToneApplication,
    /// Other transformation
    Other,
}

/// Result of permutation matching.
#[derive(Debug, Clone, PartialEq)]
pub struct PermutationResult {
    /// The transformed text (e.g., "tường")
    pub text: String,
    /// Score of this result, as the bit pattern of an IEEE-754 single
    /// (higher = better).
    pub score_bits: u32,
    /// The mark ordering that produced this result
    pub mark_order: Vec<char>,
}

/// A dictionary candidate.
#[derive(Debug, Clone, PartialEq)]
pub struct Candidate {
    /// The text to display (e.g., "𡗶 (trời)")
    pub text: String,
    /// The value to insert when selected; `text` when absent
    pub value: Option<String>,
    /// Candidate type/category
    pub candidate_type: CandidateType,
    /// Relevance score, as the bit pattern of an IEEE-754 single (higher =
    /// more relevant)
    pub score_bits: u32,
}

impl Candidate {
    /// A field-by-field copy.
    pub fn duplicate(&self) -> (r: Candidate)
        ensures
            r == *self,
    {
        Candidate {
            text: self.text.clone(),
            value: match &self.value {
                Some(v) => Some(v.clone()),
                None => None,
            },
            candidate_type: self.candidate_type,
            score_bits: self.score_bits,
        }
    }

    /// The value to insert when this candidate is selected.
    pub fn get_value(&self) -> (r: &str)
        ensures
            r@ == (match self.value {
                Some(v) => v@,
                None => self.text@,
            }),
    {
        match &self.value {
            Some(v) => v.as_str(),
            None => self.text.as_str(),
        }
    }
}

/// Type of dictionary candidate.
#[derive(Debug, Clone, Copy, PartialEq, Eq, Structural)]
pub enum CandidateType {
    /// Standard Vietnamese word
    Vietnamese,
    /// Chữ Nôm character
    Nom,
    /// English word (passthrough)
    English,
    /// Other/Unknown
    Other,
}

// ── Typing context ───────────────────────────────────────────────────────────

/// Mutable state that flows through the processing stages.
#[derive(Debug, Clone)]
pub struct TypingContext {
    /// Typed characters with their case
    pub char_buffer: Vec<CharInfo>,
    /// Current syllable being composed (e.g. "thường")
    pub syllable_buffer: String,
    /// Last output sent to the application
    pub last_output: String,
    /// Cursor position in the syllable buffer
    pub cursor: usize,
    /// English passthrough mode (set after an undo)
    pub temp_english_mode: bool,
    /// Snapshots of (raw buffer, syllable buffer)
    pub history: Vec<(String, String)>,
    /// Dictionary candidates
    pub candidates: Vec<Candidate>,
    /// Whether the candidate window is showing
    pub showing_candidates: bool,
    /// Selected candidate index (0-based)
    pub selected_candidate: Option<usize>,
    /// Last input character
    pub last_char: Option<char>,
    /// Last key that triggered a transformation
    pub last_transform_key: Option<char>,
    /// Explicit tone position override
    pub tone_position: Option<usize>,
    /// Named boolean flags for custom rules (first entry of a name wins)
    pub flags: Vec<(String, bool)>,
    /// Transformation records for undo
    pub transform_history: Vec<TransformRecord>,
    /// Permutation result slot (not filled by the compose stage)
    pub permutation_result: Option<PermutationResult>,
    /// Incremental result slot (not filled by the compose stage)
    pub incremental_result: Option<String>,
    /// Whether learning is enabled for this session
    pub learning_enabled: bool,
    /// Completed syllables in this session
    pub completed_syllables: Vec<String>,
    /// Byte offsets in `syllable_buffer` where words start (first is 0)
    pub word_start_indices: Vec<usize>,
}

/// The value of flag `name`: its first entry, `false` when absent.
pub open spec fn flag_value(flags: Seq<(String, bool)>, name: Seq<char>) -> bool
    decreases flags.len(),
{
    if flags.len() == 0 {
        false
    } else if flags[0].0@ == name {
        flags[0].1
    } else {
        flag_value(flags.drop_first(), name)
    }
}

/// Start (byte offset) of the current word.
pub open spec fn word_start(ctx: TypingContext) -> usize {
    if ctx.word_start_indices@.len() > 0 { ctx.word_start_indices@.last() } else { 0 }
}

/// The UTF-8 bytes of the syllable buffer.
pub open spec fn syllable_bytes(ctx: TypingContext) -> Seq<u8> {
    encode_utf8(ctx.syllable_buffer@)
}

/// `new_ctx` is `old_ctx` reset for a new word: buffers, history,
/// candidates, flags and results emptied; the session's learning state kept.
pub open spec fn is_cleared(old_ctx: TypingContext, new_ctx: TypingContext) -> bool {
    &&& new_ctx.char_buffer@.len() == 0
    &&& new_ctx.syllable_buffer@.len() == 0
    &&& new_ctx.last_output@.len() == 0
    &&& new_ctx.cursor == 0
    &&& !new_ctx.temp_english_mode
    &&& new_ctx.history@.len() == 0
    &&& new_ctx.candidates@.len() == 0
    &&& !new_ctx.showing_candidates
    &&& new_ctx.selected_candidate is None
    &&& new_ctx.last_char is None && new_ctx.last_transform_key is None
    &&& new_ctx.tone_position is None
    &&& new_ctx.flags@.len() == 0
    &&& new_ctx.transform_history@.len() == 0
    &&& new_ctx.permutation_result is None && new_ctx.incremental_result is None
    &&& new_ctx.learning_enabled == old_ctx.learning_enabled
    &&& new_ctx.completed_syllables == old_ctx.completed_syllables
    &&& new_ctx.word_start_indices@ == seq![0usize]
}

impl TypingContext {
    /// A fresh context with empty buffers.
    pub fn new() -> (r: Self)
        ensures
            r.char_buffer@.len() == 0,
            r.syllable_buffer@.len() == 0,
            r.last_output@.len() == 0,
            r.cursor == 0,
            !r.temp_english_mode,
            r.history@.len() == 0,
            r.candidates@.len() == 0,
            !r.showing_candidates,
            r.selected_candidate is None,
            r.last_char is None && r.last_transform_key is None && r.tone_position is None,
            r.flags@.len() == 0,
            r.transform_history@.len() == 0,
            r.permutation_result is None && r.incremental_result is None,
            !r.learning_enabled,
            r.completed_syllables@.len() == 0,
            r.word_start_indices@ == seq![0usize],
    {
        let mut w: Vec<usize> = Vec::new();
        w.push(0);
        Self {
            char_buffer: Vec::new(),
            syllable_buffer: String::new(),
            last_output: String::new(),
            cursor: 0,
            temp_english_mode: false,
            history: Vec::new(),
            candidates: Vec::new(),
            showing_candidates: false,
            selected_candidate: None,
            last_char: None,
            last_transform_key: None,
            tone_position: None,
            flags: Vec::new(),
            transform_history: Vec::new(),
            permutation_result: None,
            incremental_result: None,
            learning_enabled: false,
            completed_syllables: Vec::new(),
            word_start_indices: w,
        }
    }

    /// Reset for a new word; the session-level learning state is kept.
    pub fn clear(&mut self)
        ensures
            is_cleared(*old(self), *final(self)),
    {
        self.char_buffer = Vec::new();
        self.syllable_buffer = String::new();
        self.last_output = String::new();
        self.cursor = 0;
        self.temp_english_mode = false;
        self.history = Vec::new();
        self.candidates = Vec::new();
        self.showing_candidates = false;
        self.selected_candidate = None;
        self.last_char = None;
        self.last_transform_key = None;
        self.tone_position = None;
        self.flags = Vec::new();
        self.transform_history = Vec::new();
        self.permutation_result = None;
        self.incremental_result = None;
        let mut w: Vec<usize> = Vec::new();
        w.push(0);
        self.word_start_indices = w;
    }

    /// Push a snapshot of (raw buffer, syllable buffer) to the history.
    pub fn save_to_history(&mut self)
        ensures
            final(self).history@.len() == old(self).history@.len() + 1,
            final(self).history@.drop_last() == old(self).history@,
            final(self).history@.last().0@ == old(self).char_buffer@.map_values(|c: CharInfo| c.ch),
            final(self).history@.last().1@ == old(self).syllable_buffer@,
            *final(self) == (TypingContext { history: final(self).history, ..*old(self) }),
    {
        let raw = self.raw_buffer();
        let syl = self.syllable_buffer.clone();
        self.history.push((raw, syl));
    }

    /// Whether both the char buffer and the syllable buffer are empty.
    pub fn is_empty(&self) -> (r: bool)
        ensures
            r == (self.char_buffer@.len() == 0 && self.syllable_buffer@.len() == 0),
    {
        self.char_buffer.len() == 0 && self.syllable_buffer.as_str().is_empty()
    }

    /// Number of chars in the syllable buffer.
    pub fn len(&self) -> (r: usize)
        ensures
            r == self.syllable_buffer@.len(),
    {
        str_chars(self.syllable_buffer.as_str()).len()
    }

    /// Record a typed character (lowercased, with its case).
    pub fn push_raw(&mut self, ch: char)
        ensures
            final(self).char_buffer@ == old(self).char_buffer@.push(CharInfo { ch: lower_of(ch), is_uppercase: is_upper(ch) }),
            *final(self) == (TypingContext { char_buffer: final(self).char_buffer, ..*old(self) }),
    {
        self.char_buffer.push(CharInfo::new(ch));
    }

    /// Record a CharInfo directly.
    pub fn push_char_info(&mut self, info: CharInfo)
        ensures
            final(self).char_buffer@ == old(self).char_buffer@.push(info),
            *final(self) == (TypingContext { char_buffer: final(self).char_buffer, ..*old(self) }),
    {
        self.char_buffer.push(info);
    }

    /// The typed characters (lowercase) as a string.
    pub fn raw_buffer(&self) -> (r: String)
        ensures
            r@ == self.char_buffer@.map_values(|c: CharInfo| c.ch),
    {
        self.char_buffer.to_normalized_string()
    }

    /// The case mask of the typed characters.
    pub fn case_mask(&self) -> (r: Vec<bool>)
        ensures
            r@ == self.char_buffer@.map_values(|c: CharInfo| c.is_uppercase),
    {
        self.char_buffer.to_case_mask()
    }

    /// Replace the char buffer with the characters of `s`.
    pub fn set_raw_buffer(&mut self, s: &str)
        ensures
            final(self).char_buffer@ == s@.map_values(|c: char| CharInfo { ch: lower_of(c), is_uppercase: is_upper(c) }),
            *final(self) == (TypingContext { char_buffer: final(self).char_buffer, ..*old(self) }),
    {
        let chars = str_chars(s);
        let mut buf: Vec<CharInfo> = Vec::new();
        let mut i: usize = 0;
        while i < chars.len()
            invariant
                i <= chars@.len(),
                chars@ == s@,
                buf@ == s@.subrange(0, i as int).map_values(|c: char| CharInfo { ch: lower_of(c), is_uppercase: is_upper(c) }),
            decreases chars@.len() - i,
        {
            buf.push(CharInfo::new(chars[i]));
            i += 1;
            assert(buf@ =~= s@.subrange(0, i as int).map_values(|c: char| CharInfo { ch: lower_of(c), is_uppercase: is_upper(c) }));
        }
        assert(s@.subrange(0, s@.len() as int) =~= s@);
        self.char_buffer = buf;
    }

    /// Set the case flags of the first characters from `case_mask`.
    pub fn set_case_mask(&mut self, case_mask: Vec<bool>)
        ensures
            final(self).char_buffer@.len() == old(self).char_buffer@.len(),
            forall|i: int| 0 <= i < old(self).char_buffer@.len() ==> (#[trigger] final(self).char_buffer@[i]) == (
                if i < case_mask@.len() {
                    CharInfo { ch: old(self).char_buffer@[i].ch, is_uppercase: case_mask@[i] }
                } else {
                    old(self).char_buffer@[i]
                }),
            *final(self) == (TypingContext { char_buffer: final(self).char_buffer, ..*old(self) }),
    {
        let mut i: usize = 0;
        let n = self.char_buffer.len();
        while i < case_mask.len() && i < n
            invariant
                i <= case_mask@.len(),
                n == old(self).char_buffer@.len(),
                self.char_buffer@.len() == n,
                *self == (TypingContext { char_buffer: self.char_buffer, ..*old(self) }),
                forall|j: int| 0 <= j < n ==> (#[trigger] self.char_buffer@[j]) == (
                    if j < i {
                        CharInfo { ch: old(self).char_buffer@[j].ch, is_uppercase: case_mask@[j] }
                    } else {
                        old(self).char_buffer@[j]
                    }),
            decreases case_mask@.len() - i,
        {
            let c = self.char_buffer[i];
            self.char_buffer.set(i, CharInfo { ch: c.ch, is_uppercase: case_mask[i] });
            i += 1;
        }
    }

    /// Replace the syllable buffer.
    pub fn set_syllable(&mut self, syllable: String)
        ensures
            *final(self) == (TypingContext { syllable_buffer: syllable, ..*old(self) }),
    {
        self.syllable_buffer = syllable;
    }

    /// Byte offset where the current word starts (0 without boundaries).
    pub fn current_word_start(&self) -> (r: usize)
        ensures
            r == word_start(*self),
    {
        let n = self.word_start_indices.len();
        if n > 0 { self.word_start_indices[n - 1] } else { 0 }
    }

    /// The current word: the syllable buffer from the current word start on
    /// (empty when the start is at or past the end).
    pub fn current_word(&self) -> (r: &str)
        requires
            syllable_bytes(*self).len() <= usize::MAX,
            word_start(*self) < syllable_bytes(*self).len() ==> is_char_boundary(syllable_bytes(*self), word_start(*self) as int),
        ensures
            word_start(*self) < syllable_bytes(*self).len() ==> encode_utf8(r@)
                == syllable_bytes(*self).subrange(word_start(*self) as int, syllable_bytes(*self).len() as int),
            word_start(*self) >= syllable_bytes(*self).len() ==> r@.len() == 0,
    {
        let start = self.current_word_start();
        let s = self.syllable_buffer.as_str();
        if start < s.len() {
            let (_, rest) = s.split_at(start);
            rest
        } else {
            proof { reveal_strlit(""); }
            ""
        }
    }

    /// Mark the current end of the syllable buffer as a word start.
    pub fn mark_word_boundary(&mut self)
        ensures
            final(self).word_start_indices@ == old(self).word_start_indices@.push(syllable_bytes(*old(self)).len() as usize),
            *final(self) == (TypingContext { word_start_indices: final(self).word_start_indices, ..*old(self) }),
    {
        let n = self.syllable_buffer.as_str().len();
        self.word_start_indices.push(n);
    }

    /// Drop the last word start (the first one always stays).
    pub fn pop_word_boundary(&mut self)
        ensures
            old(self).word_start_indices@.len() > 1 ==> final(self).word_start_indices@ == old(self).word_start_indices@.drop_last(),
            old(self).word_start_indices@.len() <= 1 ==> final(self).word_start_indices@ == old(self).word_start_indices@,
            *final(self) == (TypingContext { word_start_indices: final(self).word_start_indices, ..*old(self) }),
    {
        if self.word_start_indices.len() > 1 {
            self.word_start_indices.pop();
        }
    }

    /// Whether an earlier word is in the buffer.
    pub fn has_previous_word(&self) -> (r: bool)
        ensures
            r == (self.word_start_indices@.len() > 1),
    {
        self.word_start_indices.len() > 1
    }

    /// Number of chars before the current word start.
    pub fn current_word_char_offset(&self) -> (r: usize)
        requires
            word_start(*self) <= syllable_bytes(*self).len(),
            is_char_boundary(syllable_bytes(*self), word_start(*self) as int),
        ensures
            r == decode_utf8(syllable_bytes(*self).subrange(0, word_start(*self) as int)).len(),
    {
        broadcast use vstd::utf8::encode_utf8_decode_utf8;
        let start = self.current_word_start();
        let s = self.syllable_buffer.as_str();
        let (prefix, _) = s.split_at(start);
        str_chars(prefix).len()
    }

    /// Whether there are candidates.
    pub fn has_candidates(&self) -> (r: bool)
        ensures
            r == (self.candidates@.len() > 0),
    {
        self.candidates.len() > 0
    }

    /// Number of candidates.
    pub fn candidate_count(&self) -> (r: usize)
        ensures
            r == self.candidates@.len(),
    {
        self.candidates.len()
    }

    /// Select the next candidate, wrapping to the first; the first when none
    /// is selected. No change without candidates.
    pub fn select_next_candidate(&mut self)
        requires
            old(self).selected_candidate matches Some(idx) ==> idx < usize::MAX,
        ensures
            old(self).candidates@.len() == 0 ==> *final(self) == *old(self),
            old(self).candidates@.len() > 0 ==> *final(self) == (TypingContext {
                selected_candidate: Some(match old(self).selected_candidate {
                    Some(idx) => ((idx + 1) % (old(self).candidates@.len() as int)) as usize,
                    None => 0usize,
                }),
                ..*old(self)
            }),
    {
        let n = self.candidates.len();
        if n == 0 {
            return;
        }
        let next: usize = match self.selected_candidate {
            Some(idx) => (idx + 1) % n,
            None => 0,
        };
        self.selected_candidate = Some(next);
    }

    /// Select the previous candidate, wrapping to the last; the last when
    /// none is selected. No change without candidates.
    pub fn select_previous_candidate(&mut self)
        ensures
            old(self).candidates@.len() == 0 ==> *final(self) == *old(self),
            old(self).candidates@.len() > 0 ==> *final(self) == (TypingContext {
                selected_candidate: Some(match old(self).selected_candidate {
                    Some(idx) => if idx > 0 { (idx - 1) as usize } else { (old(self).candidates@.len() - 1) as usize },
                    None => (old(self).candidates@.len() - 1) as usize,
                }),
                ..*old(self)
            }),
    {
        let n = self.candidates.len();
        if n == 0 {
            return;
        }
        let prev: usize = match self.selected_candidate {
            Some(idx) => if idx > 0 { idx - 1 } else { n - 1 },
            None => n - 1,
        };
        self.selected_candidate = Some(prev);
    }

    /// Select candidate `index` when it exists.
    pub fn select_candidate(&mut self, index: usize) -> (r: bool)
        ensures
            r == (index < old(self).candidates@.len()),
            r ==> *final(self) == (TypingContext { selected_candidate: Some(index), ..*old(self) }),
            !r ==> *final(self) == *old(self),
    {
        if index < self.candidates.len() {
            self.selected_candidate = Some(index);
            true
        } else {
            false
        }
    }

    /// The selected candidate, if any.
    pub fn get_selected_candidate(&self) -> (r: Option<&Candidate>)
        ensures
            r == (match self.selected_candidate {
                Some(idx) => if idx < self.candidates@.len() { Some(&self.candidates@[idx as int]) } else { None },
                None => None,
            }),
    {
        match self.selected_candidate {
            Some(idx) => self.get_candidate(idx),
            None => None,
        }
    }

    /// Candidate `index`, if it exists.
    pub fn get_candidate(&self, index: usize) -> (r: Option<&Candidate>)
        ensures
            r == (if index < self.candidates@.len() { Some(&self.candidates@[index as int]) } else { None }),
    {
        if index < self.candidates.len() { Some(&self.candidates[index]) } else { None }
    }

    /// Accept the selected candidate: its text becomes the syllable buffer
    /// and the candidates are dismissed. `None` (and no change) when nothing
    /// valid is selected.
    pub fn accept_selected_candidate(&mut self) -> (r: Option<String>)
        ensures
            match old(self).selected_candidate {
                Some(idx) => idx < old(self).candidates@.len(),
                None => false,
            } ==> {
                let text = old(self).candidates@[old(self).selected_candidate.unwrap() as int].text;
                &&& r matches Some(t) && t@ == text@
                &&& final(self).syllable_buffer@ == text@
                &&& final(self).candidates@.len() == 0
                &&& !final(self).showing_candidates
                &&& final(self).selected_candidate is None
                &&& *final(self) == (TypingContext {
                        syllable_buffer: final(self).syllable_buffer,
                        candidates: final(self).candidates,
                        showing_candidates: false,
                        selected_candidate: None,
                        ..*old(self)
                    })
            },
            !match old(self).selected_candidate {
                Some(idx) => idx < old(self).candidates@.len(),
                None => false,
            } ==> r is None && *final(self) == *old(self),
    {
        let text = match self.get_selected_candidate() {
            Some(c) => c.text.clone(),
            None => return None,
        };
        self.syllable_buffer = text.clone();
        self.candidates = Vec::new();
        self.showing_candidates = false;
        self.selected_candidate = None;
        Some(text)
    }

    /// Dismiss the candidate window.
    pub fn dismiss_candidates(&mut self)
        ensures
            final(self).candidates@.len() == 0,
            *final(self) == (TypingContext {
                candidates: final(self).candidates,
                showing_candidates: false,
                selected_candidate: None,
                ..*old(self)
            }),
    {
        self.candidates = Vec::new();
        self.showing_candidates = false;
        self.selected_candidate = None;
    }

    /// Record the syllable buffer as what was last sent to the application.
    pub fn commit_output(&mut self)
        ensures
            final(self).last_output@ == old(self).syllable_buffer@,
            *final(self) == (TypingContext { last_output: final(self).last_output, ..*old(self) }),
    {
        self.last_output = self.syllable_buffer.clone();
    }

    /// Set flag `name` to `value`.
    pub fn set_flag(&mut self, name: &str, value: bool)
        ensures
            forall|n: Seq<char>| #[trigger] flag_value(final(self).flags@, n) == if n == name@ {
                value
            } else {
                flag_value(old(self).flags@, n)
            },
            *final(self) == (TypingContext { flags: final(self).flags, ..*old(self) }),
    {
        let key = str_chars(name);
        let ghost f0 = self.flags@;
        let mut i: usize = 0;
        while i < self.flags.len()
            invariant
                i <= self.flags@.len(),
                self.flags@ == f0,
                *self == *old(self),
                key@ == name@,
                forall|j: int| 0 <= j < i ==> (#[trigger] f0[j]).0@ != name@,
            decreases self.flags@.len() - i,
        {
            let k = str_chars(self.flags[i].0.as_str());
            if crate::text::chars_eq(k.as_slice(), key.as_slice()) {
                let entry = (self.flags[i].0.clone(), value);
                self.flags.set(i, entry);
                proof { lemma_flag_update(f0, i as int, name@, value); }
                return;
            }
            i += 1;
        }
        let e = (String::from_str(name), value);
        let ghost ge = e;
        self.flags.push(e);
        proof { lemma_flag_push(f0, ge, name@); }
    }

    /// Value of flag `name` (`false` when not set).
    pub fn get_flag(&self, name: &str) -> (r: bool)
        ensures
            r == flag_value(self.flags@, name@),
    {
        let key = str_chars(name);
        let mut i: usize = 0;
        assert(self.flags@.subrange(0, self.flags@.len() as int) =~= self.flags@);
        while i < self.flags.len()
            invariant
                i <= self.flags@.len(),
                key@ == name@,
                flag_value(self.flags@, name@) == flag_value(self.flags@.subrange(i as int, self.flags@.len() as int), name@),
            decreases self.flags@.len() - i,
        {
            let k = str_chars(self.flags[i].0.as_str());
            assert(self.flags@.subrange(i as int, self.flags@.len() as int).drop_first()
                =~= self.flags@.subrange(i + 1, self.flags@.len() as int));
            if crate::text::chars_eq(k.as_slice(), key.as_slice()) {
                return self.flags[i].1;
            }
            i += 1;
        }
        false
    }

    /// Clear all flags.
    pub fn clear_flags(&mut self)
        ensures
            final(self).flags@.len() == 0,
            *final(self) == (TypingContext { flags: final(self).flags, ..*old(self) }),
    {
        self.flags = Vec::new();
    }
}

proof fn lemma_flag_update(f: Seq<(String, bool)>, i: int, name: Seq<char>, value: bool)
    requires
        0 <= i < f.len(),
        f[i].0@ == name,
        forall|j: int| 0 <= j < i ==> (#[trigger] f[j]).0@ != name,
    ensures
        forall|n: Seq<char>| #[trigger] flag_value(f.update(i, (f[i].0, value)), n) == if n == name {
            value
        } else {
            flag_value(f, n)
        },
    decreases i,
{
    let g = f.update(i, (f[i].0, value));
    if i == 0 {
        assert(g.drop_first() =~= f.drop_first());
        assert forall|n: Seq<char>| #[trigger] flag_value(g, n) == if n == name { value } else { flag_value(f, n) } by {
            assert(g[0] == (f[0].0, value));
        }
    } else {
        let t = f.drop_first();
        assert forall|j: int| 0 <= j < i - 1 implies (#[trigger] t[j]).0@ != name by {
            assert(t[j] == f[j + 1]);
        }
        assert(t[i - 1] == f[i]);
        lemma_flag_update(t, i - 1, name, value);
        assert(g.drop_first() =~= t.update(i - 1, (f[i].0, value)));
        assert forall|n: Seq<char>| #[trigger] flag_value(g, n) == if n == name { value } else { flag_value(f, n) } by {
            assert(g[0] == f[0]);
            assert(flag_value(t.update(i - 1, (t[i - 1].0, value)), n) == if n == name { value } else { flag_value(t, n) });
        }
    }
}

proof fn lemma_flag_push(f: Seq<(String, bool)>, e: (String, bool), name: Seq<char>)
    requires
        forall|j: int| 0 <= j < f.len() ==> (#[trigger] f[j]).0@ != name,
        e.0@ == name,
    ensures
        forall|n: Seq<char>| #[trigger] flag_value(f.push(e), n) == if n == name {
            e.1
        } else {
            flag_value(f, n)
        },
    decreases f.len(),
{
    let g = f.push(e);
    if f.len() > 0 {
        let t = f.drop_first();
        assert forall|j: int| 0 <= j < t.len() implies (#[trigger] t[j]).0@ != name by {
            assert(t[j] == f[j + 1]);
        }
        lemma_flag_push(t, e, name);
        assert(g.drop_first() =~= t.push(e));
        assert forall|n: Seq<char>| #[trigger] flag_value(g, n) == if n == name { e.1 } else { flag_value(f, n) } by {
            assert(g[0] == f[0]);
            assert(flag_value(t.push(e), n) == if n == name { e.1 } else { flag_value(t, n) });
        }
    } else {
        assert(g.drop_first() =~= Seq::<(String, bool)>::empty());
        assert forall|n: Seq<char>| #[trigger] flag_value(g, n) == if n == name { e.1 } else { flag_value(f, n) } by {
            assert(g[0] == e);
            assert(flag_value(g.drop_first(), n) == false);
        }
    }
}

impl Default for TypingContext {
    fn default() -> (r: Self)
        ensures
            r.char_buffer@.len() == 0,
            r.syllable_buffer@.len() == 0,
            r.word_start_indices@ == seq![0usize],
    {
        Self::new()
    }
}

} // verus!
