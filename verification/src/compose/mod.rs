//! Compose engine — pure recompute-from-raw core.
//!
//! One call to [`compose`] rebuilds the whole syllable from the raw key
//! buffer, with no hidden state:
//!
//! | Step | Module | What it does |
//! |------|--------|-------------|
//! | Fallback | [`fallback`] | Undo / toggle detection from key counts |
//! | Segment | [`segment`] | Raw keys → (base, transform marks, tone marks) |
//! | Transform | [`transform`] | Apply diacritic marks to the base |
//! | Assemble | [`assemble`] | Place and apply the tone mark on the nucleus |
//!
//! followed by the English fallback when a mark was consumed but the result
//! is not a plausible Vietnamese syllable.

pub mod segment;
pub mod transform;
pub mod assemble;
pub mod fallback;

use vstd::prelude::*;
use crate::pipeline::config::{
    ToneMark, ToneStyle, PipelineConfig, RuleModel, rule_keys_distinct, tone_keys_distinct,
    has_rule, rule_lookup, lemma_rule_lookup_at, has_tone, tone_lookup, tone_map_get,
};
use crate::text::{str_chars, is_alpha, char_is_alpha, chars_eq, chars_to_vec, chars_to_string};
use crate::pipeline::validation::{SyllableStructure, normalize_seq, split_spec, parts_valid};
use crate::vowel::cluster::{normalize_vowel_spec, normalize_vowel};
use segment::{segment, segment_spec};
use transform::{apply_transforms, transform_spec};
use assemble::{apply_tone, apply_tone_spec};
use fallback::{check_fallback, fallback_spec, repeat_char};

pub use segment::SegmentMode;

verus! {

/// Validator strategy for transformation gating.
#[derive(Debug, Clone, Copy, PartialEq, Eq, Structural)]
pub enum Validator {
    /// Full Vietnamese syllable structure check.
    Vietnamese,
    /// Hmong syllable rules.
    Hmong,
    /// Custom validator registered in config.
    Custom,
    /// No validation gate (native scripts).
    NoGate,
}

/// All configuration needed for one `compose()` call, derived from a
/// `PipelineConfig` by [`ComposeOpts::from_config`].
#[derive(Debug, Clone)]
pub struct ComposeOpts {
    /// Raw key sequence → result (e.g. "aa" → "â"); no key twice.
    pub transform_rules: Vec<(Vec<char>, Vec<char>)>,
    /// Tone key → tone mark; no key twice.
    pub tone_map: Vec<(char, ToneMark)>,
    /// Old vs. new tone positioning style.
    pub tone_style: ToneStyle,
    /// How raw keys are segmented into base + marks.
    pub segment_mode: SegmentMode,
    /// Validation strategy.
    pub validator: Validator,
    /// `true` when `tone_map` is non-empty.
    pub tone_enabled: bool,
    /// Non-alphabetic chars that end a transform key (e.g. VNI digits 6–9).
    pub transform_trigger_chars: Vec<char>,
    /// Non-adjacent marks are checked downstream for a Vietnamese validator,
    /// so the structural pre-checks in segmentation are skipped for it.
    pub attest_non_adjacent: bool,
}

impl ComposeOpts {
    /// The transform table as char sequences.
    pub open spec fn rules(&self) -> RuleModel {
        self.transform_rules@.map_values(|p: (Vec<char>, Vec<char>)| (p.0@, p.1@))
    }

    /// The tables have no key twice.
    pub open spec fn wf(&self) -> bool {
        &&& rule_keys_distinct(self.rules())
        &&& tone_keys_distinct(self.tone_map@)
    }
}

impl ComposeOpts {
    /// A copy of the options.
    pub fn duplicate(&self) -> (r: Self)
        ensures
            r.rules() == self.rules(),
            r.tone_map@ == self.tone_map@,
            r.tone_style == self.tone_style,
            r.segment_mode == self.segment_mode,
            r.validator == self.validator,
            r.tone_enabled == self.tone_enabled,
            r.transform_trigger_chars@ == self.transform_trigger_chars@,
            r.attest_non_adjacent == self.attest_non_adjacent,
            self.wf() ==> r.wf(),
    {
        let mut rules: Vec<(Vec<char>, Vec<char>)> = Vec::new();
        let mut i: usize = 0;
        while i < self.transform_rules.len()
            invariant
                i <= self.transform_rules@.len(),
                rules@.len() == i,
                forall|j: int| 0 <= j < i ==> (#[trigger] rules@[j]).0@ == self.transform_rules@[j].0@
                    && rules@[j].1@ == self.transform_rules@[j].1@,
            decreases self.transform_rules@.len() - i,
        {
            let k = chars_to_vec(self.transform_rules[i].0.as_slice());
            let v = chars_to_vec(self.transform_rules[i].1.as_slice());
            rules.push((k, v));
            i += 1;
        }
        assert(rules@.map_values(|p: (Vec<char>, Vec<char>)| (p.0@, p.1@)) =~= self.rules());
        let mut tones: Vec<(char, ToneMark)> = Vec::new();
        let mut j: usize = 0;
        while j < self.tone_map.len()
            invariant
                j <= self.tone_map@.len(),
                tones@ == self.tone_map@.subrange(0, j as int),
            decreases self.tone_map@.len() - j,
        {
            tones.push(self.tone_map[j]);
            j += 1;
            assert(tones@ =~= self.tone_map@.subrange(0, j as int));
        }
        assert(tones@ =~= self.tone_map@);
        ComposeOpts {
            transform_rules: rules,
            tone_map: tones,
            tone_style: self.tone_style,
            segment_mode: self.segment_mode,
            validator: self.validator,
            tone_enabled: self.tone_enabled,
            transform_trigger_chars: chars_to_vec(self.transform_trigger_chars.as_slice()),
            attest_non_adjacent: self.attest_non_adjacent,
        }
    }
}

/// Validator named by a configuration's `validation.syllable_structure`.
pub open spec fn validator_of(config: PipelineConfig) -> Validator {
    match config.validation {
        Some(v) => {
            let s = v.syllable_structure@;
            if s == seq!['h', 'm', 'o', 'n', 'g'] {
                Validator::Hmong
            } else if s == seq!['c', 'u', 's', 't', 'o', 'm'] {
                Validator::Custom
            } else if s == seq!['n', 'o', 'n', 'e'] {
                Validator::NoGate
            } else {
                Validator::Vietnamese
            }
        },
        None => Validator::Vietnamese,
    }
}

/// `c` is the last char of some transform key and is not alphabetic.
pub open spec fn is_trigger_char_of(m: RuleModel, c: char) -> bool {
    !is_alpha(c) && exists|i: int| 0 <= i < m.len() && (#[trigger] m[i]).0.len() > 0 && m[i].0.last() == c
}

/// `o` is the option set derived from `config`: its rule and tone tables,
/// tone style, segmentation (direct map in native-script mode), validator,
/// the tone switch, the trigger chars of its rules and the attestation flag.
pub open spec fn opts_from(config: PipelineConfig, o: ComposeOpts) -> bool {
    &&& o.wf()
    &&& o.rules() == config.rules()
    &&& o.tone_map@ == config.tone_map@
    &&& o.tone_style == config.tone_style_spec()
    &&& o.segment_mode == (if config.native_script_mode { SegmentMode::DirectMap } else { SegmentMode::MarkBased })
    &&& o.validator == validator_of(config)
    &&& o.tone_enabled == (config.tone_map@.len() > 0)
    &&& forall|c: char| #[trigger] o.transform_trigger_chars@.contains(c) == is_trigger_char_of(config.rules(), c)
    &&& o.attest_non_adjacent == (o.validator == Validator::Vietnamese)
}

impl ComposeOpts {
    /// Derive the options from a pipeline configuration (see `opts_from`).
    pub fn from_config(config: &PipelineConfig) -> (r: Self)
        requires
            config.wf(),
        ensures
            opts_from(*config, r),
    {
        let segment_mode = if config.native_script_mode { SegmentMode::DirectMap } else { SegmentMode::MarkBased };
        let validator = match &config.validation {
            Some(v) => {
                let s = str_chars(v.syllable_structure.as_str());
                if chars_eq(s.as_slice(), &['h', 'm', 'o', 'n', 'g']) {
                    Validator::Hmong
                } else if chars_eq(s.as_slice(), &['c', 'u', 's', 't', 'o', 'm']) {
                    Validator::Custom
                } else if chars_eq(s.as_slice(), &['n', 'o', 'n', 'e']) {
                    Validator::NoGate
                } else {
                    Validator::Vietnamese
                }
            },
            None => Validator::Vietnamese,
        };
        let ghost cm = config.rules();
        let mut rules: Vec<(Vec<char>, Vec<char>)> = Vec::new();
        let mut triggers: Vec<char> = Vec::new();
        let mut i: usize = 0;
        while i < config.transform_rules.len()
            invariant
                i <= config.transform_rules@.len(),
                cm == config.rules(),
                rules@.len() == i,
                forall|j: int| 0 <= j < i ==> (#[trigger] rules@[j]).0@ == cm[j].0 && rules@[j].1@ == cm[j].1,
                forall|c: char| #[trigger] triggers@.contains(c) == (!is_alpha(c) && exists|j: int|
                    0 <= j < i && (#[trigger] cm[j]).0.len() > 0 && cm[j].0.last() == c),
            decreases config.transform_rules@.len() - i,
        {
            let k = str_chars(config.transform_rules[i].0.as_str());
            let v = str_chars(config.transform_rules[i].1.as_str());
            let ghost old_triggers = triggers@;
            if k.len() > 0 {
                let last = k[k.len() - 1];
                if !char_is_alpha(last) {
                    triggers.push(last);
                }
            }
            proof {
                assert forall|c: char| #[trigger] triggers@.contains(c) == (!is_alpha(c) && exists|j: int|
                    0 <= j < i + 1 && (#[trigger] cm[j]).0.len() > 0 && cm[j].0.last() == c) by {
                    if triggers@.contains(c) && !old_triggers.contains(c) {
                        assert(triggers@.last() == c);
                        assert(cm[i as int].0 == k@);
                    }
                    if old_triggers.contains(c) {
                        let j = choose|j: int| 0 <= j < i && (#[trigger] cm[j]).0.len() > 0 && cm[j].0.last() == c;
                        assert(triggers@.contains(c)) by {
                            let t = choose|t: int| 0 <= t < old_triggers.len() && old_triggers[t] == c;
                            assert(triggers@[t] == c);
                        }
                    }
                    if !is_alpha(c) && exists|j: int| 0 <= j < i + 1 && (#[trigger] cm[j]).0.len() > 0 && cm[j].0.last() == c {
                        let j = choose|j: int| 0 <= j < i + 1 && (#[trigger] cm[j]).0.len() > 0 && cm[j].0.last() == c;
                        if j == i {
                            assert(cm[i as int].0 == k@);
                            assert(triggers@.last() == c);
                        } else {
                            assert(old_triggers.contains(c));
                            let t = choose|t: int| 0 <= t < old_triggers.len() && old_triggers[t] == c;
                            assert(triggers@[t] == c);
                        }
                    }
                }
            }
            rules.push((k, v));
            i += 1;
        }
        assert(rules@.map_values(|p: (Vec<char>, Vec<char>)| (p.0@, p.1@)) =~= cm);
        let mut tone_map: Vec<(char, ToneMark)> = Vec::new();
        let mut j: usize = 0;
        while j < config.tone_map.len()
            invariant
                j <= config.tone_map@.len(),
                tone_map@ == config.tone_map@.subrange(0, j as int),
            decreases config.tone_map@.len() - j,
        {
            tone_map.push(config.tone_map[j]);
            j += 1;
            assert(tone_map@ =~= config.tone_map@.subrange(0, j as int));
        }
        assert(tone_map@ =~= config.tone_map@);
        let tone_enabled = config.tone_map.len() > 0;
        ComposeOpts {
            transform_rules: rules,
            tone_map,
            tone_style: config.get_tone_style(),
            segment_mode,
            validator,
            tone_enabled,
            transform_trigger_chars: triggers,
            attest_non_adjacent: validator == Validator::Vietnamese,
        }
    }
}

// ── Table lookups ────────────────────────────────────────────────────────────

/// Look up the rule for `key`.
pub fn rule_get(opts: &ComposeOpts, key: &[char]) -> (r: Option<Vec<char>>)
    requires
        opts.wf(),
    ensures
        match r {
            Some(v) => rule_lookup(opts.rules(), key@) == Some(v@),
            None => rule_lookup(opts.rules(), key@) is None,
        },
{
    let ghost m = opts.rules();
    let mut i: usize = 0;
    while i < opts.transform_rules.len()
        invariant
            i <= opts.transform_rules@.len(),
            m == opts.rules(),
            rule_keys_distinct(m),
            forall|j: int| 0 <= j < i ==> (#[trigger] m[j]).0 != key@,
        decreases opts.transform_rules@.len() - i,
    {
        if chars_eq(opts.transform_rules[i].0.as_slice(), key) {
            proof { lemma_rule_lookup_at(m, i as int); }
            return Some(chars_to_vec(opts.transform_rules[i].1.as_slice()));
        }
        i += 1;
    }
    proof {
        assert(!has_rule(m, key@));
    }
    None
}

/// Whether `key` has a rule.
pub fn rule_exists(opts: &ComposeOpts, key: &[char]) -> (r: bool)
    requires
        opts.wf(),
    ensures
        r == has_rule(opts.rules(), key@),
{
    let res = rule_get(opts, key);
    res.is_some()
}

/// Whether the two-char key `a b` has a rule.
pub fn rule_exists2(opts: &ComposeOpts, a: char, b: char) -> (r: bool)
    requires
        opts.wf(),
    ensures
        r == has_rule(opts.rules(), seq![a, b]),
{
    let k = [a, b];
    let res = rule_exists(opts, &k);
    assert(k@ =~= seq![a, b]);
    res
}

/// The tone of key `c`, if it is a tone key.
pub fn tone_get(opts: &ComposeOpts, c: char) -> (r: Option<ToneMark>)
    requires
        opts.wf(),
    ensures
        r == tone_lookup(opts.tone_map@, c),
{
    tone_map_get(&opts.tone_map, c)
}

/// Whether `c` is a tone key.
pub fn is_tone_key(opts: &ComposeOpts, c: char) -> (r: bool)
    requires
        opts.wf(),
    ensures
        r == has_tone(opts.tone_map@, c),
{
    tone_get(opts, c).is_some()
}

// ── Output ───────────────────────────────────────────────────────────────────

/// Result of a single `compose()` call.
#[derive(Debug, Clone, PartialEq, Eq)]
pub struct ComposeResult {
    /// The syllable text after transforms, tone placement and fallback.
    pub text: String,
    /// The keys look like a non-Vietnamese word (after an undo or when the
    /// composed text is not a plausible syllable): pass input through.
    pub temp_english: bool,
}

// ── Model ────────────────────────────────────────────────────────────────────

/// `s` with every run of one repeated char collapsed to a single char.
pub open spec fn collapse_spec(s: Seq<char>) -> Seq<char>
    decreases s.len(),
{
    if s.len() == 0 {
        Seq::empty()
    } else if s.len() >= 2 && s.last() == s[s.len() - 2] {
        collapse_spec(s.drop_last())
    } else {
        collapse_spec(s.drop_last()).push(s.last())
    }
}

/// After collapsing no two neighbouring characters are equal, and a
/// non-empty text keeps its last character.
pub proof fn law_collapse_no_adjacent_repeats(s: Seq<char>)
    ensures
        forall|i: int| #![trigger collapse_spec(s)[i]] 0 <= i < collapse_spec(s).len() - 1
            ==> collapse_spec(s)[i] != collapse_spec(s)[i + 1],
        s.len() > 0 ==> collapse_spec(s).len() > 0 && collapse_spec(s).last() == s.last(),
    decreases s.len(),
{
    if s.len() > 0 {
        let p = s.drop_last();
        law_collapse_no_adjacent_repeats(p);
        if s.len() >= 2 && s.last() == s[s.len() - 2] {
            assert(p.last() == s[s.len() - 2]);
        } else {
            let c = collapse_spec(p);
            assert(collapse_spec(s) == c.push(s.last()));
            if p.len() > 0 {
                assert(c.last() == p.last());
                assert(p.last() == s[s.len() - 2]);
            }
            assert forall|i: int| #![trigger collapse_spec(s)[i]] 0 <= i < collapse_spec(s).len() - 1
                implies collapse_spec(s)[i] != collapse_spec(s)[i + 1] by {
                if i < c.len() - 1 {
                    assert(collapse_spec(s)[i] == c[i]);
                    assert(collapse_spec(s)[i + 1] == c[i + 1]);
                }
            }
        }
    }
}

/// One of the codas c m n ng p t.
pub open spec fn is_ie_coda(c: Seq<char>) -> bool {
    ||| (c.len() == 1 && (c[0] == 'c' || c[0] == 'm' || c[0] == 'n' || c[0] == 'p' || c[0] == 't'))
    ||| (c.len() == 2 && c[0] == 'n' && c[1] == 'g')
}

/// `text` (with repeated chars collapsed) is a valid syllable, an onset
/// typed so far, or — for a method with non-letter transform keys — an
/// `ie` nucleus with a coda still waiting for its mark.
pub open spec fn could_be_vietnamese_spec(text: Seq<char>, opts: ComposeOpts) -> bool {
    let p = split_spec(normalize_seq(collapse_spec(text)));
    ||| parts_valid(p.0, p.1, p.2)
    ||| (p.1.len() == 0 && p.2.len() == 0 && p.0.len() > 0)
    ||| (opts.transform_trigger_chars@.len() > 0 && p.1.len() == 2 && p.1[0] == 'i' && p.1[1] == 'e' && is_ie_coda(p.2))
}

/// Length of the trailing run of `c` in `s`.
pub open spec fn trailing_run(s: Seq<char>, c: char) -> nat
    decreases s.len(),
{
    if s.len() == 0 {
        0
    } else if s.last() == c {
        1 + trailing_run(s.drop_last(), c)
    } else {
        0
    }
}

/// The composed text before the English fallback: segment, transform, and
/// the last tone key when tones are enabled.
pub open spec fn composed_text(raw: Seq<char>, opts: ComposeOpts) -> Seq<char> {
    let seg = segment_spec(raw, opts, true);
    let tr = transform_spec(seg.base, seg.marks, opts.rules()).0;
    if opts.tone_enabled && seg.tones.len() > 0 {
        match apply_tone_spec(tr, seg.tones.last(), opts) {
            Some(t) => t,
            None => tr,
        }
    } else {
        tr
    }
}

/// What [`compose`] returns, as (text, English latch).
pub open spec fn compose_spec(raw: Seq<char>, opts: ComposeOpts) -> (Seq<char>, bool)
    decreases raw.len(), 1nat,
{
    if raw.len() == 0 {
        (Seq::empty(), false)
    } else {
        match fallback_spec(raw, opts, true) {
            Some(p) => p,
            None => {
                let seg = segment_spec(raw, opts, true);
                let text = composed_text(raw, opts);
                if opts.validator == Validator::Vietnamese && (seg.marks.len() > 0 || seg.tones.len() > 0)
                    && !could_be_vietnamese_spec(text, opts) {
                    match elongation_spec(raw, opts) {
                        Some(e) => e,
                        None => (raw, true),
                    }
                } else {
                    (text, false)
                }
            },
        }
    }
}

/// The elongation reading of `raw`: a valid syllable followed by a repeated
/// last key (twice or more, or once when it lengthens the final vowel).
pub open spec fn elongation_spec(raw: Seq<char>, opts: ComposeOpts) -> Option<(Seq<char>, bool)>
    decreases raw.len(), 0nat,
{
    if raw.len() == 0 {
        None
    } else {
        let last = raw.last();
        let run = trailing_run(raw, last);
        if run == 0 || run >= raw.len() {
            None
        } else {
            let base = compose_spec(raw.take(raw.len() - run), opts);
            if base.1 || !could_be_vietnamese_spec(base.0, opts) {
                None
            } else {
                let lengthens = base.0.len() > 0 && normalize_vowel_spec(base.0.last()) == last;
                if run < 2 && !lengthens {
                    None
                } else {
                    Some((base.0 + repeat_char(last, run), true))
                }
            }
        }
    }
}

// ── Entry point ──────────────────────────────────────────────────────────────

/// When the keys end in an undo or toggle, that decision is the composed
/// result: the undo is never re-interpreted by the later steps.
pub proof fn law_compose_undo_decides(raw: Seq<char>, opts: ComposeOpts)
    requires
        fallback_spec(raw, opts, true) is Some,
    ensures
        compose_spec(raw, opts) == fallback_spec(raw, opts, true).unwrap(),
{
}

/// Empty input composes to empty text, not classed as English.
pub proof fn law_compose_empty_input(opts: ComposeOpts)
    ensures
        compose_spec(Seq::empty(), opts) == (Seq::<char>::empty(), false),
{
}

/// Recompute the syllable from the full raw key buffer: undo/toggle check,
/// segment, transform, tone, then the English fallback.
pub fn compose(raw: &[char], opts: &ComposeOpts) -> (r: ComposeResult)
    requires
        opts.wf(),
    ensures
        (r.text@, r.temp_english) == compose_spec(raw@, *opts),
    decreases raw@.len(), 1nat,
{
    if raw.len() == 0 {
        return ComposeResult { text: String::new(), temp_english: false };
    }
    let fb = check_fallback(raw, opts, true);
    if fb.is_handled {
        return ComposeResult { text: fb.text, temp_english: fb.temp_english };
    }
    let seg = segment(raw, opts, true);
    let (transformed, _) = apply_transforms(seg.base.as_str(), seg.transforms.as_slice(), opts);
    let text = if opts.tone_enabled && seg.tones.len() > 0 {
        let last = seg.tones[seg.tones.len() - 1];
        match apply_tone(transformed.as_str(), last, opts) {
            Some(t) => t,
            None => transformed,
        }
    } else {
        transformed
    };
    if opts.validator == Validator::Vietnamese && (seg.transforms.len() > 0 || seg.tones.len() > 0)
        && !could_be_vietnamese(text.as_str(), opts) {
        match try_elongation_fallback(raw, opts) {
            Some(e) => return e,
            None => {},
        }
        return ComposeResult { text: chars_to_string(raw), temp_english: true };
    }
    ComposeResult { text, temp_english: false }
}

/// Stylistic elongation ("vèoooo", "khôngggg"): a valid syllable followed by
/// a run of one repeated key keeps the syllable and appends the run.
fn try_elongation_fallback(raw: &[char], opts: &ComposeOpts) -> (r: Option<ComposeResult>)
    requires
        opts.wf(),
    ensures
        match r {
            Some(c) => elongation_spec(raw@, *opts) == Some((c.text@, c.temp_english)),
            None => elongation_spec(raw@, *opts) is None,
        },
    decreases raw@.len(), 0nat,
{
    let n = raw.len();
    if n == 0 {
        return None;
    }
    let last = raw[n - 1];
    let mut run: usize = 0;
    assert(raw@.take(n as int) =~= raw@);
    while run < n && raw[n - 1 - run] == last
        invariant
            run <= n,
            n == raw@.len(),
            last == raw@.last(),
            trailing_run(raw@, last) == run + trailing_run(raw@.take(n - run), last),
        decreases n - run,
    {
        assert(raw@.take(n - run).drop_last() =~= raw@.take(n - run - 1));
        run += 1;
    }
    assert(run < n ==> raw@.take(n - run).last() == raw@[n - 1 - run]);
    if run == 0 || run >= n {
        return None;
    }
    let base_raw = crate::text::sub_vec(raw, 0, n - run);
    assert(base_raw@ =~= raw@.take(n - run));
    let base = compose(base_raw.as_slice(), opts);
    if base.temp_english || !could_be_vietnamese(base.text.as_str(), opts) {
        return None;
    }
    let text = str_chars(base.text.as_str());
    let lengthens = text.len() > 0 && normalize_vowel(text[text.len() - 1]) == last;
    if run < 2 && !lengthens {
        return None;
    }
    let mut out = text;
    let ghost pre = out@;
    let mut k: usize = 0;
    while k < run
        invariant
            k <= run,
            out@ == pre + repeat_char(last, k as nat),
        decreases run - k,
    {
        out.push(last);
        k += 1;
        assert(out@ =~= pre + repeat_char(last, k as nat));
    }
    Some(ComposeResult { text: chars_to_string(out.as_slice()), temp_english: true })
}

/// Collapse runs of consecutive identical chars ("khôngggg" → "không").
fn collapse_adjacent_repeats(s: &[char]) -> (r: Vec<char>)
    ensures
        r@ == collapse_spec(s@),
{
    let mut out: Vec<char> = Vec::new();
    let mut i: usize = 0;
    while i < s.len()
        invariant
            i <= s.len(),
            out@ == collapse_spec(s@.take(i as int)),
        decreases s.len() - i,
    {
        assert(s@.take(i + 1).drop_last() =~= s@.take(i as int));
        if i == 0 || s[i] != s[i - 1] {
            out.push(s[i]);
        }
        i += 1;
    }
    assert(s@.take(s.len() as int) =~= s@);
    out
}

/// Whether `text` is a valid syllable or a plausible one in progress.
fn could_be_vietnamese(text: &str, opts: &ComposeOpts) -> (r: bool)
    ensures
        r == could_be_vietnamese_spec(text@, *opts),
{
    let chars = str_chars(text);
    let collapsed = collapse_adjacent_repeats(chars.as_slice());
    let s = SyllableStructure::parse(chars_to_string(collapsed.as_slice()).as_str());
    if s.is_valid() {
        return true;
    }
    let onset = str_chars(s.onset.as_str());
    let nucleus = str_chars(s.nucleus.as_str());
    let coda = str_chars(s.coda.as_str());
    if nucleus.len() == 0 && coda.len() == 0 && onset.len() > 0 {
        return true;
    }
    opts.transform_trigger_chars.len() > 0 && nucleus.len() == 2 && nucleus[0] == 'i' && nucleus[1] == 'e'
        && ((coda.len() == 1 && (coda[0] == 'c' || coda[0] == 'm' || coda[0] == 'n' || coda[0] == 'p' || coda[0] == 't'))
            || (coda.len() == 2 && coda[0] == 'n' && coda[1] == 'g'))
}

} // verus!
