//! Input-method configuration: tone marks, styles and the tables a method
//! is defined by.

use vstd::prelude::*;
use crate::text::{str_chars, chars_eq};
use crate::vowel::sequences::VowelSeqTable;
use crate::vowel::positioning::TonePositioningMode;
use crate::pipeline::dictionary::DictionaryProvider;
use crate::pipeline::rules::{ContextRule, ConditionalRule};
use std::sync::Arc;

verus! {

/// Tone mark types.
#[derive(Debug, Clone, Copy, PartialEq, Eq, Hash, Structural)]
pub enum ToneMark {
    /// No tone (unmarked, ngang)
    NoTone,
    /// Acute accent (sắc)
    Acute,
    /// Grave accent (huyền)
    Grave,
    /// Hook above (hỏi)
    Hook,
    /// Tilde (ngã)
    Tilde,
    /// Dot below (nặng)
    Dot,
}

/// Tone style (old vs new orthography).
#[derive(Debug, Clone, Copy, PartialEq, Eq, Structural)]
pub enum ToneStyle {
    /// Old style: "hoà", "toà"
    Old,
    /// New style: "hòa", "tòa"
    New,
}

/// Unicode normalization form.
#[derive(Debug, Clone, Copy, PartialEq, Eq, Structural)]
pub enum UnicodeForm {
    /// NFC (canonical composition)
    NFC,
    /// NFD (canonical decomposition)
    NFD,
}

// ── Rule tables ──────────────────────────────────────────────────────────────

/// A transform table as (key, result) char sequences.
pub type RuleModel = Seq<(Seq<char>, Seq<char>)>;

/// The (key, result) pairs of a string table.
pub open spec fn str_rules_model(rules: Seq<(String, String)>) -> RuleModel {
    rules.map_values(|p: (String, String)| (p.0@, p.1@))
}

/// No key occurs twice.
pub open spec fn rule_keys_distinct(m: RuleModel) -> bool {
    forall|i: int, j: int| 0 <= i < m.len() && 0 <= j < m.len() && i != j ==> (#[trigger] m[i]).0 != (#[trigger] m[j]).0
}

/// Whether `key` has a rule.
pub open spec fn has_rule(m: RuleModel, key: Seq<char>) -> bool {
    exists|i: int| 0 <= i < m.len() && (#[trigger] m[i]).0 == key
}

/// The result of `key`'s rule, if it has one.
pub open spec fn rule_lookup(m: RuleModel, key: Seq<char>) -> Option<Seq<char>> {
    if has_rule(m, key) {
        Some(m[choose|i: int| 0 <= i < m.len() && (#[trigger] m[i]).0 == key].1)
    } else {
        None
    }
}

/// With distinct keys, the rule found at `i` is the one looked up.
pub proof fn lemma_rule_lookup_at(m: RuleModel, i: int)
    requires
        rule_keys_distinct(m),
        0 <= i < m.len(),
    ensures
        rule_lookup(m, m[i].0) == Some(m[i].1),
{
    let key = m[i].0;
    assert(has_rule(m, key));
    let c = choose|c: int| 0 <= c < m.len() && (#[trigger] m[c]).0 == key;
    if c != i {
        assert(m[c].0 != m[i].0);
    }
}

/// A tone table as (key, tone) pairs.
pub open spec fn tone_keys_distinct(m: Seq<(char, ToneMark)>) -> bool {
    forall|i: int, j: int| 0 <= i < m.len() && 0 <= j < m.len() && i != j ==> (#[trigger] m[i]).0 != (#[trigger] m[j]).0
}

/// Whether `key` is a tone key.
pub open spec fn has_tone(m: Seq<(char, ToneMark)>, key: char) -> bool {
    exists|i: int| 0 <= i < m.len() && (#[trigger] m[i]).0 == key
}

/// The tone of `key`, if it is a tone key.
pub open spec fn tone_lookup(m: Seq<(char, ToneMark)>, key: char) -> Option<ToneMark> {
    if has_tone(m, key) {
        Some(m[choose|i: int| 0 <= i < m.len() && (#[trigger] m[i]).0 == key].1)
    } else {
        None
    }
}

/// With distinct keys, the tone found at `i` is the one looked up.
pub proof fn lemma_tone_lookup_at(m: Seq<(char, ToneMark)>, i: int)
    requires
        tone_keys_distinct(m),
        0 <= i < m.len(),
    ensures
        tone_lookup(m, m[i].0) == Some(m[i].1),
{
    let key = m[i].0;
    assert(has_tone(m, key));
    let c = choose|c: int| 0 <= c < m.len() && (#[trigger] m[c]).0 == key;
    if c != i {
        assert(m[c].0 != m[i].0);
    }
}

/// Look up a tone key in a tone table.
pub fn tone_map_get(m: &Vec<(char, ToneMark)>, key: char) -> (r: Option<ToneMark>)
    requires
        tone_keys_distinct(m@),
    ensures
        r == tone_lookup(m@, key),
{
    let mut i: usize = 0;
    while i < m.len()
        invariant
            i <= m@.len(),
            tone_keys_distinct(m@),
            forall|j: int| 0 <= j < i ==> (#[trigger] m@[j]).0 != key,
        decreases m@.len() - i,
    {
        if m[i].0 == key {
            proof { lemma_tone_lookup_at(m@, i as int); }
            return Some(m[i].1);
        }
        i += 1;
    }
    None
}

/// Index of the entry of `rules` whose key spells `key`.
fn find_str_key(rules: &Vec<(String, String)>, key: &str) -> (r: Option<usize>)
    ensures
        match r {
            Some(i) => i < rules@.len() && rules@[i as int].0@ == key@,
            None => forall|j: int| 0 <= j < rules@.len() ==> (#[trigger] rules@[j]).0@ != key@,
        },
{
    let k = str_chars(key);
    let mut i: usize = 0;
    while i < rules.len()
        invariant
            i <= rules@.len(),
            k@ == key@,
            forall|j: int| 0 <= j < i ==> (#[trigger] rules@[j]).0@ != key@,
        decreases rules@.len() - i,
    {
        let e = str_chars(rules[i].0.as_str());
        if chars_eq(e.as_slice(), k.as_slice()) {
            return Some(i);
        }
        i += 1;
    }
    None
}

/// Index of the entry of `m` whose key is `key`.
fn find_tone_key(m: &Vec<(char, ToneMark)>, key: char) -> (r: Option<usize>)
    ensures
        match r {
            Some(i) => i < m@.len() && m@[i as int].0 == key,
            None => forall|j: int| 0 <= j < m@.len() ==> (#[trigger] m@[j]).0 != key,
        },
{
    let mut i: usize = 0;
    while i < m.len()
        invariant
            i <= m@.len(),
            forall|j: int| 0 <= j < i ==> (#[trigger] m@[j]).0 != key,
        decreases m@.len() - i,
    {
        if m[i].0 == key {
            return Some(i);
        }
        i += 1;
    }
    None
}

// ── Settings ─────────────────────────────────────────────────────────────────

/// Which optional stages are enabled.
#[derive(Debug, Clone)]
pub struct PipelineSettings {
    /// List of enabled optional stages
    pub enabled: Vec<String>,
    /// Emit composition events instead of Replace
    pub use_composition: bool,
}

impl Default for PipelineSettings {
    fn default() -> (r: Self)
        ensures r.enabled@.len() == 0, !r.use_composition,
    {
        PipelineSettings { enabled: Vec::new(), use_composition: false }
    }
}

/// Validation stage settings.
#[derive(Debug, Clone)]
pub struct ValidationSettings {
    /// Syllable structure type: "vietnamese", "hmong", "custom", "none"
    pub syllable_structure: String,
    /// Allow invalid syllables to pass through
    pub allow_invalid: bool,
}

impl Default for ValidationSettings {
    fn default() -> (r: Self)
        ensures r.syllable_structure@ == seq!['v', 'i', 'e', 't', 'n', 'a', 'm', 'e', 's', 'e'], !r.allow_invalid,
    {
        let s = String::from_str("vietnamese");
        proof { reveal_strlit("vietnamese"); }
        ValidationSettings { syllable_structure: s, allow_invalid: false }
    }
}

/// Orthography stage settings.
#[derive(Debug, Clone)]
pub struct OrthographySettings {
    /// Tone style: "modern" or "traditional"
    pub tone_style: String,
    /// Unicode form: "nfc" or "nfd"
    pub unicode_form: String,
}

impl Default for OrthographySettings {
    fn default() -> (r: Self)
        ensures
            r.tone_style@ == seq!['m', 'o', 'd', 'e', 'r', 'n'],
            r.unicode_form@ == seq!['n', 'f', 'c'],
    {
        let t = String::from_str("modern");
        let u = String::from_str("nfc");
        proof { reveal_strlit("modern"); reveal_strlit("nfc"); }
        OrthographySettings { tone_style: t, unicode_form: u }
    }
}

/// Lookup stage settings.
#[derive(Debug, Clone)]
pub struct LookupSettings {
    /// Database file path
    pub database: String,
    /// Maximum number of candidates to return
    pub max_candidates: usize,
    /// Auto replace buffer with top candidate
    pub auto_replace: bool,
    /// Space behavior when candidates are shown
    pub space_behavior: String,
    /// Enter behavior when candidates are shown
    pub enter_behavior: String,
}

impl Default for LookupSettings {
    fn default() -> (r: Self)
        ensures
            r.database@ == seq!['b', 'u', 't', 't', 'r', 'e', '_', 'n', 'o', 'm', '.', 'd', 'b'],
            r.max_candidates == 9,
            !r.auto_replace,
            r.space_behavior@ == seq!['a', 'u', 't', 'o', '_', 's', 'e', 'l', 'e', 'c', 't', '_', 's', 'i', 'n', 'g', 'l', 'e'],
            r.enter_behavior@ == seq!['p', 'a', 's', 's', 't', 'h', 'r', 'o', 'u', 'g', 'h'],
    {
        let d = String::from_str("buttre_nom.db");
        let sb = String::from_str("auto_select_single");
        let eb = String::from_str("passthrough");
        proof {
            reveal_strlit("buttre_nom.db");
            reveal_strlit("auto_select_single");
            reveal_strlit("passthrough");
        }
        LookupSettings {
            database: d,
            max_candidates: 9,
            auto_replace: false,
            space_behavior: sb,
            enter_behavior: eb,
        }
    }
}

/// Tone configuration for flexible typing.
#[derive(Debug, Clone)]
pub struct ToneConfig {
    /// Allow free tone placement (tone on any vowel in cluster)
    pub free_marking: bool,
    /// Allow permutation matching (flexible typing order)
    pub allow_permutation: bool,
    /// Maximum characters to search backward for marking
    pub max_modify_length: usize,
    /// Auto-correct "uo" to "ươ" when applying tone
    pub auto_correct_uo: bool,
    /// Vowel sequence table
    pub vowel_sequences: VowelSeqTable,
    /// Tone positioning mode
    pub positioning_mode: TonePositioningMode,
}

impl Default for ToneConfig {
    fn default() -> (r: Self)
        ensures
            !r.free_marking,
            !r.allow_permutation,
            r.max_modify_length == 6,
            !r.auto_correct_uo,
            r.vowel_sequences.entries().len() == 0,
            r.positioning_mode == TonePositioningMode::Phonology,
    {
        ToneConfig {
            free_marking: false,
            allow_permutation: false,
            max_modify_length: 6,
            auto_correct_uo: false,
            vowel_sequences: VowelSeqTable::empty(),
            positioning_mode: TonePositioningMode::Phonology,
        }
    }
}

// ── Pipeline configuration ───────────────────────────────────────────────────

/// Pipeline configuration: the rules and settings an input method is made of.
#[derive(Clone)]
pub struct PipelineConfig {
    /// Name of the input method (e.g. "telex", "vni")
    pub name: String,
    /// Pipeline settings
    pub pipeline: PipelineSettings,
    /// Transformation rules: sequence → result ("aa" → "â"); no key twice
    pub transform_rules: Vec<(String, String)>,
    /// Tone key mappings: key → tone mark; no key twice
    pub tone_map: Vec<(char, ToneMark)>,
    /// Context rules (matcher → action)
    pub context_rules: Arc<Vec<ContextRule>>,
    /// Conditional transformation rules
    pub conditional_rules: Arc<Vec<ConditionalRule>>,
    /// Validation settings
    pub validation: Option<ValidationSettings>,
    /// Orthography settings
    pub orthography: Option<OrthographySettings>,
    /// Lookup settings
    pub lookup: Option<LookupSettings>,
    /// Tone settings
    pub tone: ToneConfig,
    /// Native script mode for direct-mapping keyboards (Khmer, Cham)
    pub native_script_mode: bool,
    /// Word-boundary final repair
    pub boundary_repair: bool,
    /// Enable dictionary lookup (legacy)
    pub enable_lookup: bool,
    /// Dictionary the lookup stage queries (none: no lookup)
    pub dictionary: Option<Arc<dyn DictionaryProvider>>,
    /// Tone style (legacy; `orthography` takes precedence)
    pub tone_style: ToneStyle,
    /// Unicode normalization form (legacy; `orthography` takes precedence)
    pub unicode_form: UnicodeForm,
}

impl PipelineConfig {
    /// The configuration's tables have no key twice.
    pub open spec fn wf(&self) -> bool {
        &&& rule_keys_distinct(str_rules_model(self.transform_rules@))
        &&& tone_keys_distinct(self.tone_map@)
    }

    /// The transform table as char sequences.
    pub open spec fn rules(&self) -> RuleModel {
        str_rules_model(self.transform_rules@)
    }

    /// Tone style the configuration asks for: the orthography setting
    /// ("modern"/"new" → new, else old) or else the legacy field.
    pub open spec fn tone_style_spec(&self) -> ToneStyle {
        match self.orthography {
            Some(o) => if o.tone_style@ == seq!['m', 'o', 'd', 'e', 'r', 'n'] || o.tone_style@ == seq!['n', 'e', 'w'] {
                ToneStyle::New
            } else {
                ToneStyle::Old
            },
            None => self.tone_style,
        }
    }

    /// Unicode form the configuration asks for: the orthography setting
    /// ("nfd"/"NFD" → NFD, else NFC) or else the legacy field.
    pub open spec fn unicode_form_spec(&self) -> UnicodeForm {
        match self.orthography {
            Some(o) => if o.unicode_form@ == seq!['n', 'f', 'd'] || o.unicode_form@ == seq!['N', 'F', 'D'] {
                UnicodeForm::NFD
            } else {
                UnicodeForm::NFC
            },
            None => self.unicode_form,
        }
    }

    /// Create a new empty configuration named `name`.
    pub fn new(name: &str) -> (r: Self)
        ensures
            r.name@ == name@,
            r.transform_rules@.len() == 0,
            r.tone_map@.len() == 0,
            r.context_rules@.len() == 0,
            r.conditional_rules@.len() == 0,
            r.wf(),
            r.validation is None,
            r.orthography is None,
            r.lookup is None,
            r.dictionary is None,
            !r.native_script_mode,
            r.boundary_repair,
            !r.enable_lookup,
            r.tone_style == ToneStyle::Old,
            r.unicode_form == UnicodeForm::NFC,
            r.pipeline.enabled@.len() == 0,
            !r.pipeline.use_composition,
    {
        PipelineConfig {
            name: String::from_str(name),
            pipeline: PipelineSettings::default(),
            transform_rules: Vec::new(),
            tone_map: Vec::new(),
            context_rules: Arc::new(Vec::new()),
            conditional_rules: Arc::new(Vec::new()),
            validation: None,
            orthography: None,
            lookup: None,
            tone: ToneConfig::default(),
            native_script_mode: false,
            boundary_repair: true,
            enable_lookup: false,
            dictionary: None,
            tone_style: ToneStyle::Old,
            unicode_form: UnicodeForm::NFC,
        }
    }

    /// Whether `stage` is in the enabled list.
    pub fn is_stage_enabled(&self, stage: &str) -> (r: bool)
        ensures r == exists|i: int| 0 <= i < self.pipeline.enabled@.len() && (#[trigger] self.pipeline.enabled@[i])@ == stage@,
    {
        let key = str_chars(stage);
        let mut i: usize = 0;
        while i < self.pipeline.enabled.len()
            invariant
                i <= self.pipeline.enabled@.len(),
                key@ == stage@,
                forall|j: int| 0 <= j < i ==> (#[trigger] self.pipeline.enabled@[j])@ != stage@,
            decreases self.pipeline.enabled@.len() - i,
        {
            let s = str_chars(self.pipeline.enabled[i].as_str());
            if chars_eq(s.as_slice(), key.as_slice()) {
                return true;
            }
            i += 1;
        }
        false
    }

    /// Tone style (orthography setting, else the legacy field).
    pub fn get_tone_style(&self) -> (r: ToneStyle)
        ensures r == self.tone_style_spec(),
    {
        match &self.orthography {
            Some(o) => {
                let t = str_chars(o.tone_style.as_str());
                if chars_eq(t.as_slice(), &['m', 'o', 'd', 'e', 'r', 'n']) || chars_eq(t.as_slice(), &['n', 'e', 'w']) {
                    ToneStyle::New
                } else {
                    ToneStyle::Old
                }
            },
            None => self.tone_style,
        }
    }

    /// Unicode form (orthography setting, else the legacy field).
    pub fn get_unicode_form(&self) -> (r: UnicodeForm)
        ensures r == self.unicode_form_spec(),
    {
        match &self.orthography {
            Some(o) => {
                let t = str_chars(o.unicode_form.as_str());
                if chars_eq(t.as_slice(), &['n', 'f', 'd']) || chars_eq(t.as_slice(), &['N', 'F', 'D']) {
                    UnicodeForm::NFD
                } else {
                    UnicodeForm::NFC
                }
            },
            None => self.unicode_form,
        }
    }

    /// Add (or replace) the transformation rule `from` → `to`.
    pub fn add_transform(&mut self, from: &str, to: &str)
        requires
            old(self).wf(),
        ensures
            final(self).wf(),
            forall|k: Seq<char>| #[trigger] rule_lookup(final(self).rules(), k) == if k == from@ {
                Some(to@)
            } else {
                rule_lookup(old(self).rules(), k)
            },
            final(self).tone_map == old(self).tone_map,
            final(self).name == old(self).name,
            final(self).native_script_mode == old(self).native_script_mode,
            final(self).validation == old(self).validation,
            final(self).orthography == old(self).orthography,
            final(self).tone_style == old(self).tone_style,
            final(self).unicode_form == old(self).unicode_form,
    {
        let ghost m0 = self.rules();
        let found = find_str_key(&self.transform_rules, from);
        let i: usize = match found { Some(i) => i, None => self.transform_rules.len() };
        let to_s = String::from_str(to);
        if i < self.transform_rules.len() {
            let from_s = String::from_str(from);
            let ghost old_rules = self.transform_rules@;
            self.transform_rules.set(i, (from_s, to_s));
            proof {
                let m1 = self.rules();
                assert(m0[i as int].0 == from@);
                assert(forall|j: int| 0 <= j < m1.len() ==> (#[trigger] m1[j]).0 == m0[j].0);
                assert forall|a: int, b: int| 0 <= a < m1.len() && 0 <= b < m1.len() && a != b
                    implies (#[trigger] m1[a]).0 != (#[trigger] m1[b]).0 by {
                    assert(m1[a].0 == m0[a].0 && m1[b].0 == m0[b].0);
                }
                assert forall|k: Seq<char>| #[trigger] rule_lookup(m1, k) == if k == from@ {
                    Some(to@)
                } else {
                    rule_lookup(m0, k)
                } by {
                    if k == from@ {
                        lemma_rule_lookup_at(m1, i as int);
                    } else if has_rule(m0, k) {
                        let c = choose|c: int| 0 <= c < m0.len() && (#[trigger] m0[c]).0 == k;
                        lemma_rule_lookup_at(m0, c);
                        lemma_rule_lookup_at(m1, c);
                    } else {
                        assert(!has_rule(m1, k));
                    }
                }
            }
        } else {
            let from_s = String::from_str(from);
            self.transform_rules.push((from_s, to_s));
            proof {
                let m1 = self.rules();
                assert(m1.len() == m0.len() + 1);
                assert(forall|j: int| 0 <= j < m0.len() ==> (#[trigger] m1[j]) == m0[j]);
                assert(m1[m0.len() as int] == (from@, to@));
                assert(forall|j: int| 0 <= j < m0.len() ==> (#[trigger] m0[j]).0 != from@);
                assert forall|a: int, b: int| 0 <= a < m1.len() && 0 <= b < m1.len() && a != b
                    implies (#[trigger] m1[a]).0 != (#[trigger] m1[b]).0 by {
                    if a < m0.len() && b < m0.len() {
                        assert(m1[a] == m0[a] && m1[b] == m0[b]);
                    } else if a < m0.len() {
                        assert(m1[a] == m0[a]);
                    } else {
                        assert(m1[b] == m0[b]);
                    }
                }
                assert forall|k: Seq<char>| #[trigger] rule_lookup(m1, k) == if k == from@ {
                    Some(to@)
                } else {
                    rule_lookup(m0, k)
                } by {
                    if k == from@ {
                        lemma_rule_lookup_at(m1, m0.len() as int);
                    } else if has_rule(m0, k) {
                        let c = choose|c: int| 0 <= c < m0.len() && (#[trigger] m0[c]).0 == k;
                        lemma_rule_lookup_at(m0, c);
                        lemma_rule_lookup_at(m1, c);
                    } else {
                        assert(!has_rule(m1, k));
                    }
                }
            }
        }
    }

    /// Add (or replace) the tone key `key` → `tone`.
    pub fn add_tone(&mut self, key: char, tone: ToneMark)
        requires
            old(self).wf(),
        ensures
            final(self).wf(),
            forall|k: char| #[trigger] tone_lookup(final(self).tone_map@, k) == if k == key {
                Some(tone)
            } else {
                tone_lookup(old(self).tone_map@, k)
            },
            final(self).transform_rules == old(self).transform_rules,
            final(self).name == old(self).name,
            final(self).native_script_mode == old(self).native_script_mode,
            final(self).validation == old(self).validation,
            final(self).orthography == old(self).orthography,
            final(self).tone_style == old(self).tone_style,
            final(self).unicode_form == old(self).unicode_form,
    {
        let ghost m0 = self.tone_map@;
        let found = find_tone_key(&self.tone_map, key);
        let i: usize = match found { Some(i) => i, None => self.tone_map.len() };
        if i < self.tone_map.len() {
            self.tone_map.set(i, (key, tone));
            proof {
                let m1 = self.tone_map@;
                assert(forall|j: int| 0 <= j < m1.len() ==> (#[trigger] m1[j]).0 == m0[j].0);
                assert(tone_keys_distinct(m1));
                assert forall|k: char| #[trigger] tone_lookup(m1, k) == if k == key {
                    Some(tone)
                } else {
                    tone_lookup(m0, k)
                } by {
                    if k == key {
                        lemma_tone_lookup_at(m1, i as int);
                    } else if has_tone(m0, k) {
                        let c = choose|c: int| 0 <= c < m0.len() && (#[trigger] m0[c]).0 == k;
                        lemma_tone_lookup_at(m0, c);
                        lemma_tone_lookup_at(m1, c);
                    } else {
                        assert(!has_tone(m1, k));
                    }
                }
            }
        } else {
            self.tone_map.push((key, tone));
            proof {
                let m1 = self.tone_map@;
                assert(forall|j: int| 0 <= j < m0.len() ==> (#[trigger] m1[j]) == m0[j]);
                assert(tone_keys_distinct(m1));
                assert forall|k: char| #[trigger] tone_lookup(m1, k) == if k == key {
                    Some(tone)
                } else {
                    tone_lookup(m0, k)
                } by {
                    if k == key {
                        lemma_tone_lookup_at(m1, m0.len() as int);
                    } else if has_tone(m0, k) {
                        let c = choose|c: int| 0 <= c < m0.len() && (#[trigger] m0[c]).0 == k;
                        lemma_tone_lookup_at(m0, c);
                        lemma_tone_lookup_at(m1, c);
                    } else {
                        assert(!has_tone(m1, k));
                    }
                }
            }
        }
    }

    /// Whether `ch` is a tone key.
    pub fn is_tone_key(&self, ch: char) -> (r: bool)
        requires self.wf(),
        ensures r == has_tone(self.tone_map@, ch),
    {
        tone_map_get(&self.tone_map, ch).is_some()
    }

    /// The tone mark for a key.
    pub fn get_tone(&self, ch: char) -> (r: Option<ToneMark>)
        requires self.wf(),
        ensures r == tone_lookup(self.tone_map@, ch),
    {
        tone_map_get(&self.tone_map, ch)
    }
}

impl Default for PipelineConfig {
    fn default() -> (r: Self)
        ensures
            r.name@ == seq!['d', 'e', 'f', 'a', 'u', 'l', 't'],
            r.transform_rules@.len() == 0,
            r.tone_map@.len() == 0,
            r.wf(),
    {
        proof { reveal_strlit("default"); }
        Self::new("default")
    }
}

} // verus!
