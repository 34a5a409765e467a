//! Stage 11: dictionary lookup — queries the dictionary for the current
//! syllable, keeps the candidates, and selects one on Space/Enter.

use vstd::prelude::*;
use std::sync::Arc;
use crate::pipeline::config::PipelineConfig;
use crate::pipeline::context::{Candidate, TypingContext, is_cleared};
use crate::pipeline::dictionary::DictionaryProvider;
use crate::pipeline::stage::{PipelineStage, StageResult};
use crate::text::{str_chars, chars_to_string, push_text};
use crate::types::Action;

verus! {

/// What Space does while candidates are shown.
#[derive(Debug, Clone, Copy, PartialEq, Eq, Structural)]
pub enum SpaceBehavior {
    /// Select when there is exactly one candidate, else keep searching
    AutoSelectSingle,
    /// Select the first candidate
    AlwaysSelect,
    /// Keep searching (space becomes part of the query)
    AlwaysSearch,
    /// Let space through
    PassThrough,
}

/// What Enter does while candidates are shown.
#[derive(Debug, Clone, Copy, PartialEq, Eq, Structural)]
pub enum EnterBehavior {
    /// Select the first candidate
    SelectFirst,
    /// Select the highlighted candidate
    SelectCurrent,
    /// Let enter through
    PassThrough,
}

/// How the stage answers a key while candidates are shown.
#[derive(Debug, Clone, Copy, PartialEq, Eq, Structural)]
pub enum KeyDecision {
    /// Select the candidate at this index
    Select(usize),
    /// Let the key through without a lookup
    Skip,
    /// Look the syllable up
    Lookup,
}

/// The decision for `input`, from the behaviors and the context.
pub open spec fn key_decision(
    space: SpaceBehavior,
    enter: EnterBehavior,
    ctx: TypingContext,
    input: char,
) -> KeyDecision {
    if ctx.showing_candidates && ctx.candidates@.len() > 0 {
        if input == ' ' {
            match space {
                SpaceBehavior::AutoSelectSingle => if ctx.candidates@.len() == 1 {
                    KeyDecision::Select(0)
                } else {
                    KeyDecision::Lookup
                },
                SpaceBehavior::AlwaysSelect => KeyDecision::Select(0),
                SpaceBehavior::AlwaysSearch => KeyDecision::Lookup,
                SpaceBehavior::PassThrough => KeyDecision::Skip,
            }
        } else if input == '\n' || input == '\r' {
            match enter {
                EnterBehavior::SelectFirst => KeyDecision::Select(0),
                EnterBehavior::SelectCurrent => {
                    let index = match ctx.selected_candidate {
                        Some(i) => i,
                        None => 0usize,
                    };
                    if index < ctx.candidates@.len() {
                        KeyDecision::Select(index)
                    } else {
                        KeyDecision::Lookup
                    }
                },
                EnterBehavior::PassThrough => KeyDecision::Skip,
            }
        } else {
            KeyDecision::Lookup
        }
    } else {
        KeyDecision::Lookup
    }
}

/// The text a candidate inserts.
pub open spec fn candidate_value(c: Candidate) -> Seq<char> {
    match c.value {
        Some(v) => v@,
        None => c.text@,
    }
}

/// `r` hides the candidate window and replaces `backspace_count` characters
/// with `text`.
pub open spec fn is_selection_output(r: StageResult, backspace_count: nat, text: Seq<char>) -> bool {
    &&& r matches StageResult::Output(actions)
    &&& actions@.len() == 2
    &&& actions@[0] == Action::HideCandidates
    &&& actions@[1] matches Action::Replace { backspace_count: b, text: t }
    &&& b == backspace_count
    &&& t@ == text
}

/// The context after storing the lookup's candidates: the top candidate
/// replaces the syllable in auto-replace mode, otherwise the candidates are
/// shown; no candidates hide the window.
pub open spec fn stored(old_ctx: TypingContext, new_ctx: TypingContext, auto_replace: bool, cands: Seq<Candidate>) -> bool {
    if cands.len() > 0 {
        if auto_replace {
            &&& new_ctx.syllable_buffer@ == candidate_value(cands[0])
            &&& new_ctx == (TypingContext {
                syllable_buffer: new_ctx.syllable_buffer,
                showing_candidates: false,
                ..old_ctx
            })
        } else {
            &&& new_ctx.candidates@ == cands
            &&& new_ctx == (TypingContext {
                candidates: new_ctx.candidates,
                showing_candidates: true,
                ..old_ctx
            })
        }
    } else {
        &&& new_ctx.candidates@.len() == 0
        &&& new_ctx == (TypingContext {
            candidates: new_ctx.candidates,
            showing_candidates: false,
            ..old_ctx
        })
    }
}

/// A second handle on the same dictionary (`Option::clone`, which clones
/// the `Arc`); the contract claims only that both handles refer to the same
/// dictionary value.
#[verifier::external_body]
fn share_dictionary(d: &Option<Arc<dyn DictionaryProvider>>) -> (r: Option<Arc<dyn DictionaryProvider>>)
    ensures
        r == *d,
{
    d.clone()
}

/// `"true"` or `"false"`.
pub open spec fn bool_text(b: bool) -> Seq<char> {
    if b { "true"@ } else { "false"@ }
}

/// `s` is the lookup stage built from `config`: enabled when lookup is
/// enabled or configured, with the configured dictionary, auto-replace and
/// Space/Enter behaviors (unknown behavior names pass the key through).
pub open spec fn lookup_from(config: PipelineConfig, s: LookupStage) -> bool {
    &&& s.enabled_spec() == (config.enable_lookup || config.lookup is Some)
    &&& s.dictionary_spec() == config.dictionary
    &&& s.auto_replace_spec() == (match config.lookup {
        Some(l) => l.auto_replace,
        None => false,
    })
    &&& s.space_spec() == (match config.lookup {
        Some(l) => if l.space_behavior@ == "auto_select_single"@ {
            SpaceBehavior::AutoSelectSingle
        } else if l.space_behavior@ == "always_select"@ {
            SpaceBehavior::AlwaysSelect
        } else if l.space_behavior@ == "always_search"@ {
            SpaceBehavior::AlwaysSearch
        } else {
            SpaceBehavior::PassThrough
        },
        None => SpaceBehavior::PassThrough,
    })
    &&& s.enter_spec() == (match config.lookup {
        Some(l) => if l.enter_behavior@ == "select_first"@ {
            EnterBehavior::SelectFirst
        } else if l.enter_behavior@ == "select_current"@ {
            EnterBehavior::SelectCurrent
        } else {
            EnterBehavior::PassThrough
        },
        None => EnterBehavior::PassThrough,
    })
}

/// Stage 11: dictionary lookup.
#[derive(Clone)]
pub struct LookupStage {
    /// Whether lookup is enabled
    pub enabled: bool,
    /// The dictionary queried (none: lookup is off)
    pub dictionary: Option<Arc<dyn DictionaryProvider>>,
    auto_replace: bool,
    space_behavior: SpaceBehavior,
    enter_behavior: EnterBehavior,
}

impl LookupStage {
    /// Whether lookup is enabled.
    pub closed spec fn enabled_spec(&self) -> bool {
        self.enabled
    }

    /// The dictionary queried.
    pub closed spec fn dictionary_spec(&self) -> Option<Arc<dyn DictionaryProvider>> {
        self.dictionary
    }

    /// Auto-replace mode.
    pub closed spec fn auto_replace_spec(&self) -> bool {
        self.auto_replace
    }

    /// Space behavior.
    pub closed spec fn space_spec(&self) -> SpaceBehavior {
        self.space_behavior
    }

    /// Enter behavior.
    pub closed spec fn enter_spec(&self) -> EnterBehavior {
        self.enter_behavior
    }

    /// From the configuration: lookup on when `enable_lookup` is set or
    /// lookup settings are present; the behaviors from those settings
    /// ("auto_select_single", "always_select", "always_search" for Space;
    /// "select_first", "select_current" for Enter; anything else passes
    /// the key through).
    pub fn from_config(config: &PipelineConfig) -> (r: Self)
        ensures
            lookup_from(*config, r),
    {
        let (auto_replace, space_behavior, enter_behavior) = match &config.lookup {
            Some(lookup) => {
                let space = if lookup.space_behavior == String::from_str("auto_select_single") {
                    SpaceBehavior::AutoSelectSingle
                } else if lookup.space_behavior == String::from_str("always_select") {
                    SpaceBehavior::AlwaysSelect
                } else if lookup.space_behavior == String::from_str("always_search") {
                    SpaceBehavior::AlwaysSearch
                } else {
                    SpaceBehavior::PassThrough
                };
                let enter = if lookup.enter_behavior == String::from_str("select_first") {
                    EnterBehavior::SelectFirst
                } else if lookup.enter_behavior == String::from_str("select_current") {
                    EnterBehavior::SelectCurrent
                } else {
                    EnterBehavior::PassThrough
                };
                (lookup.auto_replace, space, enter)
            },
            None => (false, SpaceBehavior::PassThrough, EnterBehavior::PassThrough),
        };
        let dictionary = share_dictionary(&config.dictionary);
        LookupStage {
            enabled: config.enable_lookup || config.lookup.is_some(),
            dictionary,
            auto_replace,
            space_behavior,
            enter_behavior,
        }
    }

    /// Enabled or not, with no dictionary and keys passed through.
    pub fn new(enabled: bool) -> (r: Self)
        ensures
            r.enabled_spec() == enabled,
            r.dictionary_spec() is None,
            !r.auto_replace_spec(),
            r.space_spec() == SpaceBehavior::PassThrough,
            r.enter_spec() == EnterBehavior::PassThrough,
    {
        LookupStage {
            enabled,
            dictionary: None,
            auto_replace: false,
            space_behavior: SpaceBehavior::PassThrough,
            enter_behavior: EnterBehavior::PassThrough,
        }
    }

    /// Enabled, querying `dictionary`, keys passed through.
    pub fn with_dictionary(dictionary: Arc<dyn DictionaryProvider>) -> (r: Self)
        ensures
            r.enabled_spec(),
            r.dictionary_spec() == Some(dictionary),
            !r.auto_replace_spec(),
            r.space_spec() == SpaceBehavior::PassThrough,
            r.enter_spec() == EnterBehavior::PassThrough,
    {
        let dictionary = Some(dictionary);
        LookupStage {
            enabled: true,
            dictionary,
            auto_replace: false,
            space_behavior: SpaceBehavior::PassThrough,
            enter_behavior: EnterBehavior::PassThrough,
        }
    }

    /// The same stage with auto-replace set to `auto_replace`.
    pub fn with_auto_replace(self, auto_replace: bool) -> (r: Self)
        ensures
            r.auto_replace_spec() == auto_replace,
            r.enabled_spec() == self.enabled_spec(),
            r.dictionary_spec() == self.dictionary_spec(),
            r.space_spec() == self.space_spec(),
            r.enter_spec() == self.enter_spec(),
    {
        LookupStage { auto_replace, ..self }
    }

    /// The dictionary's candidates for `syllable`; none without a dictionary.
    pub fn lookup(&self, syllable: &str) -> (r: Vec<Candidate>)
        ensures
            match self.dictionary_spec() {
                Some(d) => d.answers(syllable@, r@),
                None => r@.len() == 0,
            },
    {
        match &self.dictionary {
            Some(dict) => dict.lookup(syllable),
            None => Vec::new(),
        }
    }

    /// Direct query (multi-keyword search); the same as `lookup`.
    pub fn lookup_query(&self, query: &str) -> (r: Vec<Candidate>)
        ensures
            match self.dictionary_spec() {
                Some(d) => d.answers(query@, r@),
                None => r@.len() == 0,
            },
    {
        self.lookup(query)
    }

    /// A short description: `LookupStage { enabled: true, has_dictionary: false }`.
    pub fn describe(&self) -> (r: String)
        ensures
            r@ == "LookupStage { enabled: "@ + bool_text(self.enabled_spec()) + ", has_dictionary: "@
                + bool_text(self.dictionary_spec() is Some) + " }"@,
    {
        let mut out: Vec<char> = Vec::new();
        push_text(&mut out, "LookupStage { enabled: ");
        push_text(&mut out, if self.enabled { "true" } else { "false" });
        push_text(&mut out, ", has_dictionary: ");
        push_text(&mut out, if self.dictionary.is_some() { "true" } else { "false" });
        push_text(&mut out, " }");
        chars_to_string(out.as_slice())
    }

    /// The decision for `input`.
    pub fn decide_key(&self, ctx: &TypingContext, input: char) -> (r: KeyDecision)
        ensures
            r == key_decision(self.space_spec(), self.enter_spec(), *ctx, input),
    {
        if ctx.showing_candidates && ctx.candidates.len() > 0 {
            if input == ' ' {
                match self.space_behavior {
                    SpaceBehavior::AutoSelectSingle => if ctx.candidates.len() == 1 {
                        KeyDecision::Select(0)
                    } else {
                        KeyDecision::Lookup
                    },
                    SpaceBehavior::AlwaysSelect => KeyDecision::Select(0),
                    SpaceBehavior::AlwaysSearch => KeyDecision::Lookup,
                    SpaceBehavior::PassThrough => KeyDecision::Skip,
                }
            } else if input == '\n' || input == '\r' {
                match self.enter_behavior {
                    EnterBehavior::SelectFirst => KeyDecision::Select(0),
                    EnterBehavior::SelectCurrent => {
                        let index = match ctx.selected_candidate {
                            Some(i) => i,
                            None => 0,
                        };
                        if index < ctx.candidates.len() {
                            KeyDecision::Select(index)
                        } else {
                            KeyDecision::Lookup
                        }
                    },
                    EnterBehavior::PassThrough => KeyDecision::Skip,
                }
            } else {
                KeyDecision::Lookup
            }
        } else {
            KeyDecision::Lookup
        }
    }

    /// Select candidate `index`: hide the window, clear the context, and
    /// replace the syllable on screen by the candidate's value.
    pub fn select_candidate(ctx: &mut TypingContext, index: usize) -> (r: StageResult)
        requires
            index < old(ctx).candidates@.len(),
        ensures
            is_selection_output(
                r,
                old(ctx).syllable_buffer@.len(),
                candidate_value(old(ctx).candidates@[index as int]),
            ),
            is_cleared(*old(ctx), *final(ctx)),
    {
        let selected = String::from_str(ctx.candidates[index].get_value());
        let backspace_count = str_chars(ctx.syllable_buffer.as_str()).len();
        ctx.clear();
        let mut actions: Vec<Action> = Vec::new();
        actions.push(Action::HideCandidates);
        actions.push(Action::Replace { backspace_count, text: selected });
        StageResult::Output(actions)
    }

    /// Keep the lookup's candidates (see `stored`).
    pub fn store_candidates(&self, ctx: &mut TypingContext, candidates: Vec<Candidate>)
        ensures
            stored(*old(ctx), *final(ctx), self.auto_replace_spec(), candidates@),
    {
        if candidates.len() > 0 {
            if self.auto_replace {
                ctx.syllable_buffer = String::from_str(candidates[0].get_value());
                ctx.showing_candidates = false;
            } else {
                ctx.candidates = candidates;
                ctx.showing_candidates = true;
            }
        } else {
            ctx.candidates = Vec::new();
            ctx.showing_candidates = false;
        }
    }
}

impl LookupStage {
    /// One key: without lookup, or for a key let through, continue unchanged; a selecting key emits the selection; otherwise the candidates the dictionary answers for the syllable are kept.
    pub open spec fn steps(&self, before: TypingContext, input: char, r: StageResult, after: TypingContext) -> bool {
        &&& !self.enabled_spec() || self.dictionary_spec() is None ==> r == StageResult::Continue && after == before
        &&& self.enabled_spec() && self.dictionary_spec() is Some ==> match key_decision(self.space_spec(), self.enter_spec(), before, input) {
            KeyDecision::Select(i) => is_selection_output(
                r,
                before.syllable_buffer@.len(),
                candidate_value(before.candidates@[i as int]),
            ) && is_cleared(before, after),
            KeyDecision::Skip => r == StageResult::Continue && after == before,
            KeyDecision::Lookup => r == StageResult::Continue
                && exists|cands: Seq<Candidate>| #[trigger] self.dictionary_spec()->0.answers(before.syllable_buffer@, cands)
                    && stored(before, after, self.auto_replace_spec(), cands),
        }
    }
}

impl PipelineStage for LookupStage {
    /// Without lookup, or for a key let through, continue unchanged; for a
    /// selecting key emit the selection; otherwise look the syllable up and
    /// keep what the dictionary returned.
    fn process(&self, ctx: &mut TypingContext, input: char) -> (r: StageResult)
        ensures
            self.steps(*old(ctx), input, r, *final(ctx)),
    {
        if !self.enabled || self.dictionary.is_none() {
            return StageResult::Continue;
        }
        match self.decide_key(ctx, input) {
            KeyDecision::Select(i) => LookupStage::select_candidate(ctx, i),
            KeyDecision::Skip => StageResult::Continue,
            KeyDecision::Lookup => {
                let candidates = self.lookup(ctx.syllable_buffer.as_str());
                let ghost cands = candidates@;
                self.store_candidates(ctx, candidates);
                assert(stored(*old(ctx), *ctx, self.auto_replace_spec(), cands));
                StageResult::Continue
            },
        }
    }

    fn name(&self) -> (r: &'static str)
        ensures
            r@ == "LookupStage"@,
    {
        "LookupStage"
    }

    /// Nothing to reset: the stage keeps no state between keys.
    fn reset(&mut self)
        ensures
            *final(self) == *old(self),
    {
    }
}

} // verus!

