//! The executor: runs a key through the stages in order and turns the
//! stage that stops the run into the actions the input method performs.
//!
//! Learning snapshots (`set_learning_snapshot`) and the word-boundary repair
//! of a confirmed word (`boundary_repair`, `compose_word_forced_composed`)
//! are not part of this executor: the learning snapshot type, its shared
//! handle and the closed-syllable composer they rest on are not part of this
//! crate. A key let through confirms the syllable as it stands.

use vstd::prelude::*;
use crate::pipeline::config::PipelineConfig;
use crate::pipeline::context::{TypingContext, is_cleared};
use crate::pipeline::stage::{PipelineStage, StageResult};
use crate::pipeline::stages::{
    ComposeStage, GatekeeperStage, LearningStage, LookupStage, NormalizationStage,
    OrthographyStage, OutputStage, ValidationStage,
};
use crate::pipeline::stages::stage11_lookup::lookup_from;
use crate::compose::opts_from;
use crate::text::{str_chars, chars_eq, chars_to_string};
use crate::types::Action;

verus! {

/// The kind of a stage in the run.
#[derive(Debug, Clone, Copy, PartialEq, Eq, Structural)]
pub enum StageKind {
    /// Input normalization (always first)
    Normalization,
    /// Routing of non-Vietnamese input (always second)
    Gatekeeper,
    /// Keystroke composition
    Compose,
    /// Unicode form and tone style
    Orthography,
    /// Learning
    Learning,
    /// Dictionary lookup
    Lookup,
    /// Syllable validation
    Validation,
    /// Output diff (always last)
    Output,
}

/// The middle stage a name selects, if any.
pub open spec fn middle_kind(name: Seq<char>) -> Option<StageKind> {
    if name == seq!['c', 'o', 'm', 'p', 'o', 's', 'e'] {
        Some(StageKind::Compose)
    } else if name == seq!['o', 'r', 't', 'h', 'o', 'g', 'r', 'a', 'p', 'h', 'y'] {
        Some(StageKind::Orthography)
    } else if name == seq!['l', 'e', 'a', 'r', 'n', 'i', 'n', 'g'] {
        Some(StageKind::Learning)
    } else if name == seq!['l', 'o', 'o', 'k', 'u', 'p'] {
        Some(StageKind::Lookup)
    } else if name == seq!['v', 'a', 'l', 'i', 'd', 'a', 't', 'i', 'o', 'n'] {
        Some(StageKind::Validation)
    } else {
        None
    }
}

/// The stages selected by a list of names, in order; unknown names are skipped.
pub open spec fn kinds_of(names: Seq<Seq<char>>) -> Seq<StageKind>
    decreases names.len(),
{
    if names.len() == 0 {
        Seq::empty()
    } else {
        kinds_of(names.drop_last()) + match middle_kind(names.last()) {
            Some(k) => seq![k],
            None => Seq::empty(),
        }
    }
}

/// The middle stages: those the configured names select, or by default
/// compose, orthography, learning, lookup.
pub open spec fn middle_kinds(config: PipelineConfig) -> Seq<StageKind> {
    if config.pipeline.enabled@.len() == 0 {
        seq![StageKind::Compose, StageKind::Orthography, StageKind::Learning, StageKind::Lookup]
    } else {
        kinds_of(config.pipeline.enabled@.map_values(|s: String| s@))
    }
}

/// The stages built for a configuration: normalization and gatekeeper
/// first, output last, the selected middle stages between.
pub open spec fn stage_plan(config: PipelineConfig) -> Seq<StageKind> {
    seq![StageKind::Normalization, StageKind::Gatekeeper] + middle_kinds(config)
        + seq![StageKind::Output]
}

/// `actions` answer a key that a stage let through: the pending syllable is
/// confirmed first when composition is used and one is pending, then the key
/// is committed.
pub open spec fn is_pass_through_output(actions: Seq<Action>, use_composition: bool, syllable: Seq<char>, input: char) -> bool {
    if use_composition && syllable.len() > 0 {
        &&& actions.len() == 2
        &&& actions[0] matches Action::ConfirmComposition(s) && s@ == syllable
        &&& actions[1] matches Action::Commit(s) && s@ == seq![input]
    } else {
        &&& actions.len() == 1
        &&& actions[0] matches Action::Commit(s) && s@ == seq![input]
    }
}

/// The actions for a key that a stage let through.
pub fn pass_through_actions(use_composition: bool, syllable: &str, input: char) -> (r: Vec<Action>)
    ensures
        is_pass_through_output(r@, use_composition, syllable@, input),
{
    let mut actions: Vec<Action> = Vec::new();
    if use_composition && str_chars(syllable).len() > 0 {
        actions.push(Action::ConfirmComposition(String::from_str(syllable)));
    }
    let key: [char; 1] = [input];
    assert(key@ =~= seq![input]);
    actions.push(Action::Commit(chars_to_string(&key)));
    actions
}

fn middle_stage_kind(name: &str) -> (r: Option<StageKind>)
    ensures
        r == middle_kind(name@),
{
    let n = str_chars(name);
    if chars_eq(n.as_slice(), &['c', 'o', 'm', 'p', 'o', 's', 'e']) {
        Some(StageKind::Compose)
    } else if chars_eq(n.as_slice(), &['o', 'r', 't', 'h', 'o', 'g', 'r', 'a', 'p', 'h', 'y']) {
        Some(StageKind::Orthography)
    } else if chars_eq(n.as_slice(), &['l', 'e', 'a', 'r', 'n', 'i', 'n', 'g']) {
        Some(StageKind::Learning)
    } else if chars_eq(n.as_slice(), &['l', 'o', 'o', 'k', 'u', 'p']) {
        Some(StageKind::Lookup)
    } else if chars_eq(n.as_slice(), &['v', 'a', 'l', 'i', 'd', 'a', 't', 'i', 'o', 'n']) {
        Some(StageKind::Validation)
    } else {
        None
    }
}

/// A built-in stage, as the executor holds it.
pub enum BuiltinStage {
    /// Stage 1
    Normalization(NormalizationStage),
    /// Stage 2
    Gatekeeper(GatekeeperStage),
    /// Keystroke composition
    Compose(ComposeStage),
    /// Unicode form and tone style
    Orthography(OrthographyStage),
    /// Learning
    Learning(LearningStage),
    /// Dictionary lookup
    Lookup(LookupStage),
    /// Syllable validation
    Validation(ValidationStage),
    /// Output diff
    Output(OutputStage),
}

impl BuiltinStage {
    /// What processing one key does: the step of the stage held.
    pub open spec fn steps(&self, before: TypingContext, input: char, r: StageResult, after: TypingContext) -> bool {
        match self {
            BuiltinStage::Normalization(s) => s.steps(before, input, r, after),
            BuiltinStage::Gatekeeper(s) => s.steps(before, input, r, after),
            BuiltinStage::Compose(s) => s.steps(before, input, r, after),
            BuiltinStage::Orthography(s) => s.steps(before, input, r, after),
            BuiltinStage::Learning(s) => s.steps(before, input, r, after),
            BuiltinStage::Lookup(s) => s.steps(before, input, r, after),
            BuiltinStage::Validation(s) => s.steps(before, input, r, after),
            BuiltinStage::Output(s) => s.steps(before, input, r, after),
        }
    }

    /// The kind of the stage held.
    pub open spec fn kind(&self) -> StageKind {
        match self {
            BuiltinStage::Normalization(_) => StageKind::Normalization,
            BuiltinStage::Gatekeeper(_) => StageKind::Gatekeeper,
            BuiltinStage::Compose(_) => StageKind::Compose,
            BuiltinStage::Orthography(_) => StageKind::Orthography,
            BuiltinStage::Learning(_) => StageKind::Learning,
            BuiltinStage::Lookup(_) => StageKind::Lookup,
            BuiltinStage::Validation(_) => StageKind::Validation,
            BuiltinStage::Output(_) => StageKind::Output,
        }
    }
}

impl PipelineStage for BuiltinStage {
    fn process(&self, ctx: &mut TypingContext, input: char) -> (r: StageResult)
        ensures
            self.steps(*old(ctx), input, r, *final(ctx)),
    {
        match self {
            BuiltinStage::Normalization(s) => s.process(ctx, input),
            BuiltinStage::Gatekeeper(s) => s.process(ctx, input),
            BuiltinStage::Compose(s) => s.process(ctx, input),
            BuiltinStage::Orthography(s) => s.process(ctx, input),
            BuiltinStage::Learning(s) => s.process(ctx, input),
            BuiltinStage::Lookup(s) => s.process(ctx, input),
            BuiltinStage::Validation(s) => s.process(ctx, input),
            BuiltinStage::Output(s) => s.process(ctx, input),
        }
    }

    /// The name of the stage held.
    fn name(&self) -> (r: &'static str)
        ensures
            r@ == match self {
                BuiltinStage::Normalization(_) => "NormalizationStage"@,
                BuiltinStage::Gatekeeper(_) => "GatekeeperStage"@,
                BuiltinStage::Compose(_) => "ComposeStage"@,
                BuiltinStage::Orthography(_) => "OrthographyStage"@,
                BuiltinStage::Learning(_) => "LearningStage"@,
                BuiltinStage::Lookup(_) => "LookupStage"@,
                BuiltinStage::Validation(_) => "ValidationStage"@,
                BuiltinStage::Output(_) => "OutputStage"@,
            },
    {
        match self {
            BuiltinStage::Normalization(s) => s.name(),
            BuiltinStage::Gatekeeper(s) => s.name(),
            BuiltinStage::Compose(s) => s.name(),
            BuiltinStage::Orthography(s) => s.name(),
            BuiltinStage::Learning(s) => s.name(),
            BuiltinStage::Lookup(s) => s.name(),
            BuiltinStage::Validation(s) => s.name(),
            BuiltinStage::Output(s) => s.name(),
        }
    }

    /// The built-in stages keep no state between keys: nothing changes.
    fn reset(&mut self)
        ensures
            *final(self) == *old(self),
    {
        match self {
            BuiltinStage::Normalization(s) => s.reset(),
            BuiltinStage::Gatekeeper(s) => s.reset(),
            BuiltinStage::Compose(s) => s.reset(),
            BuiltinStage::Orthography(s) => s.reset(),
            BuiltinStage::Learning(s) => s.reset(),
            BuiltinStage::Lookup(s) => s.reset(),
            BuiltinStage::Validation(s) => s.reset(),
            BuiltinStage::Output(s) => s.reset(),
        }
    }
}

/// `st` is the stage of its kind built for `config`: normalization and
/// learning with their defaults, the gatekeeper for the method's name and
/// script mode, composition with the options derived from `config`,
/// orthography with its tone style and normal form, lookup as configured,
/// validation strict unless invalid syllables are allowed, and output in
/// the configured composition mode.
pub open spec fn built_for(config: PipelineConfig, st: BuiltinStage) -> bool {
    match st {
        BuiltinStage::Normalization(s) => !s.preserve_case,
        BuiltinStage::Gatekeeper(s) => s.method() == config.name@ && s.native() == config.native_script_mode,
        BuiltinStage::Compose(s) => opts_from(config, s.options()),
        BuiltinStage::Orthography(s) => s.tone_style == config.tone_style && s.unicode_form == config.unicode_form,
        BuiltinStage::Learning(s) => !s.enabled && s.max_history == 1000,
        BuiltinStage::Lookup(s) => lookup_from(config, s),
        BuiltinStage::Validation(s) => s.strict_mode == (match config.validation {
            Some(v) => !v.allow_invalid,
            None => false,
        }),
        BuiltinStage::Output(s) => s.use_composition == config.pipeline.use_composition,
    }
}

/// Running `input` through `stages` from index `i` on, in context `ctx`,
/// can answer `out` and leave `fin`: each stage takes one step; on
/// `Continue` the next stage runs; on `Output` its actions are the answer;
/// on `PassThrough` the key is let through (see `is_pass_through_output`,
/// over the syllable the stage left) and the context is cleared. When every
/// stage continues the answer is `DoNothing`.
pub open spec fn runs_from(
    stages: Seq<BuiltinStage>,
    i: int,
    ctx: TypingContext,
    input: char,
    use_composition: bool,
    out: Seq<Action>,
    fin: TypingContext,
) -> bool
    decreases stages.len() - i,
{
    if 0 <= i < stages.len() {
        exists|res: StageResult, mid: TypingContext| #[trigger] stages[i].steps(ctx, input, res, mid) && match res {
            StageResult::Continue => runs_from(stages, i + 1, mid, input, use_composition, out, fin),
            StageResult::PassThrough => is_pass_through_output(out, use_composition, mid.syllable_buffer@, input)
                && is_cleared(mid, fin),
            StageResult::Output(actions) => out == actions@ && fin == mid,
        }
    } else {
        out == seq![Action::DoNothing] && fin == ctx
    }
}

/// Runs keys through the stages and keeps the typing context between keys.
pub struct PipelineExecutor {
    stages: Vec<BuiltinStage>,
    kinds: Vec<StageKind>,
    context: TypingContext,
    use_composition: bool,
}

impl PipelineExecutor {
    /// The kinds of the stages, in run order.
    pub closed spec fn stage_kinds(&self) -> Seq<StageKind> {
        self.kinds@
    }

    /// The stages, in run order.
    pub closed spec fn stages_spec(&self) -> Seq<BuiltinStage> {
        self.stages@
    }

    /// The typing context.
    pub closed spec fn context_spec(&self) -> TypingContext {
        self.context
    }

    /// Whether composition actions are emitted.
    pub closed spec fn use_composition_spec(&self) -> bool {
        self.use_composition
    }

    /// An executor for `config`: the stages of `stage_plan(config)` and a
    /// fresh context.
    pub fn new(config: PipelineConfig) -> (r: Self)
        requires
            config.wf(),
        ensures
            r.stage_kinds() == stage_plan(config),
            r.stages_spec().map_values(|st: BuiltinStage| st.kind()) == r.stage_kinds(),
            forall|k: int| 0 <= k < r.stages_spec().len() ==> built_for(config, #[trigger] r.stages_spec()[k]),
            r.use_composition_spec() == config.pipeline.use_composition,
            r.context_spec().char_buffer@.len() == 0,
            r.context_spec().syllable_buffer@.len() == 0,
            r.context_spec().last_output@.len() == 0,
    {
        let mut stages: Vec<BuiltinStage> = Vec::new();
        let mut kinds: Vec<StageKind> = Vec::new();
        let normalization = BuiltinStage::Normalization(NormalizationStage::new());
        stages.push(normalization);
        kinds.push(StageKind::Normalization);
        let gatekeeper = BuiltinStage::Gatekeeper(GatekeeperStage::from_config(&config));
        stages.push(gatekeeper);
        kinds.push(StageKind::Gatekeeper);
        assert(kinds@ =~= seq![StageKind::Normalization, StageKind::Gatekeeper]);
        assert(stages@.map_values(|st: BuiltinStage| st.kind()) =~= kinds@);
        let ghost names = config.pipeline.enabled@.map_values(|s: String| s@);
        let count = config.pipeline.enabled.len();
        let defaults: [StageKind; 4] = [StageKind::Compose, StageKind::Orthography, StageKind::Learning, StageKind::Lookup];
        let use_defaults = count == 0;
        let n = if use_defaults { 4 } else { count };
        let mut i: usize = 0;
        while i < n
            invariant
                config.wf(),
                i <= n,
                count == names.len(),
                use_defaults == (count == 0),
                use_defaults ==> n == 4,
                !use_defaults ==> n == count,
                names == config.pipeline.enabled@.map_values(|s: String| s@),
                defaults@ == seq![StageKind::Compose, StageKind::Orthography, StageKind::Learning, StageKind::Lookup],
                stages@.map_values(|st: BuiltinStage| st.kind()) == kinds@,
                forall|k: int| 0 <= k < stages@.len() ==> built_for(config, #[trigger] stages@[k]),
                use_defaults ==> kinds@ == seq![StageKind::Normalization, StageKind::Gatekeeper] + defaults@.subrange(0, i as int),
                !use_defaults ==> kinds@ == seq![StageKind::Normalization, StageKind::Gatekeeper] + kinds_of(names.subrange(0, i as int)),
            decreases n - i,
        {
            let kind = if use_defaults {
                Some(defaults[i])
            } else {
                middle_stage_kind(config.pipeline.enabled[i].as_str())
            };
            proof {
                if !use_defaults {
                    assert(names.subrange(0, (i + 1) as int).drop_last() =~= names.subrange(0, i as int));
                }
            }
            match kind {
                Some(StageKind::Compose) => {
                    let b = BuiltinStage::Compose(ComposeStage::from_config(&config));
                    stages.push(b);
                    kinds.push(StageKind::Compose);
                },
                Some(StageKind::Orthography) => {
                    let b = BuiltinStage::Orthography(OrthographyStage::from_config(&config));
                    stages.push(b);
                    kinds.push(StageKind::Orthography);
                },
                Some(StageKind::Learning) => {
                    let b = BuiltinStage::Learning(LearningStage::new());
                    stages.push(b);
                    kinds.push(StageKind::Learning);
                },
                Some(StageKind::Lookup) => {
                    let b = BuiltinStage::Lookup(LookupStage::from_config(&config));
                    stages.push(b);
                    kinds.push(StageKind::Lookup);
                },
                Some(StageKind::Validation) => {
                    let b = BuiltinStage::Validation(ValidationStage::from_config(&config));
                    stages.push(b);
                    kinds.push(StageKind::Validation);
                },
                _ => {},
            }
            assert(stages@.map_values(|st: BuiltinStage| st.kind()) =~= kinds@);
            proof {
                if use_defaults {
                    assert(kinds@ =~= seq![StageKind::Normalization, StageKind::Gatekeeper] + defaults@.subrange(0, (i + 1) as int));
                } else {
                    assert(kinds@ =~= seq![StageKind::Normalization, StageKind::Gatekeeper]
                        + kinds_of(names.subrange(0, (i + 1) as int)));
                }
            }
            i += 1;
        }
        proof {
            if use_defaults {
                assert(defaults@.subrange(0, 4) =~= defaults@);
            } else {
                assert(names.subrange(0, count as int) =~= names);
            }
        }
        let output = BuiltinStage::Output(OutputStage::new(config.pipeline.use_composition));
        stages.push(output);
        kinds.push(StageKind::Output);
        assert(kinds@ =~= stage_plan(config));
        assert(stages@.map_values(|st: BuiltinStage| st.kind()) =~= kinds@);
        PipelineExecutor {
            stages,
            kinds,
            context: TypingContext::new(),
            use_composition: config.pipeline.use_composition,
        }
    }

    /// Run `input` through the stages. The first stage that does not
    /// continue decides: its actions are returned, or, for a key let
    /// through, the pending syllable is confirmed (when composition is
    /// used), the key committed and the pipeline reset. When every stage
    /// continues the answer is `DoNothing` (see `runs_from`).
    pub fn process(&mut self, input: char) -> (r: Vec<Action>)
        ensures
            final(self).stage_kinds() == old(self).stage_kinds(),
            final(self).stages_spec() == old(self).stages_spec(),
            final(self).use_composition_spec() == old(self).use_composition_spec(),
            runs_from(
                old(self).stages_spec(),
                0,
                old(self).context_spec(),
                input,
                old(self).use_composition_spec(),
                r@,
                final(self).context_spec(),
            ),
    {
        let ghost stages0 = self.stages@;
        let ghost ctx0 = self.context;
        let mut i: usize = 0;
        while i < self.stages.len()
            invariant
                i <= self.stages@.len(),
                stages0 == old(self).stages@,
                ctx0 == old(self).context,
                self.stages@ == stages0,
                self.stage_kinds() == old(self).stage_kinds(),
                self.use_composition == old(self).use_composition,
                forall|o: Seq<Action>, f: TypingContext|
                    runs_from(stages0, i as int, self.context, input, self.use_composition, o, f)
                        ==> runs_from(stages0, 0, ctx0, input, self.use_composition, o, f),
            decreases self.stages@.len() - i,
        {
            let ghost before = self.context;
            let result = self.stages[i].process(&mut self.context, input);
            let ghost mid = self.context;
            let ghost res = result;
            assert(stages0[i as int].steps(before, input, res, mid));
            match result {
                StageResult::Continue => {
                    assert forall|o: Seq<Action>, f: TypingContext|
                        runs_from(stages0, i + 1, mid, input, self.use_composition, o, f)
                            implies runs_from(stages0, 0, ctx0, input, self.use_composition, o, f) by {
                        assert(runs_from(stages0, i as int, before, input, self.use_composition, o, f));
                    }
                },
                StageResult::PassThrough => {
                    let actions = pass_through_actions(
                        self.use_composition,
                        self.context.syllable_buffer.as_str(),
                        input,
                    );
                    self.reset();
                    assert(runs_from(stages0, i as int, before, input, self.use_composition, actions@, self.context));
                    return actions;
                },
                StageResult::Output(actions) => {
                    assert(runs_from(stages0, i as int, before, input, self.use_composition, actions@, mid));
                    return actions;
                },
            }
            i += 1;
        }
        let mut nothing: Vec<Action> = Vec::new();
        nothing.push(Action::DoNothing);
        assert(nothing@ =~= seq![Action::DoNothing]);
        assert(runs_from(stages0, i as int, self.context, input, self.use_composition, nothing@, self.context));
        nothing
    }

    /// Clear the context and reset every stage.
    pub fn reset(&mut self)
        ensures
            final(self).stage_kinds() == old(self).stage_kinds(),
            final(self).stages_spec() == old(self).stages_spec(),
            final(self).use_composition_spec() == old(self).use_composition_spec(),
            is_cleared(old(self).context_spec(), final(self).context_spec()),
    {
        self.context.clear();
        let mut i: usize = 0;
        while i < self.stages.len()
            invariant
                self.stages@ == old(self).stages@,
                self.stage_kinds() == old(self).stage_kinds(),
                self.use_composition == old(self).use_composition,
                is_cleared(old(self).context, self.context),
            decreases self.stages@.len() - i,
        {
            self.stages[i].reset();
            i += 1;
        }
    }

    /// The composed syllable.
    pub fn syllable(&self) -> (r: &str)
        ensures
            r@ == self.context_spec().syllable_buffer@,
    {
        self.context.syllable_buffer.as_str()
    }

    /// The composed syllable (same as `syllable`).
    pub fn get_buffer(&self) -> (r: &str)
        ensures
            r@ == self.context_spec().syllable_buffer@,
    {
        self.context.syllable_buffer.as_str()
    }

    /// The raw keys typed for the current word.
    pub fn raw_buffer(&self) -> (r: String)
        ensures
            r@ == self.context_spec().char_buffer@.map_values(|c: crate::pipeline::context::CharInfo| c.ch),
    {
        self.context.raw_buffer()
    }

    /// Whether the current word is passed through as English.
    pub fn is_temp_english_mode(&self) -> (r: bool)
        ensures
            r == self.context_spec().temp_english_mode,
    {
        self.context.temp_english_mode
    }

    /// The typing context.
    pub fn context(&self) -> (r: &TypingContext)
        ensures
            *r == self.context_spec(),
    {
        &self.context
    }

    /// Number of stages.
    pub fn stage_count(&self) -> (r: usize)
        ensures
            r == self.stage_kinds().len(),
    {
        self.kinds.len()
    }
}

} // verus!

