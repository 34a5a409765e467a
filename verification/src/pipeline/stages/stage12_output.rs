//! Output stage: turns the change from the last output to the current
//! syllable into an action (backspaces + text, or a composition update).

use vstd::prelude::*;
use crate::text::{str_chars, chars_to_string};
use crate::types::Action;
use crate::pipeline::context::{TypingContext, Candidate};
use crate::pipeline::stage::{PipelineStage, StageResult};

verus! {

/// Stage 12: output.
#[derive(Debug, Clone)]
pub struct OutputStage {
    /// Composition (pre-edit) mode instead of backspace + text
    pub use_composition: bool,
}

/// Index of the first position where `a` and `b` differ, from `i` on (the
/// shorter length when one is a prefix of the other).
pub open spec fn first_diff(a: Seq<char>, b: Seq<char>, i: int) -> int
    decreases a.len() - i,
{
    if 0 <= i < a.len() && i < b.len() && a[i] == b[i] {
        first_diff(a, b, i + 1)
    } else {
        i
    }
}

/// Length of the common prefix of `a` and `b`.
pub open spec fn diff_pos(a: Seq<char>, b: Seq<char>) -> int {
    first_diff(a, b, 0)
}

/// The text after deleting `backspaces` chars from `old` and typing `text`.
pub open spec fn after_edit(old: Seq<char>, backspaces: int, text: Seq<char>) -> Seq<char> {
    old.subrange(0, old.len() - backspaces) + text
}

/// `a` is the action that takes the screen from `old` to `new`.
pub open spec fn is_output_action(a: Action, use_composition: bool, old: Seq<char>, new: Seq<char>) -> bool {
    if use_composition {
        if old == new {
            a == Action::DoNothing
        } else {
            a matches Action::UpdateComposition { text, cursor } && text@ == new && cursor == new.len()
        }
    } else {
        let d = diff_pos(old, new);
        let bs = old.len() - d;
        let changed = new.subrange(d, new.len() as int);
        if bs == 0 && changed.len() == 0 {
            a == Action::DoNothing
        } else if bs == 0 {
            a matches Action::Commit(t) && t@ == changed
        } else {
            a matches Action::Replace { backspace_count, text } && backspace_count == bs && text@ == changed
        }
    }
}

/// Same candidate, field by field.
pub open spec fn same_candidate(a: Candidate, b: Candidate) -> bool {
    &&& a.text@ == b.text@
    &&& match (a.value, b.value) {
        (Some(x), Some(y)) => x@ == y@,
        (None, None) => true,
        _ => false,
    }
    &&& a.candidate_type == b.candidate_type
    &&& a.score_bits == b.score_bits
}

/// The candidate lists agree entry by entry.
pub open spec fn same_candidates(a: Seq<Candidate>, b: Seq<Candidate>) -> bool {
    a.len() == b.len() && forall|i: int| 0 <= i < a.len() ==> same_candidate(#[trigger] a[i], b[i])
}

/// `a` shows `cands` for `input`.
pub open spec fn shows(a: Action, cands: Seq<Candidate>, input: Seq<char>) -> bool {
    a matches Action::ShowCandidates { candidates, input: i } && same_candidates(candidates@, cands) && i@ == input
}

fn copy_candidate(c: &Candidate) -> (r: Candidate)
    ensures
        same_candidate(r, *c),
{
    Candidate {
        text: c.text.clone(),
        value: match &c.value {
            Some(v) => Some(v.clone()),
            None => None,
        },
        candidate_type: c.candidate_type,
        score_bits: c.score_bits,
    }
}

fn copy_candidates(v: &Vec<Candidate>) -> (r: Vec<Candidate>)
    ensures
        same_candidates(r@, v@),
{
    let mut out: Vec<Candidate> = Vec::new();
    let mut i: usize = 0;
    while i < v.len()
        invariant
            i <= v@.len(),
            out@.len() == i,
            forall|j: int| 0 <= j < i ==> same_candidate(#[trigger] out@[j], v@[j]),
        decreases v@.len() - i,
    {
        out.push(copy_candidate(&v[i]));
        i += 1;
    }
    out
}

impl OutputStage {
    /// Create the stage.
    pub fn new(use_composition: bool) -> (r: Self)
        ensures
            r.use_composition == use_composition,
    {
        Self { use_composition }
    }

    /// Index of the first char where `old` and `new` differ.
    pub fn find_diff_position(old: &str, new: &str) -> (r: usize)
        ensures
            r == diff_pos(old@, new@),
            r <= old@.len() && r <= new@.len(),
    {
        let a = str_chars(old);
        let b = str_chars(new);
        let mut i: usize = 0;
        while i < a.len() && i < b.len() && a[i] == b[i]
            invariant
                i <= a@.len() && i <= b@.len(),
                a@ == old@ && b@ == new@,
                first_diff(old@, new@, 0) == first_diff(old@, new@, i as int),
            decreases a@.len() - i,
        {
            i += 1;
        }
        i
    }

    /// Number of chars of `old` after `diff_pos` (0 when there are none).
    pub fn calculate_backspace_count(old: &str, diff_pos: usize) -> (r: usize)
        ensures
            r == (if old@.len() > diff_pos { old@.len() - diff_pos } else { 0 }),
    {
        let n = str_chars(old).len();
        if n > diff_pos { n - diff_pos } else { 0 }
    }

    /// The chars of `new` from `diff_pos` on.
    pub fn get_changed_text(new: &str, diff_pos: usize) -> (r: String)
        ensures
            r@ == (if diff_pos < new@.len() { new@.subrange(diff_pos as int, new@.len() as int) } else { Seq::empty() }),
    {
        let chars = str_chars(new);
        if diff_pos < chars.len() {
            let v = crate::text::sub_vec(chars.as_slice(), diff_pos, chars.len());
            chars_to_string(v.as_slice())
        } else {
            String::new()
        }
    }

    /// The action that takes the screen from `old` to `new`.
    pub fn generate_action(&self, old: &str, new: &str) -> (r: Action)
        ensures
            is_output_action(r, self.use_composition, old@, new@),
    {
        if self.use_composition {
            let a = str_chars(old);
            let b = str_chars(new);
            if crate::text::chars_eq(a.as_slice(), b.as_slice()) {
                return Action::DoNothing;
            }
            return Action::UpdateComposition { text: String::from_str(new), cursor: b.len() };
        }
        let diff_pos = Self::find_diff_position(old, new);
        let backspace_count = Self::calculate_backspace_count(old, diff_pos);
        let changed_text = Self::get_changed_text(new, diff_pos);
        let changed_len = str_chars(changed_text.as_str()).len();
        assert(changed_text@ == new@.subrange(diff_pos as int, new@.len() as int));
        assert(backspace_count == old@.len() - diff_pos);
        if backspace_count == 0 && changed_len == 0 {
            Action::DoNothing
        } else if backspace_count == 0 {
            Action::Commit(changed_text)
        } else {
            Action::Replace { backspace_count, text: changed_text }
        }
    }
}

impl Default for OutputStage {
    fn default() -> (r: Self)
        ensures
            !r.use_composition,
    {
        Self::new(false)
    }
}

impl OutputStage {
    /// One key: the output actions (see `process`), and the syllable becomes the last output.
    pub open spec fn steps(&self, before: TypingContext, input: char, r: StageResult, after: TypingContext) -> bool {
        r matches StageResult::Output(acts) && ({
            let c = before.candidates@;
            let syl = before.syllable_buffer@;
            if input == ' ' && before.showing_candidates {
                &&& after == before
                &&& if c.len() > 0 { acts@.len() == 1 && shows(acts@[0], c, syl) } else { acts@.len() == 0 }
            } else {
                &&& after == (TypingContext { last_output: after.last_output, ..before })
                &&& after.last_output@ == syl
                &&& acts@.len() >= 1
                &&& is_output_action(acts@[0], self.use_composition, before.last_output@, syl)
                &&& if before.showing_candidates && c.len() > 0 {
                    acts@.len() == 2 && shows(acts@[1], c, syl)
                } else if c.len() > 0 || before.showing_candidates {
                    acts@.len() == 2 && acts@[1] == Action::HideCandidates
                } else {
                    acts@.len() == 1
                }
            }
        })
    }
}

impl PipelineStage for OutputStage {
    /// A space while candidates show only refreshes the candidate list.
    /// Otherwise: the edit action from the last output to the syllable,
    /// then show or hide the candidates, and the syllable becomes the last
    /// output.
    fn process(&self, ctx: &mut TypingContext, input: char) -> (r: StageResult)
        ensures
            self.steps(*old(ctx), input, r, *final(ctx)),
    {
        let mut actions: Vec<Action> = Vec::new();
        if input == ' ' && ctx.showing_candidates {
            if ctx.candidates.len() > 0 {
                actions.push(Action::ShowCandidates {
                    candidates: copy_candidates(&ctx.candidates),
                    input: ctx.syllable_buffer.clone(),
                });
            }
            return StageResult::Output(actions);
        }
        let main_action = self.generate_action(ctx.last_output.as_str(), ctx.syllable_buffer.as_str());
        actions.push(main_action);
        if ctx.showing_candidates && ctx.candidates.len() > 0 {
            actions.push(Action::ShowCandidates {
                candidates: copy_candidates(&ctx.candidates),
                input: ctx.syllable_buffer.clone(),
            });
        } else if ctx.candidates.len() > 0 || ctx.showing_candidates {
            actions.push(Action::HideCandidates);
        }
        ctx.commit_output();
        StageResult::Output(actions)
    }

    fn name(&self) -> (r: &'static str)
        ensures
            r@ == "OutputStage"@,
    {
        "OutputStage"
    }

    /// Nothing to reset: the stage keeps no state between keys.
    fn reset(&mut self)
        ensures
            *final(self) == *old(self),
    {
    }
}

proof fn lemma_first_diff(a: Seq<char>, b: Seq<char>, i: int)
    requires
        0 <= i <= a.len(),
        i <= b.len(),
        a.subrange(0, i) == b.subrange(0, i),
    ensures
        i <= first_diff(a, b, i) <= a.len(),
        first_diff(a, b, i) <= b.len(),
        a.subrange(0, first_diff(a, b, i)) == b.subrange(0, first_diff(a, b, i)),
        first_diff(a, b, i) < a.len() && first_diff(a, b, i) < b.len() ==> a[first_diff(a, b, i)] != b[first_diff(a, b, i)],
    decreases a.len() - i,
{
    if i < a.len() && i < b.len() && a[i] == b[i] {
        assert(a.subrange(0, i + 1) =~= a.subrange(0, i).push(a[i]));
        assert(b.subrange(0, i + 1) =~= b.subrange(0, i).push(b[i]));
        lemma_first_diff(a, b, i + 1);
    }
}

/// The output edit reconstructs the new text: deleting the backspaced
/// chars from the old text and typing the changed text gives exactly the
/// new text, and nothing shared is deleted (the kept part is the longest
/// common prefix).
pub proof fn law_edit_reconstructs(old: Seq<char>, new: Seq<char>)
    ensures
        ({
            let d = diff_pos(old, new);
            &&& 0 <= d <= old.len() && d <= new.len()
            &&& after_edit(old, old.len() - d, new.subrange(d, new.len() as int)) == new
            &&& old.subrange(0, d) == new.subrange(0, d)
            &&& (d < old.len() && d < new.len() ==> old[d] != new[d])
        }),
{
    assert(old.subrange(0, 0) =~= new.subrange(0, 0));
    lemma_first_diff(old, new, 0);
    let d = diff_pos(old, new);
    assert(old.subrange(0, old.len() - (old.len() - d)) == old.subrange(0, d));
    assert(new.subrange(0, d) + new.subrange(d, new.len() as int) =~= new);
}

/// Identical texts need no edit.
pub proof fn law_no_change_no_edit(s: Seq<char>)
    ensures
        diff_pos(s, s) == s.len(),
{
    assert(s.subrange(0, 0) =~= s.subrange(0, 0));
    lemma_first_diff(s, s, 0);
    if diff_pos(s, s) < s.len() {
        assert(s[diff_pos(s, s)] == s[diff_pos(s, s)]);
    }
}

} // verus!
