//! Rules over the typing context: matchers that test it and actions that
//! change it, combined into context rules and conditional transform rules.
//! Custom logic plugs in through the `ContextPredicate` and `ContextEffect`
//! traits.

use vstd::prelude::*;
use crate::pipeline::context::{TypingContext, flag_value, is_cleared};
use crate::text::{str_chars, chars_to_string, push_text, push_number, decimal};

verus! {

/// A custom test of the typing context.
pub trait ContextPredicate: Send + Sync {
    /// Whether the context passes the test.
    fn test(&self, ctx: &TypingContext) -> bool;
}

/// A custom change to the typing context.
pub trait ContextEffect: Send + Sync {
    /// Change the context.
    fn apply(&self, ctx: &mut TypingContext);
}

/// When a rule applies.
pub enum RuleMatcher {
    /// Always
    Always,
    /// Never (a disabled rule)
    Never,
    /// The syllable contains this text
    Pattern(String),
    /// The syllable ends with this text
    EndsWith(String),
    /// The syllable starts with this text
    StartsWith(String),
    /// The last key typed is this one
    LastChar(char),
    /// The last transform key is this one
    LastTransformKey(char),
    /// The syllable has this many characters
    Length(usize),
    /// The syllable has between min and max characters (inclusive)
    LengthRange(usize, usize),
    /// All of these apply
    And(Vec<RuleMatcher>),
    /// One of these applies
    Or(Vec<RuleMatcher>),
    /// This one does not apply
    Not(Box<RuleMatcher>),
    /// A custom test
    Custom(Box<dyn ContextPredicate>),
}

/// `p` occurs in `s` at index `i`.
pub open spec fn occurs_at(s: Seq<char>, p: Seq<char>, i: int) -> bool {
    0 <= i && i + p.len() <= s.len() && s.subrange(i, i + p.len()) == p
}

/// `p` occurs somewhere in `s` (the empty text occurs everywhere).
pub open spec fn contains_text(s: Seq<char>, p: Seq<char>) -> bool {
    exists|i: int| occurs_at(s, p, i)
}

/// The matcher uses no custom test.
pub open spec fn is_builtin(m: &RuleMatcher) -> bool
    decreases m,
{
    match m {
        RuleMatcher::And(ms) => forall|i: int| 0 <= i < ms@.len() ==> is_builtin(&ms@[i]),
        RuleMatcher::Or(ms) => forall|i: int| 0 <= i < ms@.len() ==> is_builtin(&ms@[i]),
        RuleMatcher::Not(m1) => is_builtin(&**m1),
        RuleMatcher::Custom(_) => false,
        _ => true,
    }
}

/// Whether a matcher without custom tests applies to `ctx`.
pub open spec fn matcher_holds(m: &RuleMatcher, ctx: TypingContext) -> bool
    decreases m,
{
    match m {
        RuleMatcher::Always => true,
        RuleMatcher::Never => false,
        RuleMatcher::Pattern(p) => contains_text(ctx.syllable_buffer@, p@),
        RuleMatcher::EndsWith(p) => p@.len() <= ctx.syllable_buffer@.len()
            && ctx.syllable_buffer@.subrange(ctx.syllable_buffer@.len() - p@.len(), ctx.syllable_buffer@.len() as int) == p@,
        RuleMatcher::StartsWith(p) => p@.len() <= ctx.syllable_buffer@.len()
            && ctx.syllable_buffer@.subrange(0, p@.len() as int) == p@,
        RuleMatcher::LastChar(c) => ctx.last_char == Some(*c),
        RuleMatcher::LastTransformKey(c) => ctx.last_transform_key == Some(*c),
        RuleMatcher::Length(n) => ctx.syllable_buffer@.len() == *n,
        RuleMatcher::LengthRange(lo, hi) => *lo <= ctx.syllable_buffer@.len() <= *hi,
        RuleMatcher::And(ms) => forall|i: int| 0 <= i < ms@.len() ==> matcher_holds(&ms@[i], ctx),
        RuleMatcher::Or(ms) => exists|i: int| 0 <= i < ms@.len() && matcher_holds(&ms@[i], ctx),
        RuleMatcher::Not(m1) => !matcher_holds(&**m1, ctx),
        RuleMatcher::Custom(_) => false,
    }
}

fn text_occurs_at(s: &[char], p: &[char], i: usize) -> (r: bool)
    requires
        i + p@.len() <= s@.len(),
    ensures
        r == occurs_at(s@, p@, i as int),
{
    let mut j: usize = 0;
    while j < p.len()
        invariant
            j <= p@.len(),
            i + p@.len() <= s@.len(),
            forall|k: int| 0 <= k < j ==> s@[i + k] == p@[k],
        decreases p@.len() - j,
    {
        assert(i + j < s@.len());
        assert(s@.len() == s.len());
        let k = i + j;
        if s[k] != p[j] {
            assert(s@.subrange(i as int, i + p@.len())[j as int] != p@[j as int]);
            return false;
        }
        j += 1;
    }
    assert(s@.subrange(i as int, i + p@.len()) =~= p@);
    true
}

fn text_contains(s: &[char], p: &[char]) -> (r: bool)
    ensures
        r == contains_text(s@, p@),
{
    if p.len() > s.len() {
        assert forall|i: int| !occurs_at(s@, p@, i) by {}
        return false;
    }
    let last = s.len() - p.len();
    let mut i: usize = 0;
    while i < last
        invariant
            p@.len() <= s@.len(),
            last == s@.len() - p@.len(),
            i <= last,
            forall|k: int| 0 <= k < i ==> !occurs_at(s@, p@, k),
        decreases last - i,
    {
        if text_occurs_at(s, p, i) {
            return true;
        }
        i += 1;
    }
    if text_occurs_at(s, p, last) {
        return true;
    }
    assert forall|k: int| !occurs_at(s@, p@, k) by {
        if 0 <= k && k < last {
        }
    }
    false
}

/// `s` between double quotes.
pub open spec fn quoted(s: Seq<char>) -> Seq<char> {
    seq!['"'] + s + seq!['"']
}

/// The description of a matcher.
pub open spec fn matcher_text(m: &RuleMatcher) -> Seq<char>
    decreases m,
{
    match m {
        RuleMatcher::Always => "Always"@,
        RuleMatcher::Never => "Never"@,
        RuleMatcher::Pattern(p) => "Pattern("@ + quoted(p@) + seq![')'],
        RuleMatcher::EndsWith(p) => "EndsWith("@ + quoted(p@) + seq![')'],
        RuleMatcher::StartsWith(p) => "StartsWith("@ + quoted(p@) + seq![')'],
        RuleMatcher::LastChar(c) => "LastChar('"@ + seq![*c] + "')"@,
        RuleMatcher::LastTransformKey(c) => "LastTransformKey('"@ + seq![*c] + "')"@,
        RuleMatcher::Length(n) => "Length("@ + decimal(*n as nat) + seq![')'],
        RuleMatcher::LengthRange(lo, hi) => "LengthRange("@ + decimal(*lo as nat) + ", "@ + decimal(*hi as nat)
            + seq![')'],
        RuleMatcher::And(ms) => "And(["@ + list_text(ms@) + "])"@,
        RuleMatcher::Or(ms) => "Or(["@ + list_text(ms@) + "])"@,
        RuleMatcher::Not(m1) => "Not("@ + matcher_text(&**m1) + seq![')'],
        RuleMatcher::Custom(_) => "Custom(<closure>)"@,
    }
}

/// The descriptions of a list of matchers, separated by ", ".
pub open spec fn list_text(ms: Seq<RuleMatcher>) -> Seq<char>
    decreases ms,
{
    if ms.len() == 0 {
        Seq::empty()
    } else if ms.len() == 1 {
        matcher_text(&ms[0])
    } else {
        list_text(ms.subrange(0, ms.len() - 1)) + ", "@ + matcher_text(&ms[ms.len() - 1])
    }
}

impl RuleMatcher {
    /// Whether the rule applies to `ctx` (custom tests are asked).
    pub fn matches(&self, ctx: &TypingContext) -> (r: bool)
        ensures
            is_builtin(self) ==> r == matcher_holds(self, *ctx),
        decreases self,
    {
        match self {
            RuleMatcher::Always => true,
            RuleMatcher::Never => false,
            RuleMatcher::Pattern(p) => {
                let s = str_chars(ctx.syllable_buffer.as_str());
                let q = str_chars(p.as_str());
                text_contains(s.as_slice(), q.as_slice())
            },
            RuleMatcher::EndsWith(p) => {
                let s = str_chars(ctx.syllable_buffer.as_str());
                let q = str_chars(p.as_str());
                if q.len() > s.len() {
                    false
                } else {
                    text_occurs_at(s.as_slice(), q.as_slice(), s.len() - q.len())
                }
            },
            RuleMatcher::StartsWith(p) => {
                let s = str_chars(ctx.syllable_buffer.as_str());
                let q = str_chars(p.as_str());
                if q.len() > s.len() {
                    false
                } else {
                    text_occurs_at(s.as_slice(), q.as_slice(), 0)
                }
            },
            RuleMatcher::LastChar(c) => ctx.last_char == Some(*c),
            RuleMatcher::LastTransformKey(c) => ctx.last_transform_key == Some(*c),
            RuleMatcher::Length(n) => str_chars(ctx.syllable_buffer.as_str()).len() == *n,
            RuleMatcher::LengthRange(lo, hi) => {
                let n = str_chars(ctx.syllable_buffer.as_str()).len();
                n >= *lo && n <= *hi
            },
            RuleMatcher::And(ms) => {
                let mut i: usize = 0;
                while i < ms.len()
                    invariant
                        i <= ms@.len(),
                        is_builtin(self) ==> forall|k: int| 0 <= k < i ==> matcher_holds(&ms@[k], *ctx),
                        is_builtin(self) == (forall|k: int| 0 <= k < ms@.len() ==> is_builtin(&ms@[k])),
                        self is And,
                        self->And_0 == *ms,
                    decreases ms@.len() - i,
                {
                    proof {
                        assert(decreases_to!(self => self->And_0));
                        assert(decreases_to!(self->And_0 => self->And_0@));
                        assert(decreases_to!(self->And_0@ => self->And_0@[i as int]));
                    }
                    if !ms[i].matches(ctx) {
                        proof {
                            if is_builtin(self) {
                                assert(is_builtin(&ms@[i as int]));
                                assert(!matcher_holds(&ms@[i as int], *ctx));
                            }
                        }
                        return false;
                    }
                    i += 1;
                }
                true
            },
            RuleMatcher::Or(ms) => {
                let mut i: usize = 0;
                while i < ms.len()
                    invariant
                        i <= ms@.len(),
                        is_builtin(self) ==> forall|k: int| 0 <= k < i ==> !matcher_holds(&ms@[k], *ctx),
                        is_builtin(self) == (forall|k: int| 0 <= k < ms@.len() ==> is_builtin(&ms@[k])),
                        self is Or,
                        self->Or_0 == *ms,
                    decreases ms@.len() - i,
                {
                    proof {
                        assert(decreases_to!(self => self->Or_0));
                        assert(decreases_to!(self->Or_0 => self->Or_0@));
                        assert(decreases_to!(self->Or_0@ => self->Or_0@[i as int]));
                    }
                    if ms[i].matches(ctx) {
                        proof {
                            if is_builtin(self) {
                                assert(is_builtin(&ms@[i as int]));
                                assert(matcher_holds(&ms@[i as int], *ctx));
                            }
                        }
                        return true;
                    }
                    i += 1;
                }
                false
            },
            RuleMatcher::Not(m1) => !m1.matches(ctx),
            RuleMatcher::Custom(p) => p.test(ctx),
        }
    }

    /// A short description of the matcher, e.g. `EndsWith("ư")`.
    pub fn describe(&self) -> (r: String)
        ensures
            r@ == matcher_text(self),
        decreases self,
    {
        let mut out: Vec<char> = Vec::new();
        match self {
            RuleMatcher::Always => {
                push_text(&mut out, "Always");
                assert(out@ =~= matcher_text(self));
            },
            RuleMatcher::Never => {
                push_text(&mut out, "Never");
                assert(out@ =~= matcher_text(self));
            },
            RuleMatcher::Pattern(p) => {
                push_text(&mut out, "Pattern(");
                push_quoted(&mut out, p.as_str());
                out.push(')');
                assert(out@ =~= matcher_text(self));
            },
            RuleMatcher::EndsWith(p) => {
                push_text(&mut out, "EndsWith(");
                push_quoted(&mut out, p.as_str());
                out.push(')');
                assert(out@ =~= matcher_text(self));
            },
            RuleMatcher::StartsWith(p) => {
                push_text(&mut out, "StartsWith(");
                push_quoted(&mut out, p.as_str());
                out.push(')');
                assert(out@ =~= matcher_text(self));
            },
            RuleMatcher::LastChar(c) => {
                push_text(&mut out, "LastChar('");
                out.push(*c);
                push_text(&mut out, "')");
                assert(out@ =~= matcher_text(self));
            },
            RuleMatcher::LastTransformKey(c) => {
                push_text(&mut out, "LastTransformKey('");
                out.push(*c);
                push_text(&mut out, "')");
                assert(out@ =~= matcher_text(self));
            },
            RuleMatcher::Length(n) => {
                push_text(&mut out, "Length(");
                push_number(&mut out, *n);
                out.push(')');
                assert(out@ =~= matcher_text(self));
            },
            RuleMatcher::LengthRange(lo, hi) => {
                push_text(&mut out, "LengthRange(");
                push_number(&mut out, *lo);
                push_text(&mut out, ", ");
                push_number(&mut out, *hi);
                out.push(')');
                assert(out@ =~= matcher_text(self));
            },
            RuleMatcher::And(ms) => {
                push_text(&mut out, "And([");
                push_list(&mut out, ms);
                push_text(&mut out, "])");
                assert(out@ =~= matcher_text(self));
            },
            RuleMatcher::Or(ms) => {
                push_text(&mut out, "Or([");
                push_list(&mut out, ms);
                push_text(&mut out, "])");
                assert(out@ =~= matcher_text(self));
            },
            RuleMatcher::Not(m1) => {
                push_text(&mut out, "Not(");
                let inner = m1.describe();
                push_text(&mut out, inner.as_str());
                out.push(')');
                assert(out@ =~= matcher_text(self));
            },
            RuleMatcher::Custom(_) => {
                push_text(&mut out, "Custom(<closure>)");
                assert(out@ =~= matcher_text(self));
            },
        }
        chars_to_string(out.as_slice())
    }
}

fn push_quoted(out: &mut Vec<char>, s: &str)
    ensures
        final(out)@ == old(out)@ + seq!['"'] + s@ + seq!['"'],
{
    out.push('"');
    push_text(out, s);
    out.push('"');
    assert(out@ =~= old(out)@ + seq!['"'] + s@ + seq!['"']);
}

fn push_list(out: &mut Vec<char>, ms: &Vec<RuleMatcher>)
    ensures
        final(out)@ == old(out)@ + list_text(ms@),
    decreases ms,
{
    let mut i: usize = 0;
    while i < ms.len()
        invariant
            i <= ms@.len(),
            out@ == old(out)@ + list_text(ms@.subrange(0, i as int)),
        decreases ms@.len() - i,
    {
        let ghost before = out@;
        if i > 0 {
            push_text(out, ", ");
        }
        let d = ms[i].describe();
        push_text(out, d.as_str());
        proof {
            let pre = ms@.subrange(0, i as int + 1);
            assert(pre.subrange(0, pre.len() - 1) =~= ms@.subrange(0, i as int));
            assert(pre[pre.len() - 1] == ms@[i as int]);
            if i == 0 {
                assert(out@ =~= old(out)@ + list_text(pre));
            } else {
                assert(out@ =~= old(out)@ + list_text(pre));
            }
        }
        i += 1;
    }
    assert(ms@.subrange(0, ms@.len() as int) =~= ms@);
}

/// What a rule does when it applies.
pub enum RuleAction {
    /// Skip further processing
    Skip,
    /// Replace the syllable with this text
    Replace(String),
    /// Append this text to the syllable
    Append(String),
    /// Set a context flag
    SetFlag(String, bool),
    /// Set the last transform key
    SetTransformKey(char),
    /// Clear the context
    Clear,
    /// A custom change
    Custom(Box<dyn ContextEffect>),
}

/// `a` run on `old_ctx` gives `new_ctx` and answers `r` (custom effects
/// are not described).
pub open spec fn executed(a: &RuleAction, old_ctx: TypingContext, new_ctx: TypingContext, r: bool) -> bool {
    &&& r == (*a is Skip)
    &&& *a is Skip ==> new_ctx == old_ctx
    &&& *a matches RuleAction::Replace(s) ==> (new_ctx.syllable_buffer@ == s@
        && new_ctx == (TypingContext { syllable_buffer: new_ctx.syllable_buffer, ..old_ctx }))
    &&& *a matches RuleAction::Append(s) ==> (new_ctx.syllable_buffer@ == old_ctx.syllable_buffer@ + s@
        && new_ctx == (TypingContext { syllable_buffer: new_ctx.syllable_buffer, ..old_ctx }))
    &&& *a matches RuleAction::SetFlag(name, value) ==> ((forall|n: Seq<char>|
        #[trigger] flag_value(new_ctx.flags@, n) == if n == name@ { value } else { flag_value(old_ctx.flags@, n) })
        && new_ctx == (TypingContext { flags: new_ctx.flags, ..old_ctx }))
    &&& *a matches RuleAction::SetTransformKey(c) ==> new_ctx == (TypingContext {
        last_transform_key: Some(c),
        ..old_ctx
    })
    &&& *a is Clear ==> is_cleared(old_ctx, new_ctx)
}

/// The description of an action.
pub open spec fn action_text(a: &RuleAction) -> Seq<char> {
    match a {
        RuleAction::Skip => "Skip"@,
        RuleAction::Replace(s) => "Replace("@ + quoted(s@) + seq![')'],
        RuleAction::Append(s) => "Append("@ + quoted(s@) + seq![')'],
        RuleAction::SetFlag(name, value) => "SetFlag("@ + quoted(name@)
            + if *value { ", true)"@ } else { ", false)"@ },
        RuleAction::SetTransformKey(c) => "SetTransformKey('"@ + seq![*c] + "')"@,
        RuleAction::Clear => "Clear"@,
        RuleAction::Custom(_) => "Custom(<closure>)"@,
    }
}

impl RuleAction {
    /// Apply the action to `ctx`; `true` asks to skip further processing.
    pub fn execute(&self, ctx: &mut TypingContext) -> (r: bool)
        ensures
            executed(self, *old(ctx), *final(ctx), r),
    {
        match self {
            RuleAction::Skip => true,
            RuleAction::Replace(s) => {
                ctx.set_syllable(s.clone());
                false
            },
            RuleAction::Append(s) => {
                let mut buf = str_chars(ctx.syllable_buffer.as_str());
                let extra = str_chars(s.as_str());
                let mut i: usize = 0;
                let ghost start = buf@;
                while i < extra.len()
                    invariant
                        i <= extra@.len(),
                        buf@ == start + extra@.subrange(0, i as int),
                    decreases extra@.len() - i,
                {
                    buf.push(extra[i]);
                    i += 1;
                    assert(buf@ =~= start + extra@.subrange(0, i as int));
                }
                assert(extra@.subrange(0, extra@.len() as int) =~= extra@);
                ctx.set_syllable(chars_to_string(buf.as_slice()));
                false
            },
            RuleAction::SetFlag(name, value) => {
                ctx.set_flag(name.as_str(), *value);
                false
            },
            RuleAction::SetTransformKey(c) => {
                ctx.last_transform_key = Some(*c);
                false
            },
            RuleAction::Clear => {
                ctx.clear();
                false
            },
            RuleAction::Custom(f) => {
                f.apply(ctx);
                false
            },
        }
    }

    /// A short description of the action, e.g. `Replace("ươ")`.
    pub fn describe(&self) -> (r: String)
        ensures
            r@ == action_text(self),
    {
        let mut out: Vec<char> = Vec::new();
        match self {
            RuleAction::Skip => {
                push_text(&mut out, "Skip");
                assert(out@ =~= action_text(self));
            },
            RuleAction::Replace(s) => {
                push_text(&mut out, "Replace(");
                push_quoted(&mut out, s.as_str());
                out.push(')');
                assert(out@ =~= action_text(self));
            },
            RuleAction::Append(s) => {
                push_text(&mut out, "Append(");
                push_quoted(&mut out, s.as_str());
                out.push(')');
                assert(out@ =~= action_text(self));
            },
            RuleAction::SetFlag(name, value) => {
                push_text(&mut out, "SetFlag(");
                push_quoted(&mut out, name.as_str());
                if *value {
                    push_text(&mut out, ", true)");
                } else {
                    push_text(&mut out, ", false)");
                }
                assert(out@ =~= action_text(self));
            },
            RuleAction::SetTransformKey(c) => {
                push_text(&mut out, "SetTransformKey('");
                out.push(*c);
                push_text(&mut out, "')");
                assert(out@ =~= action_text(self));
            },
            RuleAction::Clear => {
                push_text(&mut out, "Clear");
                assert(out@ =~= action_text(self));
            },
            RuleAction::Custom(_) => {
                push_text(&mut out, "Custom(<closure>)");
                assert(out@ =~= action_text(self));
            },
        }
        chars_to_string(out.as_slice())
    }
}

/// A rule over the context: when the matcher applies, run the action.
pub struct ContextRule {
    /// Rule name
    pub name: String,
    /// When the rule applies
    pub matcher: RuleMatcher,
    /// What it does
    pub action: RuleAction,
}

impl ContextRule {
    /// A rule named `name`.
    pub fn new(name: &str, matcher: RuleMatcher, action: RuleAction) -> (r: Self)
        ensures
            r.name@ == name@,
            r.matcher == matcher,
            r.action == action,
    {
        ContextRule { name: String::from_str(name), matcher, action }
    }

    /// Whether the rule applies to `ctx`.
    pub fn matches(&self, ctx: &TypingContext) -> (r: bool)
        ensures
            is_builtin(&self.matcher) ==> r == matcher_holds(&self.matcher, *ctx),
    {
        self.matcher.matches(ctx)
    }

    /// Run the rule's action; `true` asks to skip further processing.
    pub fn execute(&self, ctx: &mut TypingContext) -> (r: bool)
        ensures
            executed(&self.action, *old(ctx), *final(ctx), r),
    {
        self.action.execute(ctx)
    }
}

/// A transform rule `from` → `to` that applies only under a condition.
pub struct ConditionalRule {
    /// Source pattern
    pub from: String,
    /// Result
    pub to: String,
    /// Condition (none: always)
    pub condition: Option<RuleMatcher>,
}

impl ConditionalRule {
    /// An unconditional rule.
    pub fn new(from: &str, to: &str) -> (r: Self)
        ensures
            r.from@ == from@,
            r.to@ == to@,
            r.condition is None,
    {
        ConditionalRule { from: String::from_str(from), to: String::from_str(to), condition: None }
    }

    /// A rule that applies when `condition` does.
    pub fn with_condition(from: &str, to: &str, condition: RuleMatcher) -> (r: Self)
        ensures
            r.from@ == from@,
            r.to@ == to@,
            r.condition == Some(condition),
    {
        ConditionalRule { from: String::from_str(from), to: String::from_str(to), condition: Some(condition) }
    }

    /// Whether the rule applies: its condition holds, or it has none.
    pub fn should_apply(&self, ctx: &TypingContext) -> (r: bool)
        ensures
            self.condition matches Some(c) ==> (is_builtin(&c) ==> r == matcher_holds(&c, *ctx)),
            self.condition is None ==> r,
    {
        match &self.condition {
            Some(c) => c.matches(ctx),
            None => true,
        }
    }
}

} // verus!
