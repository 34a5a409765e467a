//! Compose stage: recomputes the syllable from the whole char buffer with
//! [`compose`], then gives the result the case the keys were typed in.
//!
//! While English passthrough is latched, each new key is appended
//! literally. A buffer longer than any syllable (run-on input) is appended
//! literally too and latches passthrough.
//!
//! Once latched, passthrough stays on until the word ends: this crate has no
//! table of attested Vietnamese syllables (`is_attested`), and leaving
//! English mode on later evidence ("the recomposed word is an attested
//! syllable") needs one, so that check is not made here.

use vstd::prelude::*;
use crate::text::{ascii_lower, to_ascii_lower, is_space, char_is_space, upper_seq, char_upper_seq, str_chars,
    chars_to_string, std_str_upper, chars_to_uppercase};
use crate::compose::{compose, compose_spec, ComposeOpts, is_tone_key, opts_from};
use crate::compose::fallback::{trailing_lower, is_trigger_key};
use crate::pipeline::config::{PipelineConfig, has_tone, has_rule};
use crate::pipeline::context::{TypingContext, CharInfo, CharInfoBufferExt, output_char};
use crate::pipeline::stage::{PipelineStage, StageResult};

verus! {

/// Raw keys beyond which the buffer is treated as run-on input.
pub const MAX_VIET_SYLLABLE_RAW: usize = 16;

/// The compose stage.
#[derive(Debug)]
pub struct ComposeStage {
    opts: ComposeOpts,
}

// ── Latch helpers ────────────────────────────────────────────────────────────

/// `key_lc` is a tone key or can trigger a transform.
pub open spec fn probe_trigger(key_lc: char, opts: ComposeOpts) -> bool {
    has_tone(opts.tone_map@, key_lc) || is_trigger_key(key_lc, opts)
}

/// The raw keys end in three or more repeats of one key (ASCII case
/// ignored).
pub open spec fn repeated_tap(raw: Seq<char>) -> bool {
    raw.len() > 0 && trailing_lower(raw, ascii_lower(raw.last())) >= 3
}

/// Whether `key_lc` (already lowercase) is a tone key or a transform trigger.
pub fn is_probe_trigger_char(key_lc: char, opts: &ComposeOpts) -> (r: bool)
    requires
        opts.wf(),
    ensures
        r == probe_trigger(key_lc, *opts),
{
    if is_tone_key(opts, key_lc) {
        return true;
    }
    let ghost m = opts.rules();
    let mut k: usize = 0;
    while k < opts.transform_rules.len()
        invariant
            k <= opts.transform_rules@.len(),
            m == opts.rules(),
            m.len() == opts.transform_rules@.len(),
            !has_tone(opts.tone_map@, key_lc),
            forall|j: int| 0 <= j < k ==> !((#[trigger] m[j]).0.len() > 0 && ascii_lower(m[j].0.last()) == key_lc),
        decreases opts.transform_rules@.len() - k,
    {
        let key = &opts.transform_rules[k].0;
        assert(m[k as int].0 == opts.transform_rules@[k as int].0@);
        if key.len() > 0 && to_ascii_lower(key[key.len() - 1]) == key_lc {
            return true;
        }
        k += 1;
    }
    false
}

/// Whether the raw keys end in three or more repeats of the same key.
pub fn is_repeated_trigger_tap(raw: &[char]) -> (r: bool)
    ensures
        r == repeated_tap(raw@),
{
    let n = raw.len();
    if n == 0 {
        return false;
    }
    let last_lc = to_ascii_lower(raw[n - 1]);
    let mut t: usize = 0;
    assert(raw@.take(n as int) =~= raw@);
    while t < n && to_ascii_lower(raw[n - 1 - t]) == last_lc
        invariant
            t <= n,
            n == raw@.len(),
            trailing_lower(raw@, last_lc) == t + trailing_lower(raw@.take(n - t), last_lc),
        decreases n - t,
    {
        assert(raw@.take(n - t).drop_last() =~= raw@.take(n - t - 1));
        t += 1;
    }
    assert(t < n ==> raw@.take(n - t).last() == raw@[n - 1 - t]);
    t >= 3
}

// ── Case mask ────────────────────────────────────────────────────────────────

/// The typed chars whose case counts: lowercase tone keys and non-letter
/// transform triggers are left out.
pub open spec fn case_bearing(buf: Seq<CharInfo>, opts: ComposeOpts) -> Seq<CharInfo>
    decreases buf.len(),
{
    if buf.len() == 0 {
        Seq::empty()
    } else {
        let c = buf.last();
        let prev = case_bearing(buf.drop_last(), opts);
        if (!c.is_uppercase && has_tone(opts.tone_map@, c.ch)) || opts.transform_trigger_chars@.contains(c.ch) {
            prev
        } else {
            prev.push(c)
        }
    }
}

/// Output of the per-char case walk from output index `k` with cursor `ci`
/// into the case-bearing chars: each output char takes the case of the
/// char under the cursor; a doubled key with a doubling rule counts once.
pub open spec fn case_walk(out: Seq<char>, cc: Seq<CharInfo>, m: crate::pipeline::config::RuleModel, k: int, ci: int) -> Seq<char>
    decreases out.len() - k,
{
    if k < 0 || k >= out.len() {
        Seq::empty()
    } else {
        let up = 0 <= ci < cc.len() && cc[ci].is_uppercase;
        let next = if 0 <= ci < cc.len() {
            if ci + 1 < cc.len() && cc[ci + 1].ch == cc[ci].ch && has_rule(m, seq![cc[ci].ch, cc[ci].ch]) {
                ci + 2
            } else {
                ci + 1
            }
        } else {
            ci
        };
        (if up { upper_seq(out[k]) } else { seq![out[k]] }) + case_walk(out, cc, m, k + 1, next)
    }
}

/// What [`apply_case_mask`] returns.
pub open spec fn case_mask_spec(text: Seq<char>, buf: Seq<CharInfo>, opts: ComposeOpts) -> Seq<char> {
    let cc = case_bearing(buf, opts);
    if text.len() == 0 || buf.len() == 0 || !(exists|i: int| 0 <= i < buf.len() && (#[trigger] buf[i]).is_uppercase) {
        text
    } else if cc.len() == 0 {
        text
    } else if forall|i: int| 0 <= i < cc.len() ==> (#[trigger] cc[i]).is_uppercase {
        std_str_upper(text)
    } else {
        case_walk(text, cc, opts.rules(), 0, 0)
    }
}

fn contains_char(v: &Vec<char>, c: char) -> (r: bool)
    ensures
        r == v@.contains(c),
{
    let mut i: usize = 0;
    while i < v.len()
        invariant
            i <= v@.len(),
            forall|j: int| 0 <= j < i ==> v@[j] != c,
        decreases v@.len() - i,
    {
        if v[i] == c {
            assert(v@[i as int] == c);
            return true;
        }
        i += 1;
    }
    false
}

fn case_bearing_chars(buf: &[CharInfo], opts: &ComposeOpts) -> (r: Vec<CharInfo>)
    requires
        opts.wf(),
    ensures
        r@ == case_bearing(buf@, *opts),
{
    let mut out: Vec<CharInfo> = Vec::new();
    let mut i: usize = 0;
    while i < buf.len()
        invariant
            i <= buf@.len(),
            opts.wf(),
            out@ == case_bearing(buf@.take(i as int), *opts),
        decreases buf@.len() - i,
    {
        assert(buf@.take(i + 1).drop_last() =~= buf@.take(i as int));
        let c = buf[i];
        let lowercase_tone_key = !c.is_uppercase && is_tone_key(opts, c.ch);
        let non_alpha_trigger = contains_char(&opts.transform_trigger_chars, c.ch);
        if !lowercase_tone_key && !non_alpha_trigger {
            out.push(c);
        }
        i += 1;
    }
    assert(buf@.take(buf@.len() as int) =~= buf@);
    out
}

/// Give a composed (lowercase) text the case the keys were typed in: all
/// case-bearing keys uppercase → all uppercase; otherwise char by char with
/// doubled keys counted once; no uppercase key → unchanged.
pub fn apply_case_mask(text: &str, char_buffer: &[CharInfo], opts: &ComposeOpts) -> (r: String)
    requires
        opts.wf(),
    ensures
        r@ == case_mask_spec(text@, char_buffer@, *opts),
{
    let out = str_chars(text);
    if out.len() == 0 || char_buffer.len() == 0 {
        return String::from_str(text);
    }
    let mut any_upper = false;
    let mut i: usize = 0;
    while i < char_buffer.len()
        invariant
            i <= char_buffer@.len(),
            any_upper == exists|j: int| 0 <= j < i && (#[trigger] char_buffer@[j]).is_uppercase,
        decreases char_buffer@.len() - i,
    {
        if char_buffer[i].is_uppercase {
            assert(char_buffer@[i as int].is_uppercase);
            any_upper = true;
        }
        i += 1;
    }
    if !any_upper {
        return String::from_str(text);
    }
    let cc = case_bearing_chars(char_buffer, opts);
    if cc.len() == 0 {
        return String::from_str(text);
    }
    let mut all_upper = true;
    let mut j: usize = 0;
    while j < cc.len()
        invariant
            j <= cc@.len(),
            all_upper == forall|x: int| 0 <= x < j ==> (#[trigger] cc@[x]).is_uppercase,
        decreases cc@.len() - j,
    {
        if !cc[j].is_uppercase {
            all_upper = false;
        }
        j += 1;
    }
    if all_upper {
        let up = chars_to_uppercase(out.as_slice());
        return chars_to_string(up.as_slice());
    }
    let ghost m = opts.rules();
    let mut result: Vec<char> = Vec::new();
    let mut ci: usize = 0;
    let mut k: usize = 0;
    while k < out.len()
        invariant
            k <= out@.len(),
            out@ == text@,
            opts.wf(),
            m == opts.rules(),
            ci <= cc@.len() + 1,
            result@ + case_walk(text@, cc@, m, k as int, ci as int) == case_walk(text@, cc@, m, 0, 0),
        decreases out@.len() - k,
    {
        let out_ch = out[k];
        let is_upper = if ci < cc.len() {
            let cur = cc[ci];
            let doubling = ci + 1 < cc.len() && cc[ci + 1].ch == cur.ch && crate::compose::rule_exists2(opts, cur.ch, cur.ch);
            if doubling {
                ci = ci + 2;
            } else {
                ci = ci + 1;
            }
            cur.is_uppercase
        } else {
            false
        };
        let ghost before = result@;
        let piece: Vec<char> = if is_upper {
            char_upper_seq(out_ch)
        } else {
            let mut v: Vec<char> = Vec::new();
            v.push(out_ch);
            v
        };
        let mut p: usize = 0;
        while p < piece.len()
            invariant
                p <= piece@.len(),
                result@ == before + piece@.subrange(0, p as int),
            decreases piece@.len() - p,
        {
            result.push(piece[p]);
            p += 1;
            assert(result@ =~= before + piece@.subrange(0, p as int));
        }
        assert(piece@.subrange(0, piece@.len() as int) =~= piece@);
        assert(!is_upper ==> piece@ =~= seq![out_ch]);
        assert(before + piece@ + case_walk(text@, cc@, m, k + 1, ci as int)
            =~= before + (piece@ + case_walk(text@, cc@, m, k + 1, ci as int)));
        k += 1;
    }
    assert(case_walk(text@, cc@, m, k as int, ci as int) =~= Seq::<char>::empty());
    assert(result@ + Seq::<char>::empty() =~= result@);
    chars_to_string(result.as_slice())
}

// ── Stage ────────────────────────────────────────────────────────────────────

/// The raw keys hold whitespace.
pub open spec fn has_space(raw: Seq<char>) -> bool {
    exists|i: int| 0 <= i < raw.len() && is_space(#[trigger] raw[i])
}

/// The syllable with the last typed key appended in its typed case.
pub open spec fn with_last_key(ctx: TypingContext) -> Seq<char> {
    if ctx.char_buffer@.len() > 0 {
        ctx.syllable_buffer@.push(output_char(ctx.char_buffer@.last()))
    } else {
        ctx.syllable_buffer@
    }
}

/// What the compose stage leaves: (syllable, English latch).
pub open spec fn compose_step(ctx: TypingContext, opts: ComposeOpts) -> (Seq<char>, bool) {
    let raw = ctx.char_buffer@.map_values(|c: CharInfo| c.ch);
    if ctx.temp_english_mode {
        (with_last_key(ctx), true)
    } else if !ctx.showing_candidates && raw.len() > MAX_VIET_SYLLABLE_RAW && !has_space(raw) {
        (with_last_key(ctx), true)
    } else {
        let c = compose_spec(raw, opts);
        (case_mask_spec(c.0, ctx.char_buffer@, opts), c.1)
    }
}

impl ComposeStage {
    #[verifier::type_invariant]
    spec fn inv(self) -> bool {
        self.opts.wf()
    }

    /// The compose options the stage runs with.
    pub closed spec fn options(&self) -> ComposeOpts {
        self.opts
    }

    /// Build the stage from a configuration: its options are those derived
    /// from `config` (see `opts_from`).
    pub fn from_config(config: &PipelineConfig) -> (r: Self)
        requires
            config.wf(),
        ensures
            opts_from(*config, r.options()),
    {
        Self { opts: ComposeOpts::from_config(config) }
    }

}

impl Clone for ComposeStage {
    fn clone(&self) -> (r: Self)
        ensures
            r.options().rules() == self.options().rules(),
            r.options().tone_map@ == self.options().tone_map@,
    {
        proof { use_type_invariant(self); }
        ComposeStage { opts: self.opts.duplicate() }
    }
}

impl ComposeStage {
    /// One key: the syllable and English mode recomputed by `compose_step`; continue.
    pub open spec fn steps(&self, before: TypingContext, input: char, r: StageResult, after: TypingContext) -> bool {
        &&& r == StageResult::Continue
        &&& after.syllable_buffer@ == compose_step(before, self.options()).0
        &&& after == (TypingContext {
            syllable_buffer: after.syllable_buffer,
            temp_english_mode: compose_step(before, self.options()).1,
            ..before
        })
    }
}

impl PipelineStage for ComposeStage {
    /// Recompute the syllable from the char buffer (see [`compose_step`]).
    fn process(&self, ctx: &mut TypingContext, input: char) -> (r: StageResult)
        ensures
            self.steps(*old(ctx), input, r, *final(ctx)),
    {
        proof { use_type_invariant(self); }
        if ctx.temp_english_mode {
            append_last_key(ctx);
            return StageResult::Continue;
        }
        let raw = ctx.char_buffer.to_char_vec();
        let mut spaced = false;
        let mut i: usize = 0;
        while i < raw.len()
            invariant
                i <= raw@.len(),
                spaced == exists|j: int| 0 <= j < i && is_space(#[trigger] raw@[j]),
            decreases raw@.len() - i,
        {
            if char_is_space(raw[i]) {
                assert(is_space(raw@[i as int]));
                spaced = true;
            }
            i += 1;
        }
        if !ctx.showing_candidates && raw.len() > MAX_VIET_SYLLABLE_RAW && !spaced {
            append_last_key(ctx);
            ctx.temp_english_mode = true;
            return StageResult::Continue;
        }
        let result = compose(raw.as_slice(), &self.opts);
        let text = apply_case_mask(result.text.as_str(), ctx.char_buffer.as_slice(), &self.opts);
        ctx.syllable_buffer = text;
        ctx.temp_english_mode = result.temp_english;
        StageResult::Continue
    }

    fn name(&self) -> (r: &'static str)
        ensures
            r@ == "ComposeStage"@,
    {
        "ComposeStage"
    }

    /// Nothing to reset: the stage keeps no state between keys.
    fn reset(&mut self)
        ensures
            *final(self) == *old(self),
    {
    }
}

/// Append the last typed key, in its typed case, to the syllable.
fn append_last_key(ctx: &mut TypingContext)
    ensures
        final(ctx).syllable_buffer@ == with_last_key(*old(ctx)),
        *final(ctx) == (TypingContext { syllable_buffer: final(ctx).syllable_buffer, ..*old(ctx) }),
{
    let n = ctx.char_buffer.len();
    if n > 0 {
        let ch = ctx.char_buffer[n - 1].to_output_char();
        let mut s = str_chars(ctx.syllable_buffer.as_str());
        s.push(ch);
        ctx.syllable_buffer = chars_to_string(s.as_slice());
    }
}

} // verus!
