//! Input buffer: the typed characters with their case flags.
//!
//! Capacity is 40 characters. Pushing onto a full buffer first
//! drops all but the last 20 characters.

use vstd::prelude::*;
use crate::text::chars_to_string;

verus! {

/// Maximum buffer size.
pub const BUFFER_SIZE: usize = 40;

/// Number of characters kept when the buffer is full.
pub const KEYS_MAINTAIN: usize = 20;

/// Input buffer for managing typed characters.
#[derive(Debug)]
pub struct InputBuffer {
    /// Characters in the buffer
    chars: Vec<char>,
    /// Lowercase flags for each character
    lowercase_flags: Vec<bool>,
    /// Last 'w' was converted to 'ư' (Telex)
    last_w_converted: bool,
    /// Last character was an escape character (VIQR)
    last_is_escape: bool,
}

/// Entries after pushing `e` onto a buffer holding `s`: a full buffer keeps
/// only its last `KEYS_MAINTAIN` entries first.
pub open spec fn push_model(s: Seq<(char, bool)>, e: (char, bool)) -> Seq<(char, bool)> {
    if s.len() >= BUFFER_SIZE {
        s.subrange(s.len() - KEYS_MAINTAIN, s.len() as int).push(e)
    } else {
        s.push(e)
    }
}

/// `a[lo..hi]` as a new vector.
fn copy_range<T: Copy>(a: &[T], lo: usize, hi: usize) -> (r: Vec<T>)
    requires
        lo <= hi <= a@.len(),
    ensures
        r@ == a@.subrange(lo as int, hi as int),
{
    let mut v: Vec<T> = Vec::new();
    let mut i: usize = lo;
    while i < hi
        invariant
            lo <= i <= hi,
            hi <= a@.len(),
            v@ == a@.subrange(lo as int, i as int),
        decreases hi - i,
    {
        v.push(a[i]);
        i += 1;
        assert(v@ =~= a@.subrange(lo as int, i as int));
    }
    v
}

impl InputBuffer {
    #[verifier::type_invariant]
    spec fn inv(self) -> bool {
        &&& self.chars@.len() == self.lowercase_flags@.len()
        &&& self.chars@.len() <= BUFFER_SIZE
    }

    /// The (char, is_lowercase) entries, oldest first.
    pub closed spec fn entries(&self) -> Seq<(char, bool)> {
        Seq::new(self.chars@.len(), |i: int| (self.chars@[i], self.lowercase_flags@[i]))
    }

    /// The `last_w_converted` flag.
    pub closed spec fn w_flag(&self) -> bool {
        self.last_w_converted
    }

    /// The `last_is_escape` flag.
    pub closed spec fn escape_flag(&self) -> bool {
        self.last_is_escape
    }

    /// Create a new empty buffer.
    pub fn new() -> (r: Self)
        ensures
            r.entries() == Seq::<(char, bool)>::empty(),
            !r.w_flag(),
            !r.escape_flag(),
    {
        let r = Self { chars: Vec::new(), lowercase_flags: Vec::new(), last_w_converted: false, last_is_escape: false };
        assert(r.entries() =~= Seq::<(char, bool)>::empty());
        r
    }

    /// Push a character onto the buffer.
    pub fn push(&mut self, ch: char, is_lowercase: bool)
        ensures
            final(self).entries() == push_model(old(self).entries(), (ch, is_lowercase)),
            final(self).w_flag() == old(self).w_flag(),
            final(self).escape_flag() == old(self).escape_flag(),
    {
        proof { use_type_invariant(&*self); }
        let ghost before = self.entries();
        if self.chars.len() >= BUFFER_SIZE {
            self.throw_buffer();
        }
        let ghost mid = self.entries();
        proof { use_type_invariant(&*self); }
        let n = self.chars.len();
        let mut chars = copy_range(self.chars.as_slice(), 0, n);
        let mut flags = copy_range(self.lowercase_flags.as_slice(), 0, n);
        chars.push(ch);
        flags.push(is_lowercase);
        *self = InputBuffer {
            chars,
            lowercase_flags: flags,
            last_w_converted: self.last_w_converted,
            last_is_escape: self.last_is_escape,
        };
        assert(self.entries() =~= mid.push((ch, is_lowercase)));
        assert(before.len() >= BUFFER_SIZE ==> mid =~= before.subrange(before.len() - KEYS_MAINTAIN, before.len() as int));
        assert(before.len() < BUFFER_SIZE ==> mid =~= before);
    }

    /// Pop the last character from the buffer.
    pub fn pop(&mut self) -> (r: Option<(char, bool)>)
        ensures
            old(self).entries().len() == 0 ==> r is None && final(self).entries() == old(self).entries(),
            old(self).entries().len() > 0 ==> r == Some(old(self).entries().last())
                && final(self).entries() == old(self).entries().drop_last(),
            final(self).w_flag() == old(self).w_flag(),
            final(self).escape_flag() == old(self).escape_flag(),
    {
        proof { use_type_invariant(&*self); }
        if self.chars.len() == 0 {
            return None;
        }
        let ghost before = self.entries();
        let n = self.chars.len();
        let ch = self.chars[n - 1];
        let flag = self.lowercase_flags[n - 1];
        let chars = copy_range(self.chars.as_slice(), 0, n - 1);
        let flags = copy_range(self.lowercase_flags.as_slice(), 0, n - 1);
        *self = InputBuffer {
            chars,
            lowercase_flags: flags,
            last_w_converted: self.last_w_converted,
            last_is_escape: self.last_is_escape,
        };
        assert(self.entries() =~= before.drop_last());
        Some((ch, flag))
    }

    /// The last character, if any.
    pub fn last(&self) -> (r: Option<&char>)
        ensures
            self.entries().len() == 0 ==> r is None,
            self.entries().len() > 0 ==> r == Some(&self.entries().last().0),
    {
        proof { use_type_invariant(self); }
        let n = self.chars.len();
        if n == 0 { None } else { Some(&self.chars[n - 1]) }
    }

    /// The character at `index`, if any.
    pub fn get(&self, index: usize) -> (r: Option<&char>)
        ensures
            index >= self.entries().len() ==> r is None,
            index < self.entries().len() ==> r == Some(&self.entries()[index as int].0),
    {
        proof { use_type_invariant(self); }
        if index < self.chars.len() { Some(&self.chars[index]) } else { None }
    }

    /// Replace the character at `index` (its case flag is kept); no change
    /// when `index` is out of range.
    pub fn set(&mut self, index: usize, ch: char)
        ensures
            index < old(self).entries().len() ==> final(self).entries()
                == old(self).entries().update(index as int, (ch, old(self).entries()[index as int].1)),
            index >= old(self).entries().len() ==> final(self).entries() == old(self).entries(),
            final(self).w_flag() == old(self).w_flag(),
            final(self).escape_flag() == old(self).escape_flag(),
    {
        proof { use_type_invariant(&*self); }
        let ghost before = self.entries();
        if index < self.chars.len() {
            let n = self.chars.len();
            let mut chars = copy_range(self.chars.as_slice(), 0, n);
            chars.set(index, ch);
            *self = InputBuffer {
                chars,
                lowercase_flags: copy_range(self.lowercase_flags.as_slice(), 0, n),
                last_w_converted: self.last_w_converted,
                last_is_escape: self.last_is_escape,
            };
            assert(self.entries() =~= before.update(index as int, (ch, before[index as int].1)));
        }
    }

    /// Number of characters in the buffer.
    pub fn len(&self) -> (r: usize)
        ensures
            r == self.entries().len(),
            r <= BUFFER_SIZE,
    {
        proof { use_type_invariant(self); }
        self.chars.len()
    }

    /// Whether the buffer is empty.
    pub fn is_empty(&self) -> (r: bool)
        ensures
            r == (self.entries().len() == 0),
    {
        proof { use_type_invariant(self); }
        self.chars.len() == 0
    }

    /// Clear the buffer and both flags.
    pub fn clear(&mut self)
        ensures
            final(self).entries() == Seq::<(char, bool)>::empty(),
            !final(self).w_flag(),
            !final(self).escape_flag(),
    {
        *self = InputBuffer { chars: Vec::new(), lowercase_flags: Vec::new(), last_w_converted: false, last_is_escape: false };
        assert(self.entries() =~= Seq::<(char, bool)>::empty());
    }

    /// The characters from position `start` on.
    pub fn chars_from(&self, start: usize) -> (r: Vec<char>)
        requires
            start <= self.entries().len(),
        ensures
            r@ == self.entries().subrange(start as int, self.entries().len() as int).map_values(|e: (char, bool)| e.0),
    {
        proof { use_type_invariant(self); }
        let r = copy_range(self.chars.as_slice(), start, self.chars.len());
        assert(r@ =~= self.entries().subrange(start as int, self.entries().len() as int).map_values(|e: (char, bool)| e.0));
        r
    }

    /// All characters as a string.
    pub fn to_string(&self) -> (r: String)
        ensures
            r@ == self.entries().map_values(|e: (char, bool)| e.0),
    {
        proof { use_type_invariant(self); }
        let r = chars_to_string(self.chars.as_slice());
        assert(r@ =~= self.entries().map_values(|e: (char, bool)| e.0));
        r
    }

    /// Keep only the last `KEYS_MAINTAIN` characters.
    fn throw_buffer(&mut self)
        requires
            old(self).entries().len() >= BUFFER_SIZE,
        ensures
            final(self).entries() == old(self).entries().subrange(
                old(self).entries().len() - KEYS_MAINTAIN, old(self).entries().len() as int),
            final(self).entries().len() < BUFFER_SIZE,
            final(self).w_flag() == old(self).w_flag(),
            final(self).escape_flag() == old(self).escape_flag(),
    {
        proof { use_type_invariant(&*self); }
        let ghost before = self.entries();
        let n = self.chars.len();
        if n > KEYS_MAINTAIN {
            let drain_count = n - KEYS_MAINTAIN;
            let chars = copy_range(self.chars.as_slice(), drain_count, n);
            let flags = copy_range(self.lowercase_flags.as_slice(), drain_count, n);
            *self = InputBuffer {
                chars,
                lowercase_flags: flags,
                last_w_converted: self.last_w_converted,
                last_is_escape: self.last_is_escape,
            };
            assert(self.entries() =~= before.subrange(before.len() - KEYS_MAINTAIN, before.len() as int));
        }
    }

    /// Whether the last 'w' was converted to a Vietnamese character.
    pub fn last_w_converted(&self) -> (r: bool)
        ensures
            r == self.w_flag(),
    {
        self.last_w_converted
    }

    /// Set the `last_w_converted` flag.
    pub fn set_last_w_converted(&mut self, value: bool)
        ensures
            final(self).w_flag() == value,
            final(self).escape_flag() == old(self).escape_flag(),
            final(self).entries() == old(self).entries(),
    {
        proof { use_type_invariant(&*self); }
        self.last_w_converted = value;
    }

    /// Whether the last character was an escape.
    pub fn last_is_escape(&self) -> (r: bool)
        ensures
            r == self.escape_flag(),
    {
        self.last_is_escape
    }

    /// Set the `last_is_escape` flag.
    pub fn set_last_is_escape(&mut self, value: bool)
        ensures
            final(self).escape_flag() == value,
            final(self).w_flag() == old(self).w_flag(),
            final(self).entries() == old(self).entries(),
    {
        proof { use_type_invariant(&*self); }
        self.last_is_escape = value;
    }
}

impl Clone for InputBuffer {
    fn clone(&self) -> (r: Self)
        ensures
            r.entries() == self.entries(),
            r.w_flag() == self.w_flag(),
            r.escape_flag() == self.escape_flag(),
    {
        proof { use_type_invariant(self); }
        let n = self.chars.len();
        InputBuffer {
            chars: copy_range(self.chars.as_slice(), 0, n),
            lowercase_flags: copy_range(self.lowercase_flags.as_slice(), 0, n),
            last_w_converted: self.last_w_converted,
            last_is_escape: self.last_is_escape,
        }
    }
}

impl Default for InputBuffer {
    fn default() -> (r: Self)
        ensures
            r.entries() == Seq::<(char, bool)>::empty(),
            !r.w_flag(),
            !r.escape_flag(),
    {
        Self::new()
    }
}

/// Popping right after a push gives back the pushed entry.
pub proof fn law_pop_after_push(s: Seq<(char, bool)>, e: (char, bool))
    ensures
        push_model(s, e).len() > 0,
        push_model(s, e).last() == e,
{
}

/// Below capacity, a push followed by a pop leaves the buffer as it was.
pub proof fn law_push_pop_restores(s: Seq<(char, bool)>, e: (char, bool))
    requires
        s.len() < BUFFER_SIZE,
    ensures
        push_model(s, e).drop_last() == s,
{
    assert(push_model(s, e).drop_last() =~= s);
}

/// A push never takes the buffer beyond its capacity.
pub proof fn law_push_bounded(s: Seq<(char, bool)>, e: (char, bool))
    requires
        s.len() <= BUFFER_SIZE,
    ensures
        push_model(s, e).len() <= BUFFER_SIZE,
        push_model(s, e).len() == (if s.len() >= BUFFER_SIZE { KEYS_MAINTAIN + 1 } else { s.len() + 1int }),
{
}

} // verus!
