//! Dictionary lookup: the provider interface the lookup stage queries, and a
//! simple in-memory dictionary.

use vstd::prelude::*;
use crate::pipeline::context::{Candidate, CandidateType};

verus! {

/// A source of candidates for a phonetic keyword.
///
/// Implemented by the in-memory [`SimpleDictionary`] here and by
/// database-backed dictionaries elsewhere.
pub trait DictionaryProvider: Send + Sync {
    /// Whether `candidates` is an answer the dictionary gives for `keyword`.
    /// An implementation states here what its lookups return; one that
    /// states nothing admits any answer.
    closed spec fn answers(&self, keyword: Seq<char>, candidates: Seq<Candidate>) -> bool {
        true
    }

    /// Candidates for `keyword`, most relevant first.
    fn lookup(&self, keyword: &str) -> (r: Vec<Candidate>)
        ensures
            self.answers(keyword@, r@),
    ;

    /// Whether the dictionary has candidates for `keyword`: by default,
    /// whether a lookup of `keyword` gives any.
    fn contains(&self, keyword: &str) -> (r: bool)
        default_ensures
            exists|found: Seq<Candidate>| #[trigger] self.answers(keyword@, found) && r == (found.len() > 0),
    {
        let found = self.lookup(keyword);
        found.len() > 0
    }

    /// Number of entries in the dictionary (0 when unknown, the default).
    fn count(&self) -> (r: usize)
        default_ensures
            r == 0,
    {
        0
    }
}

/// The (keyword, candidates) pairs of a dictionary.
pub type DictModel = Seq<(Seq<char>, Seq<Candidate>)>;

/// No keyword occurs twice.
pub open spec fn dict_keys_distinct(m: DictModel) -> bool {
    forall|i: int, j: int| 0 <= i < m.len() && 0 <= j < m.len() && i != j
        ==> (#[trigger] m[i]).0 != (#[trigger] m[j]).0
}

/// Whether `key` has an entry.
pub open spec fn dict_has(m: DictModel, key: Seq<char>) -> bool {
    exists|i: int| 0 <= i < m.len() && (#[trigger] m[i]).0 == key
}

/// The candidates stored under `key` (none when it has no entry).
pub open spec fn dict_get(m: DictModel, key: Seq<char>) -> Seq<Candidate> {
    if dict_has(m, key) {
        m[choose|i: int| 0 <= i < m.len() && (#[trigger] m[i]).0 == key].1
    } else {
        Seq::empty()
    }
}

proof fn lemma_dict_get_at(m: DictModel, i: int)
    requires
        dict_keys_distinct(m),
        0 <= i < m.len(),
    ensures
        dict_get(m, m[i].0) == m[i].1,
{
    let key = m[i].0;
    assert(dict_has(m, key));
    let c = choose|c: int| 0 <= c < m.len() && (#[trigger] m[c]).0 == key;
    if c != i {
        assert(m[c].0 != m[i].0);
    }
}

/// A copy of a candidate list.
fn copy_candidates(v: &Vec<Candidate>) -> (r: Vec<Candidate>)
    ensures
        r@ == v@,
{
    let mut out: Vec<Candidate> = Vec::new();
    let mut i: usize = 0;
    while i < v.len()
        invariant
            i <= v.len(),
            out@ == v@.subrange(0, i as int),
        decreases v.len() - i,
    {
        out.push(v[i].duplicate());
        i += 1;
        assert(out@ =~= v@.subrange(0, i as int));
    }
    out
}

/// A small in-memory dictionary: keyword → candidates, in insertion order.
#[derive(Debug)]
pub struct SimpleDictionary {
    entries: Vec<(String, Vec<Candidate>)>,
}

impl SimpleDictionary {
    /// The (keyword, candidates) pairs held.
    pub closed spec fn model(&self) -> DictModel {
        self.entries@.map_values(|e: (String, Vec<Candidate>)| (e.0@, e.1@))
    }

    #[verifier::type_invariant]
    spec fn keys_distinct(&self) -> bool {
        dict_keys_distinct(self.model())
    }

    /// Candidates stored under `keyword`.
    pub open spec fn get_spec(&self, keyword: Seq<char>) -> Seq<Candidate> {
        dict_get(self.model(), keyword)
    }

    /// Number of distinct keywords.
    pub open spec fn count_spec(&self) -> nat {
        self.model().len()
    }

    /// An empty dictionary.
    pub fn new() -> (r: Self)
        ensures
            forall|k: Seq<char>| #[trigger] r.get_spec(k) == Seq::<Candidate>::empty(),
            r.count_spec() == 0,
    {
        let r = SimpleDictionary { entries: Vec::new() };
        assert(r.model().len() == 0);
        r
    }

    fn find(&self, keyword: &String) -> (r: Option<usize>)
        ensures
            match r {
                Some(i) => i < self.model().len() && self.model()[i as int].0 == keyword@,
                None => !dict_has(self.model(), keyword@),
            },
    {
        let mut i: usize = 0;
        while i < self.entries.len()
            invariant
                i <= self.entries@.len(),
                self.model().len() == self.entries@.len(),
                forall|j: int| 0 <= j < i ==> (#[trigger] self.model()[j]).0 != keyword@,
            decreases self.entries@.len() - i,
        {
            if self.entries[i].0 == *keyword {
                return Some(i);
            }
            i += 1;
        }
        None
    }

    /// Append `candidates` to the list stored under `keyword` (creating it).
    pub fn add_candidates(&mut self, keyword: &str, candidates: Vec<Candidate>)
        ensures
            forall|k: Seq<char>| #[trigger] final(self).get_spec(k) == if k == keyword@ {
                old(self).get_spec(k) + candidates@
            } else {
                old(self).get_spec(k)
            },
            final(self).count_spec() == old(self).count_spec() + if dict_has(old(self).model(), keyword@) {
                0int
            } else {
                1int
            },
    {
        proof { use_type_invariant(&*self); }
        let key = String::from_str(keyword);
        let ghost m0 = self.model();
        match self.find(&key) {
            Some(i) => {
                let mut list = copy_candidates(&self.entries[i].1);
                let mut extra = candidates;
                list.append(&mut extra);
                let ghost old_entries = self.entries@;
                let mut entries: Vec<(String, Vec<Candidate>)> = Vec::new();
                std::mem::swap(&mut entries, &mut self.entries);
                entries.set(i, (key, list));
                proof {
                    let m1 = entries@.map_values(|e: (String, Vec<Candidate>)| (e.0@, e.1@));
                    assert(forall|j: int| 0 <= j < m1.len() ==> (#[trigger] m1[j]).0 == m0[j].0);
                    assert forall|a: int, b: int| 0 <= a < m1.len() && 0 <= b < m1.len() && a != b
                        implies (#[trigger] m1[a]).0 != (#[trigger] m1[b]).0 by {
                        assert(m1[a].0 == m0[a].0 && m1[b].0 == m0[b].0);
                    }
                    assert forall|k: Seq<char>| #[trigger] dict_get(m1, k) == if k == keyword@ {
                        dict_get(m0, k) + candidates@
                    } else {
                        dict_get(m0, k)
                    } by {
                        if k == keyword@ {
                            lemma_dict_get_at(m1, i as int);
                            lemma_dict_get_at(m0, i as int);
                        } else if dict_has(m0, k) {
                            let c = choose|c: int| 0 <= c < m0.len() && (#[trigger] m0[c]).0 == k;
                            lemma_dict_get_at(m0, c);
                            lemma_dict_get_at(m1, c);
                        } else {
                            assert(!dict_has(m1, k));
                        }
                    }
                }
                self.entries = entries;
            },
            None => {
                let mut entries: Vec<(String, Vec<Candidate>)> = Vec::new();
                std::mem::swap(&mut entries, &mut self.entries);
                entries.push((key, candidates));
                proof {
                    let m1 = entries@.map_values(|e: (String, Vec<Candidate>)| (e.0@, e.1@));
                    assert(m1.len() == m0.len() + 1);
                    assert(forall|j: int| 0 <= j < m0.len() ==> (#[trigger] m1[j]) == m0[j]);
                    assert(m1[m0.len() as int] == (keyword@, candidates@));
                    assert(forall|j: int| 0 <= j < m0.len() ==> (#[trigger] m0[j]).0 != keyword@);
                    assert forall|a: int, b: int| 0 <= a < m1.len() && 0 <= b < m1.len() && a != b
                        implies (#[trigger] m1[a]).0 != (#[trigger] m1[b]).0 by {
                        if a < m0.len() && b < m0.len() {
                            assert(m1[a] == m0[a] && m1[b] == m0[b]);
                        } else if a < m0.len() {
                            assert(m1[a] == m0[a]);
                        } else {
                            assert(m1[b] == m0[b]);
                        }
                    }
                    assert forall|k: Seq<char>| #[trigger] dict_get(m1, k) == if k == keyword@ {
                        dict_get(m0, k) + candidates@
                    } else {
                        dict_get(m0, k)
                    } by {
                        if k == keyword@ {
                            lemma_dict_get_at(m1, m0.len() as int);
                            assert(dict_get(m0, k) =~= Seq::<Candidate>::empty());
                            assert(Seq::<Candidate>::empty() + candidates@ =~= candidates@);
                        } else if dict_has(m0, k) {
                            let c = choose|c: int| 0 <= c < m0.len() && (#[trigger] m0[c]).0 == k;
                            lemma_dict_get_at(m0, c);
                            lemma_dict_get_at(m1, c);
                        } else {
                            assert(!dict_has(m1, k));
                        }
                    }
                }
                self.entries = entries;
            },
        }
    }

    /// Add one candidate (`text`, no separate value) under `keyword`.
    pub fn add(&mut self, keyword: &str, text: &str, candidate_type: CandidateType, score_bits: u32)
        ensures
            forall|k: Seq<char>| k != keyword@ ==> #[trigger] final(self).get_spec(k) == old(self).get_spec(k),
            final(self).get_spec(keyword@).len() == old(self).get_spec(keyword@).len() + 1,
            final(self).get_spec(keyword@).drop_last() == old(self).get_spec(keyword@),
            final(self).get_spec(keyword@).last().text@ == text@,
            final(self).get_spec(keyword@).last().value is None,
            final(self).get_spec(keyword@).last().candidate_type == candidate_type,
            final(self).get_spec(keyword@).last().score_bits == score_bits,
            final(self).count_spec() == old(self).count_spec() + if dict_has(old(self).model(), keyword@) {
                0int
            } else {
                1int
            },
    {
        let candidate = Candidate { text: String::from_str(text), value: None, candidate_type, score_bits };
        let mut one: Vec<Candidate> = Vec::new();
        one.push(candidate);
        self.add_candidates(keyword, one);
        assert(final(self).get_spec(keyword@) == old(self).get_spec(keyword@) + one@);
        assert((old(self).get_spec(keyword@) + one@).drop_last() =~= old(self).get_spec(keyword@));
    }
}

impl DictionaryProvider for SimpleDictionary {
    /// The candidates stored under the keyword, exactly.
    open spec fn answers(&self, keyword: Seq<char>, candidates: Seq<Candidate>) -> bool {
        candidates == self.get_spec(keyword)
    }

    fn lookup(&self, keyword: &str) -> (r: Vec<Candidate>)
        ensures
            r@ == self.get_spec(keyword@),
    {
        proof { use_type_invariant(self); }
        let key = String::from_str(keyword);
        match self.find(&key) {
            Some(i) => {
                proof { lemma_dict_get_at(self.model(), i as int); }
                copy_candidates(&self.entries[i].1)
            },
            None => Vec::new(),
        }
    }

    fn count(&self) -> (r: usize)
        ensures
            r == self.count_spec(),
    {
        self.entries.len()
    }
}

impl Clone for SimpleDictionary {
    fn clone(&self) -> (r: Self)
        ensures
            r.model() == self.model(),
    {
        proof { use_type_invariant(self); }
        let mut entries: Vec<(String, Vec<Candidate>)> = Vec::new();
        let mut i: usize = 0;
        while i < self.entries.len()
            invariant
                i <= self.entries@.len(),
                entries@.len() == i,
                forall|j: int| 0 <= j < i ==> (#[trigger] entries@[j]).0@ == self.entries@[j].0@
                    && entries@[j].1@ == self.entries@[j].1@,
            decreases self.entries@.len() - i,
        {
            let key = self.entries[i].0.clone();
            let list = copy_candidates(&self.entries[i].1);
            entries.push((key, list));
            i += 1;
        }
        assert(entries@.map_values(|e: (String, Vec<Candidate>)| (e.0@, e.1@)) =~= self.model());
        SimpleDictionary { entries }
    }
}

impl Default for SimpleDictionary {
    fn default() -> (r: Self)
        ensures
            forall|k: Seq<char>| #[trigger] r.get_spec(k) == Seq::<Candidate>::empty(),
            r.count_spec() == 0,
    {
        SimpleDictionary::new()
    }
}

} // verus!
