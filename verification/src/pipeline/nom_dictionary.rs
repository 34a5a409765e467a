//! The Nôm dictionary's query and candidate shapes: the full-text query
//! built from a keyword, and the candidate built from a database row.
//! (Opening the database and running the query happen outside the
//! library.)

use vstd::prelude::*;
use crate::pipeline::context::{Candidate, CandidateType};
use crate::text::{is_space, char_is_space, str_chars, chars_to_string};

verus! {

/// Completed words and the word in progress after reading `s`.
pub open spec fn ws_state(s: Seq<char>) -> (Seq<Seq<char>>, Seq<char>)
    decreases s.len(),
{
    if s.len() == 0 {
        (Seq::empty(), Seq::empty())
    } else {
        let prev = ws_state(s.drop_last());
        let c = s.last();
        if is_space(c) {
            if prev.1.len() > 0 {
                (prev.0.push(prev.1), Seq::empty())
            } else {
                (prev.0, Seq::empty())
            }
        } else {
            (prev.0, prev.1.push(c))
        }
    }
}

/// The whitespace-separated words of `s` (`str::split_whitespace`).
pub open spec fn words(s: Seq<char>) -> Seq<Seq<char>> {
    let st = ws_state(s);
    if st.1.len() > 0 {
        st.0.push(st.1)
    } else {
        st.0
    }
}

/// The words of `ws`, each followed by `*`, joined with " AND ".
pub open spec fn join_prefix_terms(ws: Seq<Seq<char>>) -> Seq<char>
    decreases ws.len(),
{
    if ws.len() == 0 {
        Seq::empty()
    } else if ws.len() == 1 {
        ws[0].push('*')
    } else {
        join_prefix_terms(ws.drop_last()) + seq![' ', 'A', 'N', 'D', ' '] + ws.last().push('*')
    }
}

/// The full-text query for `keyword`: with a space, every word as a prefix
/// term, all required ("thien thuong" → "thien* AND thuong*"); otherwise
/// the keyword as one prefix term ("thien" → "thien*").
pub open spec fn fts_query_spec(keyword: Seq<char>) -> Seq<char> {
    if keyword.contains(' ') {
        join_prefix_terms(words(keyword))
    } else {
        keyword.push('*')
    }
}

fn split_words(s: &[char]) -> (r: Vec<Vec<char>>)
    ensures
        r@.len() == words(s@).len(),
        forall|i: int| 0 <= i < r@.len() ==> (#[trigger] r@[i])@ == words(s@)[i],
{
    let mut done: Vec<Vec<char>> = Vec::new();
    let mut cur: Vec<char> = Vec::new();
    let mut i: usize = 0;
    while i < s.len()
        invariant
            i <= s.len(),
            done@.len() == ws_state(s@.subrange(0, i as int)).0.len(),
            forall|j: int| 0 <= j < done@.len() ==> (#[trigger] done@[j])@ == ws_state(s@.subrange(0, i as int)).0[j],
            cur@ == ws_state(s@.subrange(0, i as int)).1,
        decreases s.len() - i,
    {
        assert(s@.subrange(0, (i + 1) as int).drop_last() =~= s@.subrange(0, i as int));
        let c = s[i];
        if char_is_space(c) {
            if cur.len() > 0 {
                let mut w: Vec<char> = Vec::new();
                std::mem::swap(&mut w, &mut cur);
                done.push(w);
            } else {
                cur = Vec::new();
            }
        } else {
            cur.push(c);
        }
        i += 1;
    }
    assert(s@.subrange(0, s.len() as int) =~= s@);
    if cur.len() > 0 {
        done.push(cur);
    }
    done
}

/// The full-text query for `keyword` (see `fts_query_spec`).
pub fn fts_query(keyword: &str) -> (r: String)
    ensures
        r@ == fts_query_spec(keyword@),
{
    let k = str_chars(keyword);
    let mut has_space = false;
    let mut i: usize = 0;
    while i < k.len()
        invariant
            i <= k.len(),
            k@ == keyword@,
            has_space == exists|j: int| 0 <= j < i && k@[j] == ' ',
        decreases k.len() - i,
    {
        if k[i] == ' ' {
            has_space = true;
        }
        i += 1;
    }
    let mut out: Vec<char> = Vec::new();
    if has_space {
        let ws = split_words(k.as_slice());
        let mut n: usize = 0;
        while n < ws.len()
            invariant
                n <= ws@.len(),
                ws@.len() == words(keyword@).len(),
                forall|j: int| 0 <= j < ws@.len() ==> (#[trigger] ws@[j])@ == words(keyword@)[j],
                out@ == join_prefix_terms(words(keyword@).subrange(0, n as int)),
            decreases ws@.len() - n,
        {
            let ghost before = out@;
            if n > 0 {
                out.push(' ');
                out.push('A');
                out.push('N');
                out.push('D');
                out.push(' ');
            }
            let w = &ws[n];
            let mut j: usize = 0;
            while j < w.len()
                invariant
                    j <= w@.len(),
                    out@ == before + (if n > 0 { seq![' ', 'A', 'N', 'D', ' '] } else { Seq::<char>::empty() })
                        + w@.subrange(0, j as int),
                decreases w@.len() - j,
            {
                out.push(w[j]);
                j += 1;
                assert(out@ =~= before + (if n > 0 { seq![' ', 'A', 'N', 'D', ' '] } else { Seq::<char>::empty() })
                    + w@.subrange(0, j as int));
            }
            out.push('*');
            proof {
                let all = words(keyword@);
                let pre = all.subrange(0, n as int + 1);
                assert(pre.drop_last() =~= all.subrange(0, n as int));
                assert(pre.last() == all[n as int]);
                assert(w@.subrange(0, w@.len() as int) =~= w@);
                if n == 0 {
                    assert(out@ =~= w@.push('*'));
                } else {
                    assert(out@ =~= before + seq![' ', 'A', 'N', 'D', ' '] + w@.push('*'));
                }
            }
            n += 1;
        }
        assert(words(keyword@).subrange(0, ws@.len() as int) =~= words(keyword@));
        assert(keyword@.contains(' '));
    } else {
        let mut j: usize = 0;
        while j < k.len()
            invariant
                j <= k.len(),
                k@ == keyword@,
                out@ == k@.subrange(0, j as int),
            decreases k.len() - j,
        {
            out.push(k[j]);
            j += 1;
            assert(out@ =~= k@.subrange(0, j as int));
        }
        out.push('*');
        assert(out@ =~= keyword@.push('*'));
        assert(!keyword@.contains(' '));
    }
    chars_to_string(out.as_slice())
}

/// The text shown for a dictionary row: "𡗶 (trời)" when the row has a
/// meaning, the character alone otherwise.
pub open spec fn nom_display_spec(character: Seq<char>, meaning: Seq<char>) -> Seq<char> {
    if meaning.len() > 0 {
        character + seq![' ', '('] + meaning + seq![')']
    } else {
        character
    }
}

/// The candidate for a dictionary row: the display text, the character as
/// the value when a meaning is shown beside it, type Nôm.
pub fn nom_candidate(character: &str, meaning: &str, score_bits: u32) -> (r: Candidate)
    ensures
        r.text@ == nom_display_spec(character@, meaning@),
        meaning@.len() > 0 ==> (r.value matches Some(v) && v@ == character@),
        meaning@.len() == 0 ==> r.value is None,
        r.candidate_type == CandidateType::Nom,
        r.score_bits == score_bits,
{
    let c = str_chars(character);
    let m = str_chars(meaning);
    if m.len() > 0 {
        let mut t: Vec<char> = Vec::new();
        let mut i: usize = 0;
        while i < c.len()
            invariant
                i <= c.len(),
                t@ == c@.subrange(0, i as int),
            decreases c.len() - i,
        {
            t.push(c[i]);
            i += 1;
            assert(t@ =~= c@.subrange(0, i as int));
        }
        t.push(' ');
        t.push('(');
        let ghost head = t@;
        let mut j: usize = 0;
        while j < m.len()
            invariant
                j <= m.len(),
                t@ == head + m@.subrange(0, j as int),
            decreases m.len() - j,
        {
            t.push(m[j]);
            j += 1;
            assert(t@ =~= head + m@.subrange(0, j as int));
        }
        t.push(')');
        assert(c@.subrange(0, c@.len() as int) =~= c@);
        assert(m@.subrange(0, m@.len() as int) =~= m@);
        assert(t@ =~= character@ + seq![' ', '('] + meaning@ + seq![')']);
        Candidate {
            text: chars_to_string(t.as_slice()),
            value: Some(String::from_str(character)),
            candidate_type: CandidateType::Nom,
            score_bits,
        }
    } else {
        Candidate {
            text: String::from_str(character),
            value: None,
            candidate_type: CandidateType::Nom,
            score_bits,
        }
    }
}

} // verus!
