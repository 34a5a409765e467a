//! Vietnamese tone placement: which vowel of a nucleus receives the tone.
//!
//! Rules, in priority order:
//! 1. A super-vowel (ă â ê ô ơ ư, toned or not) always wins; the last one
//!    wins when there are two.
//! 2. Triple vowel — the middle vowel.
//! 3. Double vowel with a final consonant — the second vowel.
//! 4. Double vowel, open syllable: "ia"/"ua" → first; "oa"/"oe"/"uy" → by
//!    tone style (old → first, new → second); anything else → first.
//! 5. Single vowel → index 0.

use vstd::prelude::*;
use crate::pipeline::config::ToneStyle;
use crate::text::{lower_of, char_lower};
use crate::vowel::cluster::{normalize_vowel, normalize_vowel_spec};

verus! {

/// Vowels that carry their own diacritic (breve/circumflex/horn), toned or not.
pub open spec fn is_super_vowel_spec(ch: char) -> bool {
    matches!(lower_of(ch),
        'ă' | 'â' | 'ê' | 'ô' | 'ơ' | 'ư' |
        'ắ' | 'ằ' | 'ẳ' | 'ẵ' | 'ặ' |
        'ấ' | 'ầ' | 'ẩ' | 'ẫ' | 'ậ' |
        'ế' | 'ề' | 'ể' | 'ễ' | 'ệ' |
        'ố' | 'ồ' | 'ổ' | 'ỗ' | 'ộ' |
        'ớ' | 'ờ' | 'ở' | 'ỡ' | 'ợ' |
        'ứ' | 'ừ' | 'ử' | 'ữ' | 'ự'
    )
}

fn is_super_vowel(ch: char) -> (r: bool)
    ensures r == is_super_vowel_spec(ch),
{
    let lower = char_lower(ch);
    matches!(lower,
        'ă' | 'â' | 'ê' | 'ô' | 'ơ' | 'ư' |
        'ắ' | 'ằ' | 'ẳ' | 'ẵ' | 'ặ' |
        'ấ' | 'ầ' | 'ẩ' | 'ẫ' | 'ậ' |
        'ế' | 'ề' | 'ể' | 'ễ' | 'ệ' |
        'ố' | 'ồ' | 'ổ' | 'ỗ' | 'ộ' |
        'ớ' | 'ờ' | 'ở' | 'ỡ' | 'ợ' |
        'ứ' | 'ừ' | 'ử' | 'ữ' | 'ự'
    )
}

/// Index of the last super-vowel among the first `k` chars of `n`.
pub open spec fn last_super_vowel(n: Seq<char>, k: nat) -> Option<int>
    decreases k,
{
    if k == 0 {
        None
    } else if is_super_vowel_spec(n[k - 1]) {
        Some(k - 1)
    } else {
        last_super_vowel(n, (k - 1) as nat)
    }
}

/// Triples whose tone sits on the middle vowel.
pub open spec fn is_middle_toned_triple(a: char, b: char, c: char) -> bool {
    ||| (a == 'i' && b == 'e' && c == 'u')
    ||| (a == 'y' && b == 'e' && c == 'u')
    ||| (a == 'u' && b == 'o' && c == 'i')
    ||| (a == 'u' && b == 'o' && c == 'u')
    ||| (a == 'o' && b == 'a' && c == 'i')
    ||| (a == 'o' && b == 'a' && c == 'y')
    ||| (a == 'u' && b == 'a' && c == 'y')
    ||| (a == 'u' && b == 'y' && c == 'a')
    ||| (a == 'u' && b == 'y' && c == 'u')
}

/// Index of the vowel of `n` that receives the tone.
pub open spec fn place_spec(n: Seq<char>, tone_style: ToneStyle, has_final: bool) -> Option<int> {
    if n.len() == 0 {
        None
    } else if last_super_vowel(n, n.len()) is Some {
        last_super_vowel(n, n.len())
    } else if n.len() == 3 && is_middle_toned_triple(
        normalize_vowel_spec(n[0]),
        normalize_vowel_spec(n[1]),
        normalize_vowel_spec(n[2]),
    ) {
        Some(1)
    } else if n.len() >= 2 {
        if has_final {
            Some(1)
        } else {
            let v0 = normalize_vowel_spec(n[0]);
            let v1 = normalize_vowel_spec(n[1]);
            if (v0 == 'i' && v1 == 'a') || (v0 == 'u' && v1 == 'a') {
                Some(0)
            } else if (v0 == 'o' && v1 == 'a') || (v0 == 'o' && v1 == 'e') || (v0 == 'u' && v1 == 'y') {
                match tone_style {
                    ToneStyle::Old => Some(0),
                    ToneStyle::New => Some(1),
                }
            } else {
                Some(0)
            }
        }
    } else {
        Some(0)
    }
}

proof fn lemma_last_super_vowel_bound(n: Seq<char>, k: nat)
    requires k <= n.len(),
    ensures last_super_vowel(n, k) matches Some(i) ==> 0 <= i < k,
    decreases k,
{
    if k > 0 {
        lemma_last_super_vowel_bound(n, (k - 1) as nat);
    }
}

proof fn lemma_last_super_is(n: Seq<char>, i: int, k: nat)
    requires
        0 <= i < k <= n.len(),
        is_super_vowel_spec(n[i]),
        forall|j: int| i < j < k ==> !is_super_vowel_spec(#[trigger] n[j]),
    ensures
        last_super_vowel(n, k) == Some(i),
    decreases k,
{
    if k - 1 > i {
        lemma_last_super_is(n, i, (k - 1) as nat);
    }
}

/// A super vowel (ă â ê ô ơ ư) takes the tone, the last one when there are
/// several (`thuở`, `người`), whatever the style and coda.
pub proof fn law_place_last_super_vowel(n: Seq<char>, i: int, tone_style: ToneStyle, has_final: bool)
    requires
        0 <= i < n.len(),
        is_super_vowel_spec(n[i]),
        forall|j: int| i < j < n.len() ==> !is_super_vowel_spec(#[trigger] n[j]),
    ensures
        place_spec(n, tone_style, has_final) == Some(i),
{
    lemma_last_super_is(n, i, n.len());
}

/// A three-vowel nucleus with no super vowel whose letters are i-e-u,
/// y-e-u, u-o-i, u-o-u, o-a-i, o-a-y, u-a-y, u-y-a or u-y-u takes the tone on
/// its middle vowel (`ngoài`, `khuya`), whatever the style and coda.
pub proof fn law_place_middle_of_triple(n: Seq<char>, tone_style: ToneStyle, has_final: bool)
    requires
        n.len() == 3,
        !is_super_vowel_spec(n[0]),
        !is_super_vowel_spec(n[1]),
        !is_super_vowel_spec(n[2]),
        ({
            let a = normalize_vowel_spec(n[0]);
            let b = normalize_vowel_spec(n[1]);
            let c = normalize_vowel_spec(n[2]);
            ||| a == 'i' && b == 'e' && c == 'u'
            ||| a == 'y' && b == 'e' && c == 'u'
            ||| a == 'u' && b == 'o' && c == 'i'
            ||| a == 'u' && b == 'o' && c == 'u'
            ||| a == 'o' && b == 'a' && c == 'i'
            ||| a == 'o' && b == 'a' && c == 'y'
            ||| a == 'u' && b == 'a' && c == 'y'
            ||| a == 'u' && b == 'y' && c == 'a'
            ||| a == 'u' && b == 'y' && c == 'u'
        }),
    ensures
        place_spec(n, tone_style, has_final) == Some(1int),
{
    assert(last_super_vowel(n, 0) is None);
    assert(last_super_vowel(n, 1) is None);
    assert(last_super_vowel(n, 2) is None);
    assert(last_super_vowel(n, 3) is None);
}

/// The tone goes on one of the nucleus's vowels, and there is a place
/// exactly when the nucleus is not empty.
pub proof fn law_place_inside(n: Seq<char>, tone_style: ToneStyle, has_final: bool)
    ensures
        place_spec(n, tone_style, has_final) matches Some(i) ==> 0 <= i < n.len(),
        place_spec(n, tone_style, has_final) is None <==> n.len() == 0,
{
    lemma_last_super_vowel_bound(n, n.len());
}

/// Return the index within `nucleus` of the vowel that should receive the
/// tone; `None` only when `nucleus` is empty. The index is always
/// `< nucleus.len()`.
pub fn place(nucleus: &[char], tone_style: ToneStyle, has_final_consonant: bool) -> (r: Option<usize>)
    ensures
        match r {
            Some(i) => place_spec(nucleus@, tone_style, has_final_consonant) == Some(i as int)
                && i < nucleus@.len(),
            None => place_spec(nucleus@, tone_style, has_final_consonant) is None,
        },
        r is None <==> nucleus@.len() == 0,
{
    let n = nucleus.len();
    if n == 0 {
        return None;
    }
    // Priority 1: last super-vowel.
    let mut k: usize = n;
    while k > 0
        invariant
            k <= n,
            n == nucleus@.len(),
            last_super_vowel(nucleus@, n as nat) == last_super_vowel(nucleus@, k as nat),
        decreases k,
    {
        if is_super_vowel(nucleus[k - 1]) {
            proof { lemma_last_super_vowel_bound(nucleus@, n as nat); }
            return Some(k - 1);
        }
        k -= 1;
    }
    // Priority 2: triple vowel.
    if n == 3 {
        let v0 = normalize_vowel(nucleus[0]);
        let v1 = normalize_vowel(nucleus[1]);
        let v2 = normalize_vowel(nucleus[2]);
        if (v0 == 'i' && v1 == 'e' && v2 == 'u')
            || (v0 == 'y' && v1 == 'e' && v2 == 'u')
            || (v0 == 'u' && v1 == 'o' && v2 == 'i')
            || (v0 == 'u' && v1 == 'o' && v2 == 'u')
            || (v0 == 'o' && v1 == 'a' && v2 == 'i')
            || (v0 == 'o' && v1 == 'a' && v2 == 'y')
            || (v0 == 'u' && v1 == 'a' && v2 == 'y')
            || (v0 == 'u' && v1 == 'y' && v2 == 'a')
            || (v0 == 'u' && v1 == 'y' && v2 == 'u')
        {
            return Some(1);
        }
    }
    // Priority 3: double vowel.
    if n >= 2 {
        if has_final_consonant {
            return Some(1);
        }
        let v0 = normalize_vowel(nucleus[0]);
        let v1 = normalize_vowel(nucleus[1]);
        if (v0 == 'i' && v1 == 'a') || (v0 == 'u' && v1 == 'a') {
            return Some(0);
        }
        if (v0 == 'o' && v1 == 'a') || (v0 == 'o' && v1 == 'e') || (v0 == 'u' && v1 == 'y') {
            return Some(match tone_style {
                ToneStyle::Old => 0,
                ToneStyle::New => 1,
            });
        }
        return Some(0);
    }
    // Priority 4: single vowel.
    Some(0)
}

} // verus!
