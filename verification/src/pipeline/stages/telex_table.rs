//! Telex transformation tables: two-key transforms (`aa` → `â`, …) and the
//! three-key `uow` → `ươ`.

use vstd::prelude::*;

verus! {

/// A two-key Telex transform.
#[derive(Debug, Clone, Copy, PartialEq, Eq, Structural)]
pub struct TelexTransform {
    /// First key (the vowel or `d`)
    pub key1: char,
    /// Second key (the modifier)
    pub key2: char,
    /// Resulting character
    pub result: char,
}

/// The two-key table.
pub open spec fn telex_2char_entries() -> Seq<TelexTransform> {
    seq![
        TelexTransform { key1: 'a', key2: 'a', result: 'â' },
        TelexTransform { key1: 'a', key2: 'w', result: 'ă' },
        TelexTransform { key1: 'd', key2: 'd', result: 'đ' },
        TelexTransform { key1: 'e', key2: 'e', result: 'ê' },
        TelexTransform { key1: 'o', key2: 'o', result: 'ô' },
        TelexTransform { key1: 'o', key2: 'w', result: 'ơ' },
        TelexTransform { key1: 'u', key2: 'w', result: 'ư' },
        TelexTransform { key1: 'A', key2: 'A', result: 'Â' },
        TelexTransform { key1: 'A', key2: 'w', result: 'Ă' },
        TelexTransform { key1: 'A', key2: 'W', result: 'Ă' },
        TelexTransform { key1: 'D', key2: 'd', result: 'Đ' },
        TelexTransform { key1: 'D', key2: 'D', result: 'Đ' },
        TelexTransform { key1: 'E', key2: 'E', result: 'Ê' },
        TelexTransform { key1: 'O', key2: 'O', result: 'Ô' },
        TelexTransform { key1: 'O', key2: 'w', result: 'Ơ' },
        TelexTransform { key1: 'O', key2: 'W', result: 'Ơ' },
        TelexTransform { key1: 'U', key2: 'w', result: 'Ư' },
        TelexTransform { key1: 'U', key2: 'W', result: 'Ư' },
    ]
}

/// The three-key table: (keys, result).
pub open spec fn telex_3char_entries() -> Seq<(char, char, char, Seq<char>)> {
    seq![
        ('u', 'o', 'w', seq!['ư', 'ơ']),
        ('U', 'O', 'W', seq!['Ư', 'Ơ']),
        ('U', 'o', 'w', seq!['Ư', 'ơ']),
    ]
}

/// Result of the first two-key entry from `i` on matching `key1 key2`.
pub open spec fn first_2char(t: Seq<TelexTransform>, key1: char, key2: char, i: int) -> Option<char>
    decreases t.len() - i,
{
    if i < 0 || i >= t.len() {
        None
    } else if t[i].key1 == key1 && t[i].key2 == key2 {
        Some(t[i].result)
    } else {
        first_2char(t, key1, key2, i + 1)
    }
}

/// Result of the first three-key entry from `i` on matching the keys.
pub open spec fn first_3char(t: Seq<(char, char, char, Seq<char>)>, k1: char, k2: char, k3: char, i: int) -> Option<Seq<char>>
    decreases t.len() - i,
{
    if i < 0 || i >= t.len() {
        None
    } else if t[i].0 == k1 && t[i].1 == k2 && t[i].2 == k3 {
        Some(t[i].3)
    } else {
        first_3char(t, k1, k2, k3, i + 1)
    }
}

/// The two-key table.
pub fn telex_2char_table() -> (r: Vec<TelexTransform>)
    ensures
        r@ == telex_2char_entries(),
{
    let r = vec![
        TelexTransform { key1: 'a', key2: 'a', result: 'â' },
        TelexTransform { key1: 'a', key2: 'w', result: 'ă' },
        TelexTransform { key1: 'd', key2: 'd', result: 'đ' },
        TelexTransform { key1: 'e', key2: 'e', result: 'ê' },
        TelexTransform { key1: 'o', key2: 'o', result: 'ô' },
        TelexTransform { key1: 'o', key2: 'w', result: 'ơ' },
        TelexTransform { key1: 'u', key2: 'w', result: 'ư' },
        TelexTransform { key1: 'A', key2: 'A', result: 'Â' },
        TelexTransform { key1: 'A', key2: 'w', result: 'Ă' },
        TelexTransform { key1: 'A', key2: 'W', result: 'Ă' },
        TelexTransform { key1: 'D', key2: 'd', result: 'Đ' },
        TelexTransform { key1: 'D', key2: 'D', result: 'Đ' },
        TelexTransform { key1: 'E', key2: 'E', result: 'Ê' },
        TelexTransform { key1: 'O', key2: 'O', result: 'Ô' },
        TelexTransform { key1: 'O', key2: 'w', result: 'Ơ' },
        TelexTransform { key1: 'O', key2: 'W', result: 'Ơ' },
        TelexTransform { key1: 'U', key2: 'w', result: 'Ư' },
        TelexTransform { key1: 'U', key2: 'W', result: 'Ư' },
    ];
    assert(r@ =~= telex_2char_entries());
    r
}

/// The three-key table.
pub fn telex_3char_table() -> (r: Vec<(char, char, char, &'static str)>)
    ensures
        r@.len() == telex_3char_entries().len(),
        forall|i: int| 0 <= i < r@.len() ==> {
            let e = #[trigger] r@[i];
            let f = telex_3char_entries()[i];
            e.0 == f.0 && e.1 == f.1 && e.2 == f.2 && e.3@ == f.3
        },
{
    proof {
        reveal_strlit("ươ");
        reveal_strlit("ƯƠ");
        reveal_strlit("Ươ");
    }
    let r = vec![('u', 'o', 'w', "ươ"), ('U', 'O', 'W', "ƯƠ"), ('U', 'o', 'w', "Ươ")];
    r
}

/// The result of the two-key transform `key1 key2`, if any.
pub fn lookup_2char(key1: char, key2: char) -> (r: Option<char>)
    ensures
        r == first_2char(telex_2char_entries(), key1, key2, 0),
{
    let table = telex_2char_table();
    let mut i: usize = 0;
    while i < table.len()
        invariant
            i <= table@.len(),
            table@ == telex_2char_entries(),
            first_2char(telex_2char_entries(), key1, key2, 0) == first_2char(telex_2char_entries(), key1, key2, i as int),
        decreases table@.len() - i,
    {
        if table[i].key1 == key1 && table[i].key2 == key2 {
            return Some(table[i].result);
        }
        i += 1;
    }
    None
}

/// The result of the three-key transform `key1 key2 key3`, if any.
pub fn lookup_3char(key1: char, key2: char, key3: char) -> (r: Option<&'static str>)
    ensures
        match r {
            Some(s) => first_3char(telex_3char_entries(), key1, key2, key3, 0) == Some(s@),
            None => first_3char(telex_3char_entries(), key1, key2, key3, 0) is None,
        },
{
    let table = telex_3char_table();
    let mut i: usize = 0;
    while i < table.len()
        invariant
            i <= table@.len(),
            table@.len() == telex_3char_entries().len(),
            forall|j: int| 0 <= j < table@.len() ==> {
                let e = #[trigger] table@[j];
                let f = telex_3char_entries()[j];
                e.0 == f.0 && e.1 == f.1 && e.2 == f.2 && e.3@ == f.3
            },
            first_3char(telex_3char_entries(), key1, key2, key3, 0)
                == first_3char(telex_3char_entries(), key1, key2, key3, i as int),
        decreases table@.len() - i,
    {
        let (k1, k2, k3, result) = table[i];
        if k1 == key1 && k2 == key2 && k3 == key3 {
            return Some(result);
        }
        i += 1;
    }
    None
}

/// Whether `ch` can start a two-key transform (`a d e o u`, either case).
pub fn can_start_transform(ch: char) -> (r: bool)
    ensures
        r == matches!(ch, 'a' | 'A' | 'd' | 'D' | 'e' | 'E' | 'o' | 'O' | 'u' | 'U'),
{
    matches!(ch, 'a' | 'A' | 'd' | 'D' | 'e' | 'E' | 'o' | 'O' | 'u' | 'U')
}

} // verus!
