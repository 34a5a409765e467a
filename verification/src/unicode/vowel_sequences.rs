//! The vowel sequence table: every vowel cluster a Vietnamese syllable can
//! have, with the marks it can take and where its tone goes.

use vstd::prelude::*;
use crate::text::{lower_of, char_lower, str_chars};

verus! {

/// One lexical unit of Vietnamese: a vowel (plain or marked) or a consonant.
#[derive(Debug, Clone, Copy, PartialEq, Eq, Hash, Structural)]
pub enum VnLexiName {
    /// Non-Vietnamese character (sentinel)
    NonVnChar,
    /// 'a'
    A,
    /// 'ă' (a with breve)
    Ar,
    /// 'â' (a with circumflex)
    Ab,
    /// 'e'
    E,
    /// 'ê' (e with circumflex)
    Er,
    /// 'i'
    I,
    /// 'o'
    O,
    /// 'ô' (o with circumflex)
    Or,
    /// 'ơ' (o with horn)
    Oh,
    /// 'u'
    U,
    /// 'ư' (u with horn)
    Uh,
    /// 'y'
    Y,
    /// 'b'
    B,
    /// 'c'
    C,
    /// 'ch'
    Ch,
    /// 'd'
    D,
    /// 'đ' (d with stroke)
    Dd,
    /// 'dz'
    Dz,
    /// 'g'
    G,
    /// 'gh'
    Gh,
    /// 'gi'
    Gi,
    /// 'gin'
    Gin,
    /// 'k'
    K,
    /// 'kh'
    Kh,
    /// 'l'
    L,
    /// 'm'
    M,
    /// 'n'
    N,
    /// 'ng'
    Ng,
    /// 'ngh'
    Ngh,
    /// 'nh'
    Nh,
    /// 'p'
    P,
    /// 'ph'
    Ph,
    /// 'q'
    Q,
    /// 'qu'
    Qu,
    /// 'r'
    R,
    /// 's'
    S,
    /// 't'
    T,
    /// 'th'
    Th,
    /// 'tr'
    Tr,
    /// 'v'
    V,
    /// 'x'
    X,
}

/// A vowel sequence, named by its letters (`r` = the breve of ă or the circumflex of ê/ô; `b` = the circumflex of â; `h` = horn).
#[derive(Debug, Clone, Copy, PartialEq, Eq, Hash, Structural)]
pub enum VowelSeq {
    /// Nil/None
    Nil,
    /// 'a'
    A,
    /// 'ă' (a with breve)
    Ar,
    /// 'â' (a with circumflex)
    Ab,
    /// 'e'
    E,
    /// 'ê' (e with circumflex)
    Er,
    /// 'i'
    I,
    /// 'o'
    O,
    /// 'ô' (o with circumflex)
    Or,
    /// 'ơ' (o with horn)
    Oh,
    /// 'u'
    U,
    /// 'ư' (u with horn)
    Uh,
    /// 'y'
    Y,
    /// 'ai'
    Ai,
    /// 'ao'
    Ao,
    /// 'au'
    Au,
    /// 'ay'
    Ay,
    /// 'aru' (ău)
    Aru,
    /// 'ary' (ăy)
    Ary,
    /// 'eo'
    Eo,
    /// 'eu'
    Eu,
    /// 'eru' (êu)
    Eru,
    /// 'ia'
    Ia,
    /// 'ie'
    Ie,
    /// 'ier' (iê)
    Ier,
    /// 'ieu' (iêu)
    Ieu,
    /// 'iu'
    Iu,
    /// 'oa'
    Oa,
    /// 'oab'
    Oab,
    /// 'oe'
    Oe,
    /// 'oai'
    Oai,
    /// 'oay'
    Oay,
    /// 'oeo'
    Oeo,
    /// 'oi'
    Oi,
    /// 'ori' (ôi)
    Ori,
    /// 'ohi' (ơi)
    Ohi,
    /// 'ua'
    Ua,
    /// 'uar' (uă)
    Uar,
    /// 'uary' (uăy)
    Uary,
    /// 'ue'
    Ue,
    /// 'uer' (uê)
    Uer,
    /// 'ui'
    Ui,
    /// 'uhi' (uư+i)
    Uhi,
    /// 'uo'
    Uo,
    /// 'uoi'
    Uoi,
    /// 'uor' (uô)
    Uor,
    /// 'uori' (uôi)
    Uori,
    /// 'uohi' (uơi)
    Uohi,
    /// 'uoh' (uơ)
    Uoh,
    /// 'uohu' (uơu)
    Uohu,
    /// 'uou'
    Uou,
    /// 'uhou' (uưu)
    Uhou,
    /// 'uu'
    Uu,
    /// 'uhu' (uư)
    Uhu,
    /// 'uy'
    Uy,
    /// 'uya'
    Uya,
    /// 'uye'
    Uye,
    /// 'uyer' (uyê)
    Uyer,
    /// 'uyu'
    Uyu,
    /// 'uha' (uưa)
    Uha,
    /// 'uho' (uưo)
    Uho,
    /// 'uhoi' (uưoi)
    Uhoi,
    /// 'uhoh' (uươ)
    Uhoh,
    /// 'uhohi' (uươi)
    Uhohi,
    /// 'uhohu' (uươu)
    Uhohu,
    /// 'ye'
    Ye,
    /// 'yer' (yê)
    Yer,
    /// 'yeu'
    Yeu,
    /// 'yeru' (yêu)
    Yeru,
}

/// What the table records of one vowel sequence.
#[derive(Debug, Clone, Copy)]
pub struct VowelSeqInfo {
    /// Number of vowels (1 to 3).
    pub len: u8,
    /// 1 when the sequence is a complete vowel nucleus, 0 when it is only a prefix of one.
    pub complete: u8,
    /// 1 when a final consonant may follow.
    pub con_suffix: u8,
    /// The vowels, padded with `NonVnChar`.
    pub vowels: [VnLexiName; 3],
    /// The sequences formed by the first one, two and three vowels.
    pub sub_seqs: [VowelSeq; 3],
    /// Index of the vowel that carries the roof (circumflex/breve), or -1.
    pub roof_pos: i8,
    /// The sequence after adding a roof.
    pub with_roof: VowelSeq,
    /// Index of the vowel that carries the hook (horn/breve), or -1.
    pub hook_pos: i8,
    /// The sequence after adding a hook.
    pub with_hook: VowelSeq,
}

/// Number of entries in the table.
pub const VSEQ_COUNT: usize = 70;

/// The table entry built from its fields.
pub open spec fn vseq_info(
    len: u8, complete: u8, con_suffix: u8,
    v0: VnLexiName, v1: VnLexiName, v2: VnLexiName,
    s0: VowelSeq, s1: VowelSeq, s2: VowelSeq,
    roof_pos: i8, with_roof: VowelSeq, hook_pos: i8, with_hook: VowelSeq,
) -> VowelSeqInfo {
    VowelSeqInfo {
        len, complete, con_suffix,
        vowels: [v0, v1, v2],
        sub_seqs: [s0, s1, s2],
        roof_pos, with_roof, hook_pos, with_hook,
    }
}

fn mk(
    len: u8, complete: u8, con_suffix: u8,
    v0: VnLexiName, v1: VnLexiName, v2: VnLexiName,
    s0: VowelSeq, s1: VowelSeq, s2: VowelSeq,
    roof_pos: i8, with_roof: VowelSeq, hook_pos: i8, with_hook: VowelSeq,
) -> (r: VowelSeqInfo)
    ensures
        r == vseq_info(len, complete, con_suffix, v0, v1, v2, s0, s1, s2, roof_pos, with_roof, hook_pos, with_hook),
{
    VowelSeqInfo {
        len, complete, con_suffix,
        vowels: [v0, v1, v2],
        sub_seqs: [s0, s1, s2],
        roof_pos, with_roof, hook_pos, with_hook,
    }
}

/// Entry `i` of the table (single vowels first, then pairs, then triples).
pub open spec fn vseq_entry(i: int) -> VowelSeqInfo {
    if i == 0 {
        vseq_info(1u8, 1u8, 1u8, VnLexiName::A, VnLexiName::NonVnChar, VnLexiName::NonVnChar, VowelSeq::A, VowelSeq::Nil, VowelSeq::Nil, -1i8, VowelSeq::Ar, -1i8, VowelSeq::Ab)
    } else if i == 1 {
        vseq_info(1u8, 1u8, 1u8, VnLexiName::Ar, VnLexiName::NonVnChar, VnLexiName::NonVnChar, VowelSeq::Ar, VowelSeq::Nil, VowelSeq::Nil, 0i8, VowelSeq::Nil, -1i8, VowelSeq::Ab)
    } else if i == 2 {
        vseq_info(1u8, 1u8, 1u8, VnLexiName::Ab, VnLexiName::NonVnChar, VnLexiName::NonVnChar, VowelSeq::Ab, VowelSeq::Nil, VowelSeq::Nil, -1i8, VowelSeq::Ar, 0i8, VowelSeq::Nil)
    } else if i == 3 {
        vseq_info(1u8, 1u8, 1u8, VnLexiName::E, VnLexiName::NonVnChar, VnLexiName::NonVnChar, VowelSeq::E, VowelSeq::Nil, VowelSeq::Nil, -1i8, VowelSeq::Er, -1i8, VowelSeq::Nil)
    } else if i == 4 {
        vseq_info(1u8, 1u8, 1u8, VnLexiName::Er, VnLexiName::NonVnChar, VnLexiName::NonVnChar, VowelSeq::Er, VowelSeq::Nil, VowelSeq::Nil, 0i8, VowelSeq::Nil, -1i8, VowelSeq::Nil)
    } else if i == 5 {
        vseq_info(1u8, 1u8, 1u8, VnLexiName::I, VnLexiName::NonVnChar, VnLexiName::NonVnChar, VowelSeq::I, VowelSeq::Nil, VowelSeq::Nil, -1i8, VowelSeq::Nil, -1i8, VowelSeq::Nil)
    } else if i == 6 {
        vseq_info(1u8, 1u8, 1u8, VnLexiName::O, VnLexiName::NonVnChar, VnLexiName::NonVnChar, VowelSeq::O, VowelSeq::Nil, VowelSeq::Nil, -1i8, VowelSeq::Or, -1i8, VowelSeq::Oh)
    } else if i == 7 {
        vseq_info(1u8, 1u8, 1u8, VnLexiName::Or, VnLexiName::NonVnChar, VnLexiName::NonVnChar, VowelSeq::Or, VowelSeq::Nil, VowelSeq::Nil, 0i8, VowelSeq::Nil, -1i8, VowelSeq::Oh)
    } else if i == 8 {
        vseq_info(1u8, 1u8, 1u8, VnLexiName::Oh, VnLexiName::NonVnChar, VnLexiName::NonVnChar, VowelSeq::Oh, VowelSeq::Nil, VowelSeq::Nil, -1i8, VowelSeq::Or, 0i8, VowelSeq::Nil)
    } else if i == 9 {
        vseq_info(1u8, 1u8, 1u8, VnLexiName::U, VnLexiName::NonVnChar, VnLexiName::NonVnChar, VowelSeq::U, VowelSeq::Nil, VowelSeq::Nil, -1i8, VowelSeq::Nil, -1i8, VowelSeq::Uh)
    } else if i == 10 {
        vseq_info(1u8, 1u8, 1u8, VnLexiName::Uh, VnLexiName::NonVnChar, VnLexiName::NonVnChar, VowelSeq::Uh, VowelSeq::Nil, VowelSeq::Nil, -1i8, VowelSeq::Nil, 0i8, VowelSeq::Nil)
    } else if i == 11 {
        vseq_info(1u8, 1u8, 1u8, VnLexiName::Y, VnLexiName::NonVnChar, VnLexiName::NonVnChar, VowelSeq::Y, VowelSeq::Nil, VowelSeq::Nil, -1i8, VowelSeq::Nil, -1i8, VowelSeq::Nil)
    } else if i == 12 {
        vseq_info(2u8, 1u8, 0u8, VnLexiName::A, VnLexiName::I, VnLexiName::NonVnChar, VowelSeq::A, VowelSeq::Ai, VowelSeq::Nil, -1i8, VowelSeq::Nil, -1i8, VowelSeq::Nil)
    } else if i == 13 {
        vseq_info(2u8, 1u8, 0u8, VnLexiName::A, VnLexiName::O, VnLexiName::NonVnChar, VowelSeq::A, VowelSeq::Ao, VowelSeq::Nil, -1i8, VowelSeq::Nil, -1i8, VowelSeq::Nil)
    } else if i == 14 {
        vseq_info(2u8, 1u8, 0u8, VnLexiName::A, VnLexiName::U, VnLexiName::NonVnChar, VowelSeq::A, VowelSeq::Au, VowelSeq::Nil, -1i8, VowelSeq::Aru, -1i8, VowelSeq::Nil)
    } else if i == 15 {
        vseq_info(2u8, 1u8, 0u8, VnLexiName::A, VnLexiName::Y, VnLexiName::NonVnChar, VowelSeq::A, VowelSeq::Ay, VowelSeq::Nil, -1i8, VowelSeq::Ary, -1i8, VowelSeq::Nil)
    } else if i == 16 {
        vseq_info(2u8, 1u8, 0u8, VnLexiName::Ar, VnLexiName::U, VnLexiName::NonVnChar, VowelSeq::Ar, VowelSeq::Aru, VowelSeq::Nil, 0i8, VowelSeq::Nil, -1i8, VowelSeq::Nil)
    } else if i == 17 {
        vseq_info(2u8, 1u8, 0u8, VnLexiName::Ar, VnLexiName::Y, VnLexiName::NonVnChar, VowelSeq::Ar, VowelSeq::Ary, VowelSeq::Nil, 0i8, VowelSeq::Nil, -1i8, VowelSeq::Nil)
    } else if i == 18 {
        vseq_info(2u8, 1u8, 0u8, VnLexiName::E, VnLexiName::O, VnLexiName::NonVnChar, VowelSeq::E, VowelSeq::Eo, VowelSeq::Nil, -1i8, VowelSeq::Nil, -1i8, VowelSeq::Nil)
    } else if i == 19 {
        vseq_info(2u8, 0u8, 0u8, VnLexiName::E, VnLexiName::U, VnLexiName::NonVnChar, VowelSeq::E, VowelSeq::Eu, VowelSeq::Nil, -1i8, VowelSeq::Eru, -1i8, VowelSeq::Nil)
    } else if i == 20 {
        vseq_info(2u8, 1u8, 0u8, VnLexiName::Er, VnLexiName::U, VnLexiName::NonVnChar, VowelSeq::Er, VowelSeq::Eru, VowelSeq::Nil, 0i8, VowelSeq::Nil, -1i8, VowelSeq::Nil)
    } else if i == 21 {
        vseq_info(2u8, 1u8, 0u8, VnLexiName::I, VnLexiName::A, VnLexiName::NonVnChar, VowelSeq::I, VowelSeq::Ia, VowelSeq::Nil, -1i8, VowelSeq::Nil, -1i8, VowelSeq::Nil)
    } else if i == 22 {
        vseq_info(2u8, 0u8, 1u8, VnLexiName::I, VnLexiName::E, VnLexiName::NonVnChar, VowelSeq::I, VowelSeq::Ie, VowelSeq::Nil, -1i8, VowelSeq::Ier, -1i8, VowelSeq::Nil)
    } else if i == 23 {
        vseq_info(2u8, 1u8, 1u8, VnLexiName::I, VnLexiName::Er, VnLexiName::NonVnChar, VowelSeq::I, VowelSeq::Ier, VowelSeq::Nil, 1i8, VowelSeq::Nil, -1i8, VowelSeq::Nil)
    } else if i == 24 {
        vseq_info(2u8, 1u8, 0u8, VnLexiName::I, VnLexiName::U, VnLexiName::NonVnChar, VowelSeq::I, VowelSeq::Iu, VowelSeq::Nil, -1i8, VowelSeq::Nil, -1i8, VowelSeq::Nil)
    } else if i == 25 {
        vseq_info(2u8, 1u8, 1u8, VnLexiName::O, VnLexiName::A, VnLexiName::NonVnChar, VowelSeq::O, VowelSeq::Oa, VowelSeq::Nil, -1i8, VowelSeq::Nil, -1i8, VowelSeq::Oab)
    } else if i == 26 {
        vseq_info(2u8, 1u8, 1u8, VnLexiName::O, VnLexiName::Ab, VnLexiName::NonVnChar, VowelSeq::O, VowelSeq::Oab, VowelSeq::Nil, -1i8, VowelSeq::Nil, 1i8, VowelSeq::Nil)
    } else if i == 27 {
        vseq_info(2u8, 1u8, 1u8, VnLexiName::O, VnLexiName::E, VnLexiName::NonVnChar, VowelSeq::O, VowelSeq::Oe, VowelSeq::Nil, -1i8, VowelSeq::Nil, -1i8, VowelSeq::Nil)
    } else if i == 28 {
        vseq_info(2u8, 1u8, 0u8, VnLexiName::O, VnLexiName::I, VnLexiName::NonVnChar, VowelSeq::O, VowelSeq::Oi, VowelSeq::Nil, -1i8, VowelSeq::Ori, -1i8, VowelSeq::Ohi)
    } else if i == 29 {
        vseq_info(2u8, 1u8, 0u8, VnLexiName::Or, VnLexiName::I, VnLexiName::NonVnChar, VowelSeq::Or, VowelSeq::Ori, VowelSeq::Nil, 0i8, VowelSeq::Nil, -1i8, VowelSeq::Ohi)
    } else if i == 30 {
        vseq_info(2u8, 1u8, 0u8, VnLexiName::Oh, VnLexiName::I, VnLexiName::NonVnChar, VowelSeq::Oh, VowelSeq::Ohi, VowelSeq::Nil, -1i8, VowelSeq::Ori, 0i8, VowelSeq::Nil)
    } else if i == 31 {
        vseq_info(2u8, 1u8, 1u8, VnLexiName::U, VnLexiName::A, VnLexiName::NonVnChar, VowelSeq::U, VowelSeq::Ua, VowelSeq::Nil, -1i8, VowelSeq::Uar, -1i8, VowelSeq::Uha)
    } else if i == 32 {
        vseq_info(2u8, 1u8, 1u8, VnLexiName::U, VnLexiName::Ar, VnLexiName::NonVnChar, VowelSeq::U, VowelSeq::Uar, VowelSeq::Nil, 1i8, VowelSeq::Nil, -1i8, VowelSeq::Nil)
    } else if i == 33 {
        vseq_info(2u8, 0u8, 1u8, VnLexiName::U, VnLexiName::E, VnLexiName::NonVnChar, VowelSeq::U, VowelSeq::Ue, VowelSeq::Nil, -1i8, VowelSeq::Uer, -1i8, VowelSeq::Nil)
    } else if i == 34 {
        vseq_info(2u8, 1u8, 1u8, VnLexiName::U, VnLexiName::Er, VnLexiName::NonVnChar, VowelSeq::U, VowelSeq::Uer, VowelSeq::Nil, 1i8, VowelSeq::Nil, -1i8, VowelSeq::Nil)
    } else if i == 35 {
        vseq_info(2u8, 1u8, 0u8, VnLexiName::U, VnLexiName::I, VnLexiName::NonVnChar, VowelSeq::U, VowelSeq::Ui, VowelSeq::Nil, -1i8, VowelSeq::Nil, -1i8, VowelSeq::Uhi)
    } else if i == 36 {
        vseq_info(2u8, 0u8, 1u8, VnLexiName::U, VnLexiName::O, VnLexiName::NonVnChar, VowelSeq::U, VowelSeq::Uo, VowelSeq::Nil, -1i8, VowelSeq::Uor, -1i8, VowelSeq::Uho)
    } else if i == 37 {
        vseq_info(2u8, 1u8, 1u8, VnLexiName::U, VnLexiName::Or, VnLexiName::NonVnChar, VowelSeq::U, VowelSeq::Uor, VowelSeq::Nil, 1i8, VowelSeq::Nil, -1i8, VowelSeq::Uoh)
    } else if i == 38 {
        vseq_info(2u8, 1u8, 1u8, VnLexiName::U, VnLexiName::Oh, VnLexiName::NonVnChar, VowelSeq::U, VowelSeq::Uoh, VowelSeq::Nil, -1i8, VowelSeq::Uor, 1i8, VowelSeq::Uhoh)
    } else if i == 39 {
        vseq_info(2u8, 0u8, 0u8, VnLexiName::U, VnLexiName::U, VnLexiName::NonVnChar, VowelSeq::U, VowelSeq::Uu, VowelSeq::Nil, -1i8, VowelSeq::Nil, -1i8, VowelSeq::Uhu)
    } else if i == 40 {
        vseq_info(2u8, 1u8, 1u8, VnLexiName::U, VnLexiName::Y, VnLexiName::NonVnChar, VowelSeq::U, VowelSeq::Uy, VowelSeq::Nil, -1i8, VowelSeq::Nil, -1i8, VowelSeq::Nil)
    } else if i == 41 {
        vseq_info(2u8, 1u8, 0u8, VnLexiName::Uh, VnLexiName::A, VnLexiName::NonVnChar, VowelSeq::Uh, VowelSeq::Uha, VowelSeq::Nil, -1i8, VowelSeq::Nil, 0i8, VowelSeq::Nil)
    } else if i == 42 {
        vseq_info(2u8, 1u8, 0u8, VnLexiName::Uh, VnLexiName::I, VnLexiName::NonVnChar, VowelSeq::Uh, VowelSeq::Uhi, VowelSeq::Nil, -1i8, VowelSeq::Nil, 0i8, VowelSeq::Nil)
    } else if i == 43 {
        vseq_info(2u8, 0u8, 1u8, VnLexiName::Uh, VnLexiName::O, VnLexiName::NonVnChar, VowelSeq::Uh, VowelSeq::Uho, VowelSeq::Nil, -1i8, VowelSeq::Nil, 0i8, VowelSeq::Uhoh)
    } else if i == 44 {
        vseq_info(2u8, 1u8, 1u8, VnLexiName::Uh, VnLexiName::Oh, VnLexiName::NonVnChar, VowelSeq::Uh, VowelSeq::Uhoh, VowelSeq::Nil, -1i8, VowelSeq::Nil, 0i8, VowelSeq::Nil)
    } else if i == 45 {
        vseq_info(2u8, 1u8, 0u8, VnLexiName::Uh, VnLexiName::U, VnLexiName::NonVnChar, VowelSeq::Uh, VowelSeq::Uhu, VowelSeq::Nil, -1i8, VowelSeq::Nil, 0i8, VowelSeq::Nil)
    } else if i == 46 {
        vseq_info(2u8, 0u8, 1u8, VnLexiName::Y, VnLexiName::E, VnLexiName::NonVnChar, VowelSeq::Y, VowelSeq::Ye, VowelSeq::Nil, -1i8, VowelSeq::Yer, -1i8, VowelSeq::Nil)
    } else if i == 47 {
        vseq_info(2u8, 1u8, 1u8, VnLexiName::Y, VnLexiName::Er, VnLexiName::NonVnChar, VowelSeq::Y, VowelSeq::Yer, VowelSeq::Nil, 1i8, VowelSeq::Nil, -1i8, VowelSeq::Nil)
    } else if i == 48 {
        vseq_info(3u8, 0u8, 0u8, VnLexiName::I, VnLexiName::E, VnLexiName::U, VowelSeq::I, VowelSeq::Ie, VowelSeq::Ieu, -1i8, VowelSeq::Ieu, -1i8, VowelSeq::Nil)
    } else if i == 49 {
        vseq_info(3u8, 1u8, 0u8, VnLexiName::I, VnLexiName::Er, VnLexiName::U, VowelSeq::I, VowelSeq::Ier, VowelSeq::Ieu, 1i8, VowelSeq::Nil, -1i8, VowelSeq::Nil)
    } else if i == 50 {
        vseq_info(3u8, 1u8, 0u8, VnLexiName::O, VnLexiName::A, VnLexiName::I, VowelSeq::O, VowelSeq::Oa, VowelSeq::Oai, -1i8, VowelSeq::Nil, -1i8, VowelSeq::Nil)
    } else if i == 51 {
        vseq_info(3u8, 1u8, 0u8, VnLexiName::O, VnLexiName::A, VnLexiName::Y, VowelSeq::O, VowelSeq::Oa, VowelSeq::Oay, -1i8, VowelSeq::Nil, -1i8, VowelSeq::Nil)
    } else if i == 52 {
        vseq_info(3u8, 1u8, 0u8, VnLexiName::O, VnLexiName::E, VnLexiName::O, VowelSeq::O, VowelSeq::Oe, VowelSeq::Oeo, -1i8, VowelSeq::Nil, -1i8, VowelSeq::Nil)
    } else if i == 53 {
        vseq_info(3u8, 0u8, 0u8, VnLexiName::U, VnLexiName::A, VnLexiName::Y, VowelSeq::U, VowelSeq::Ua, VowelSeq::Ay, -1i8, VowelSeq::Uary, -1i8, VowelSeq::Nil)
    } else if i == 54 {
        vseq_info(3u8, 1u8, 0u8, VnLexiName::U, VnLexiName::Ar, VnLexiName::Y, VowelSeq::U, VowelSeq::Uar, VowelSeq::Uary, 1i8, VowelSeq::Nil, -1i8, VowelSeq::Nil)
    } else if i == 55 {
        vseq_info(3u8, 0u8, 0u8, VnLexiName::U, VnLexiName::O, VnLexiName::I, VowelSeq::U, VowelSeq::Uo, VowelSeq::Uoi, -1i8, VowelSeq::Uori, -1i8, VowelSeq::Uhoi)
    } else if i == 56 {
        vseq_info(3u8, 0u8, 0u8, VnLexiName::U, VnLexiName::O, VnLexiName::U, VowelSeq::U, VowelSeq::Uo, VowelSeq::Uou, -1i8, VowelSeq::Nil, -1i8, VowelSeq::Uhou)
    } else if i == 57 {
        vseq_info(3u8, 1u8, 0u8, VnLexiName::U, VnLexiName::Or, VnLexiName::I, VowelSeq::U, VowelSeq::Uor, VowelSeq::Uori, 1i8, VowelSeq::Nil, -1i8, VowelSeq::Uohi)
    } else if i == 58 {
        vseq_info(3u8, 0u8, 0u8, VnLexiName::U, VnLexiName::Oh, VnLexiName::I, VowelSeq::U, VowelSeq::Uoh, VowelSeq::Uohi, -1i8, VowelSeq::Uori, 1i8, VowelSeq::Uhohi)
    } else if i == 59 {
        vseq_info(3u8, 0u8, 0u8, VnLexiName::U, VnLexiName::Oh, VnLexiName::U, VowelSeq::U, VowelSeq::Uoh, VowelSeq::Uohu, -1i8, VowelSeq::Nil, 1i8, VowelSeq::Uhohu)
    } else if i == 60 {
        vseq_info(3u8, 1u8, 0u8, VnLexiName::U, VnLexiName::Y, VnLexiName::A, VowelSeq::U, VowelSeq::Uy, VowelSeq::Uya, -1i8, VowelSeq::Nil, -1i8, VowelSeq::Nil)
    } else if i == 61 {
        vseq_info(3u8, 0u8, 1u8, VnLexiName::U, VnLexiName::Y, VnLexiName::E, VowelSeq::U, VowelSeq::Uy, VowelSeq::Uye, -1i8, VowelSeq::Uyer, -1i8, VowelSeq::Nil)
    } else if i == 62 {
        vseq_info(3u8, 1u8, 1u8, VnLexiName::U, VnLexiName::Y, VnLexiName::Er, VowelSeq::U, VowelSeq::Uy, VowelSeq::Uyer, 2i8, VowelSeq::Nil, -1i8, VowelSeq::Nil)
    } else if i == 63 {
        vseq_info(3u8, 1u8, 0u8, VnLexiName::U, VnLexiName::Y, VnLexiName::U, VowelSeq::U, VowelSeq::Uy, VowelSeq::Uyu, -1i8, VowelSeq::Nil, -1i8, VowelSeq::Nil)
    } else if i == 64 {
        vseq_info(3u8, 0u8, 0u8, VnLexiName::Uh, VnLexiName::O, VnLexiName::I, VowelSeq::Uh, VowelSeq::Uho, VowelSeq::Uhoi, -1i8, VowelSeq::Nil, 0i8, VowelSeq::Uhohi)
    } else if i == 65 {
        vseq_info(3u8, 0u8, 0u8, VnLexiName::Uh, VnLexiName::O, VnLexiName::U, VowelSeq::Uh, VowelSeq::Uho, VowelSeq::Uhou, -1i8, VowelSeq::Nil, 0i8, VowelSeq::Uhohu)
    } else if i == 66 {
        vseq_info(3u8, 1u8, 0u8, VnLexiName::Uh, VnLexiName::Oh, VnLexiName::I, VowelSeq::Uh, VowelSeq::Uhoh, VowelSeq::Uhohi, -1i8, VowelSeq::Nil, 0i8, VowelSeq::Nil)
    } else if i == 67 {
        vseq_info(3u8, 1u8, 0u8, VnLexiName::Uh, VnLexiName::Oh, VnLexiName::U, VowelSeq::Uh, VowelSeq::Uhoh, VowelSeq::Uhohu, -1i8, VowelSeq::Nil, 0i8, VowelSeq::Nil)
    } else if i == 68 {
        vseq_info(3u8, 0u8, 0u8, VnLexiName::Y, VnLexiName::E, VnLexiName::U, VowelSeq::Y, VowelSeq::Ye, VowelSeq::Yeu, -1i8, VowelSeq::Yeru, -1i8, VowelSeq::Nil)
    } else {
        vseq_info(3u8, 1u8, 0u8, VnLexiName::Y, VnLexiName::Er, VnLexiName::U, VowelSeq::Y, VowelSeq::Yer, VowelSeq::Yeru, 1i8, VowelSeq::Nil, -1i8, VowelSeq::Nil)
    }
}

/// The whole table.
pub open spec fn vseq_table() -> Seq<VowelSeqInfo> {
    Seq::new(70, |i: int| vseq_entry(i))
}

/// Entry `i` of the table.
pub fn vseq_at(i: usize) -> (r: VowelSeqInfo)
    requires
        i < VSEQ_COUNT,
    ensures
        r == vseq_entry(i as int),
{
    match i {
        0 => mk(1u8, 1u8, 1u8, VnLexiName::A, VnLexiName::NonVnChar, VnLexiName::NonVnChar, VowelSeq::A, VowelSeq::Nil, VowelSeq::Nil, -1i8, VowelSeq::Ar, -1i8, VowelSeq::Ab),
        1 => mk(1u8, 1u8, 1u8, VnLexiName::Ar, VnLexiName::NonVnChar, VnLexiName::NonVnChar, VowelSeq::Ar, VowelSeq::Nil, VowelSeq::Nil, 0i8, VowelSeq::Nil, -1i8, VowelSeq::Ab),
        2 => mk(1u8, 1u8, 1u8, VnLexiName::Ab, VnLexiName::NonVnChar, VnLexiName::NonVnChar, VowelSeq::Ab, VowelSeq::Nil, VowelSeq::Nil, -1i8, VowelSeq::Ar, 0i8, VowelSeq::Nil),
        3 => mk(1u8, 1u8, 1u8, VnLexiName::E, VnLexiName::NonVnChar, VnLexiName::NonVnChar, VowelSeq::E, VowelSeq::Nil, VowelSeq::Nil, -1i8, VowelSeq::Er, -1i8, VowelSeq::Nil),
        4 => mk(1u8, 1u8, 1u8, VnLexiName::Er, VnLexiName::NonVnChar, VnLexiName::NonVnChar, VowelSeq::Er, VowelSeq::Nil, VowelSeq::Nil, 0i8, VowelSeq::Nil, -1i8, VowelSeq::Nil),
        5 => mk(1u8, 1u8, 1u8, VnLexiName::I, VnLexiName::NonVnChar, VnLexiName::NonVnChar, VowelSeq::I, VowelSeq::Nil, VowelSeq::Nil, -1i8, VowelSeq::Nil, -1i8, VowelSeq::Nil),
        6 => mk(1u8, 1u8, 1u8, VnLexiName::O, VnLexiName::NonVnChar, VnLexiName::NonVnChar, VowelSeq::O, VowelSeq::Nil, VowelSeq::Nil, -1i8, VowelSeq::Or, -1i8, VowelSeq::Oh),
        7 => mk(1u8, 1u8, 1u8, VnLexiName::Or, VnLexiName::NonVnChar, VnLexiName::NonVnChar, VowelSeq::Or, VowelSeq::Nil, VowelSeq::Nil, 0i8, VowelSeq::Nil, -1i8, VowelSeq::Oh),
        8 => mk(1u8, 1u8, 1u8, VnLexiName::Oh, VnLexiName::NonVnChar, VnLexiName::NonVnChar, VowelSeq::Oh, VowelSeq::Nil, VowelSeq::Nil, -1i8, VowelSeq::Or, 0i8, VowelSeq::Nil),
        9 => mk(1u8, 1u8, 1u8, VnLexiName::U, VnLexiName::NonVnChar, VnLexiName::NonVnChar, VowelSeq::U, VowelSeq::Nil, VowelSeq::Nil, -1i8, VowelSeq::Nil, -1i8, VowelSeq::Uh),
        10 => mk(1u8, 1u8, 1u8, VnLexiName::Uh, VnLexiName::NonVnChar, VnLexiName::NonVnChar, VowelSeq::Uh, VowelSeq::Nil, VowelSeq::Nil, -1i8, VowelSeq::Nil, 0i8, VowelSeq::Nil),
        11 => mk(1u8, 1u8, 1u8, VnLexiName::Y, VnLexiName::NonVnChar, VnLexiName::NonVnChar, VowelSeq::Y, VowelSeq::Nil, VowelSeq::Nil, -1i8, VowelSeq::Nil, -1i8, VowelSeq::Nil),
        12 => mk(2u8, 1u8, 0u8, VnLexiName::A, VnLexiName::I, VnLexiName::NonVnChar, VowelSeq::A, VowelSeq::Ai, VowelSeq::Nil, -1i8, VowelSeq::Nil, -1i8, VowelSeq::Nil),
        13 => mk(2u8, 1u8, 0u8, VnLexiName::A, VnLexiName::O, VnLexiName::NonVnChar, VowelSeq::A, VowelSeq::Ao, VowelSeq::Nil, -1i8, VowelSeq::Nil, -1i8, VowelSeq::Nil),
        14 => mk(2u8, 1u8, 0u8, VnLexiName::A, VnLexiName::U, VnLexiName::NonVnChar, VowelSeq::A, VowelSeq::Au, VowelSeq::Nil, -1i8, VowelSeq::Aru, -1i8, VowelSeq::Nil),
        15 => mk(2u8, 1u8, 0u8, VnLexiName::A, VnLexiName::Y, VnLexiName::NonVnChar, VowelSeq::A, VowelSeq::Ay, VowelSeq::Nil, -1i8, VowelSeq::Ary, -1i8, VowelSeq::Nil),
        16 => mk(2u8, 1u8, 0u8, VnLexiName::Ar, VnLexiName::U, VnLexiName::NonVnChar, VowelSeq::Ar, VowelSeq::Aru, VowelSeq::Nil, 0i8, VowelSeq::Nil, -1i8, VowelSeq::Nil),
        17 => mk(2u8, 1u8, 0u8, VnLexiName::Ar, VnLexiName::Y, VnLexiName::NonVnChar, VowelSeq::Ar, VowelSeq::Ary, VowelSeq::Nil, 0i8, VowelSeq::Nil, -1i8, VowelSeq::Nil),
        18 => mk(2u8, 1u8, 0u8, VnLexiName::E, VnLexiName::O, VnLexiName::NonVnChar, VowelSeq::E, VowelSeq::Eo, VowelSeq::Nil, -1i8, VowelSeq::Nil, -1i8, VowelSeq::Nil),
        19 => mk(2u8, 0u8, 0u8, VnLexiName::E, VnLexiName::U, VnLexiName::NonVnChar, VowelSeq::E, VowelSeq::Eu, VowelSeq::Nil, -1i8, VowelSeq::Eru, -1i8, VowelSeq::Nil),
        20 => mk(2u8, 1u8, 0u8, VnLexiName::Er, VnLexiName::U, VnLexiName::NonVnChar, VowelSeq::Er, VowelSeq::Eru, VowelSeq::Nil, 0i8, VowelSeq::Nil, -1i8, VowelSeq::Nil),
        21 => mk(2u8, 1u8, 0u8, VnLexiName::I, VnLexiName::A, VnLexiName::NonVnChar, VowelSeq::I, VowelSeq::Ia, VowelSeq::Nil, -1i8, VowelSeq::Nil, -1i8, VowelSeq::Nil),
        22 => mk(2u8, 0u8, 1u8, VnLexiName::I, VnLexiName::E, VnLexiName::NonVnChar, VowelSeq::I, VowelSeq::Ie, VowelSeq::Nil, -1i8, VowelSeq::Ier, -1i8, VowelSeq::Nil),
        23 => mk(2u8, 1u8, 1u8, VnLexiName::I, VnLexiName::Er, VnLexiName::NonVnChar, VowelSeq::I, VowelSeq::Ier, VowelSeq::Nil, 1i8, VowelSeq::Nil, -1i8, VowelSeq::Nil),
        24 => mk(2u8, 1u8, 0u8, VnLexiName::I, VnLexiName::U, VnLexiName::NonVnChar, VowelSeq::I, VowelSeq::Iu, VowelSeq::Nil, -1i8, VowelSeq::Nil, -1i8, VowelSeq::Nil),
        25 => mk(2u8, 1u8, 1u8, VnLexiName::O, VnLexiName::A, VnLexiName::NonVnChar, VowelSeq::O, VowelSeq::Oa, VowelSeq::Nil, -1i8, VowelSeq::Nil, -1i8, VowelSeq::Oab),
        26 => mk(2u8, 1u8, 1u8, VnLexiName::O, VnLexiName::Ab, VnLexiName::NonVnChar, VowelSeq::O, VowelSeq::Oab, VowelSeq::Nil, -1i8, VowelSeq::Nil, 1i8, VowelSeq::Nil),
        27 => mk(2u8, 1u8, 1u8, VnLexiName::O, VnLexiName::E, VnLexiName::NonVnChar, VowelSeq::O, VowelSeq::Oe, VowelSeq::Nil, -1i8, VowelSeq::Nil, -1i8, VowelSeq::Nil),
        28 => mk(2u8, 1u8, 0u8, VnLexiName::O, VnLexiName::I, VnLexiName::NonVnChar, VowelSeq::O, VowelSeq::Oi, VowelSeq::Nil, -1i8, VowelSeq::Ori, -1i8, VowelSeq::Ohi),
        29 => mk(2u8, 1u8, 0u8, VnLexiName::Or, VnLexiName::I, VnLexiName::NonVnChar, VowelSeq::Or, VowelSeq::Ori, VowelSeq::Nil, 0i8, VowelSeq::Nil, -1i8, VowelSeq::Ohi),
        30 => mk(2u8, 1u8, 0u8, VnLexiName::Oh, VnLexiName::I, VnLexiName::NonVnChar, VowelSeq::Oh, VowelSeq::Ohi, VowelSeq::Nil, -1i8, VowelSeq::Ori, 0i8, VowelSeq::Nil),
        31 => mk(2u8, 1u8, 1u8, VnLexiName::U, VnLexiName::A, VnLexiName::NonVnChar, VowelSeq::U, VowelSeq::Ua, VowelSeq::Nil, -1i8, VowelSeq::Uar, -1i8, VowelSeq::Uha),
        32 => mk(2u8, 1u8, 1u8, VnLexiName::U, VnLexiName::Ar, VnLexiName::NonVnChar, VowelSeq::U, VowelSeq::Uar, VowelSeq::Nil, 1i8, VowelSeq::Nil, -1i8, VowelSeq::Nil),
        33 => mk(2u8, 0u8, 1u8, VnLexiName::U, VnLexiName::E, VnLexiName::NonVnChar, VowelSeq::U, VowelSeq::Ue, VowelSeq::Nil, -1i8, VowelSeq::Uer, -1i8, VowelSeq::Nil),
        34 => mk(2u8, 1u8, 1u8, VnLexiName::U, VnLexiName::Er, VnLexiName::NonVnChar, VowelSeq::U, VowelSeq::Uer, VowelSeq::Nil, 1i8, VowelSeq::Nil, -1i8, VowelSeq::Nil),
        35 => mk(2u8, 1u8, 0u8, VnLexiName::U, VnLexiName::I, VnLexiName::NonVnChar, VowelSeq::U, VowelSeq::Ui, VowelSeq::Nil, -1i8, VowelSeq::Nil, -1i8, VowelSeq::Uhi),
        36 => mk(2u8, 0u8, 1u8, VnLexiName::U, VnLexiName::O, VnLexiName::NonVnChar, VowelSeq::U, VowelSeq::Uo, VowelSeq::Nil, -1i8, VowelSeq::Uor, -1i8, VowelSeq::Uho),
        37 => mk(2u8, 1u8, 1u8, VnLexiName::U, VnLexiName::Or, VnLexiName::NonVnChar, VowelSeq::U, VowelSeq::Uor, VowelSeq::Nil, 1i8, VowelSeq::Nil, -1i8, VowelSeq::Uoh),
        38 => mk(2u8, 1u8, 1u8, VnLexiName::U, VnLexiName::Oh, VnLexiName::NonVnChar, VowelSeq::U, VowelSeq::Uoh, VowelSeq::Nil, -1i8, VowelSeq::Uor, 1i8, VowelSeq::Uhoh),
        39 => mk(2u8, 0u8, 0u8, VnLexiName::U, VnLexiName::U, VnLexiName::NonVnChar, VowelSeq::U, VowelSeq::Uu, VowelSeq::Nil, -1i8, VowelSeq::Nil, -1i8, VowelSeq::Uhu),
        40 => mk(2u8, 1u8, 1u8, VnLexiName::U, VnLexiName::Y, VnLexiName::NonVnChar, VowelSeq::U, VowelSeq::Uy, VowelSeq::Nil, -1i8, VowelSeq::Nil, -1i8, VowelSeq::Nil),
        41 => mk(2u8, 1u8, 0u8, VnLexiName::Uh, VnLexiName::A, VnLexiName::NonVnChar, VowelSeq::Uh, VowelSeq::Uha, VowelSeq::Nil, -1i8, VowelSeq::Nil, 0i8, VowelSeq::Nil),
        42 => mk(2u8, 1u8, 0u8, VnLexiName::Uh, VnLexiName::I, VnLexiName::NonVnChar, VowelSeq::Uh, VowelSeq::Uhi, VowelSeq::Nil, -1i8, VowelSeq::Nil, 0i8, VowelSeq::Nil),
        43 => mk(2u8, 0u8, 1u8, VnLexiName::Uh, VnLexiName::O, VnLexiName::NonVnChar, VowelSeq::Uh, VowelSeq::Uho, VowelSeq::Nil, -1i8, VowelSeq::Nil, 0i8, VowelSeq::Uhoh),
        44 => mk(2u8, 1u8, 1u8, VnLexiName::Uh, VnLexiName::Oh, VnLexiName::NonVnChar, VowelSeq::Uh, VowelSeq::Uhoh, VowelSeq::Nil, -1i8, VowelSeq::Nil, 0i8, VowelSeq::Nil),
        45 => mk(2u8, 1u8, 0u8, VnLexiName::Uh, VnLexiName::U, VnLexiName::NonVnChar, VowelSeq::Uh, VowelSeq::Uhu, VowelSeq::Nil, -1i8, VowelSeq::Nil, 0i8, VowelSeq::Nil),
        46 => mk(2u8, 0u8, 1u8, VnLexiName::Y, VnLexiName::E, VnLexiName::NonVnChar, VowelSeq::Y, VowelSeq::Ye, VowelSeq::Nil, -1i8, VowelSeq::Yer, -1i8, VowelSeq::Nil),
        47 => mk(2u8, 1u8, 1u8, VnLexiName::Y, VnLexiName::Er, VnLexiName::NonVnChar, VowelSeq::Y, VowelSeq::Yer, VowelSeq::Nil, 1i8, VowelSeq::Nil, -1i8, VowelSeq::Nil),
        48 => mk(3u8, 0u8, 0u8, VnLexiName::I, VnLexiName::E, VnLexiName::U, VowelSeq::I, VowelSeq::Ie, VowelSeq::Ieu, -1i8, VowelSeq::Ieu, -1i8, VowelSeq::Nil),
        49 => mk(3u8, 1u8, 0u8, VnLexiName::I, VnLexiName::Er, VnLexiName::U, VowelSeq::I, VowelSeq::Ier, VowelSeq::Ieu, 1i8, VowelSeq::Nil, -1i8, VowelSeq::Nil),
        50 => mk(3u8, 1u8, 0u8, VnLexiName::O, VnLexiName::A, VnLexiName::I, VowelSeq::O, VowelSeq::Oa, VowelSeq::Oai, -1i8, VowelSeq::Nil, -1i8, VowelSeq::Nil),
        51 => mk(3u8, 1u8, 0u8, VnLexiName::O, VnLexiName::A, VnLexiName::Y, VowelSeq::O, VowelSeq::Oa, VowelSeq::Oay, -1i8, VowelSeq::Nil, -1i8, VowelSeq::Nil),
        52 => mk(3u8, 1u8, 0u8, VnLexiName::O, VnLexiName::E, VnLexiName::O, VowelSeq::O, VowelSeq::Oe, VowelSeq::Oeo, -1i8, VowelSeq::Nil, -1i8, VowelSeq::Nil),
        53 => mk(3u8, 0u8, 0u8, VnLexiName::U, VnLexiName::A, VnLexiName::Y, VowelSeq::U, VowelSeq::Ua, VowelSeq::Ay, -1i8, VowelSeq::Uary, -1i8, VowelSeq::Nil),
        54 => mk(3u8, 1u8, 0u8, VnLexiName::U, VnLexiName::Ar, VnLexiName::Y, VowelSeq::U, VowelSeq::Uar, VowelSeq::Uary, 1i8, VowelSeq::Nil, -1i8, VowelSeq::Nil),
        55 => mk(3u8, 0u8, 0u8, VnLexiName::U, VnLexiName::O, VnLexiName::I, VowelSeq::U, VowelSeq::Uo, VowelSeq::Uoi, -1i8, VowelSeq::Uori, -1i8, VowelSeq::Uhoi),
        56 => mk(3u8, 0u8, 0u8, VnLexiName::U, VnLexiName::O, VnLexiName::U, VowelSeq::U, VowelSeq::Uo, VowelSeq::Uou, -1i8, VowelSeq::Nil, -1i8, VowelSeq::Uhou),
        57 => mk(3u8, 1u8, 0u8, VnLexiName::U, VnLexiName::Or, VnLexiName::I, VowelSeq::U, VowelSeq::Uor, VowelSeq::Uori, 1i8, VowelSeq::Nil, -1i8, VowelSeq::Uohi),
        58 => mk(3u8, 0u8, 0u8, VnLexiName::U, VnLexiName::Oh, VnLexiName::I, VowelSeq::U, VowelSeq::Uoh, VowelSeq::Uohi, -1i8, VowelSeq::Uori, 1i8, VowelSeq::Uhohi),
        59 => mk(3u8, 0u8, 0u8, VnLexiName::U, VnLexiName::Oh, VnLexiName::U, VowelSeq::U, VowelSeq::Uoh, VowelSeq::Uohu, -1i8, VowelSeq::Nil, 1i8, VowelSeq::Uhohu),
        60 => mk(3u8, 1u8, 0u8, VnLexiName::U, VnLexiName::Y, VnLexiName::A, VowelSeq::U, VowelSeq::Uy, VowelSeq::Uya, -1i8, VowelSeq::Nil, -1i8, VowelSeq::Nil),
        61 => mk(3u8, 0u8, 1u8, VnLexiName::U, VnLexiName::Y, VnLexiName::E, VowelSeq::U, VowelSeq::Uy, VowelSeq::Uye, -1i8, VowelSeq::Uyer, -1i8, VowelSeq::Nil),
        62 => mk(3u8, 1u8, 1u8, VnLexiName::U, VnLexiName::Y, VnLexiName::Er, VowelSeq::U, VowelSeq::Uy, VowelSeq::Uyer, 2i8, VowelSeq::Nil, -1i8, VowelSeq::Nil),
        63 => mk(3u8, 1u8, 0u8, VnLexiName::U, VnLexiName::Y, VnLexiName::U, VowelSeq::U, VowelSeq::Uy, VowelSeq::Uyu, -1i8, VowelSeq::Nil, -1i8, VowelSeq::Nil),
        64 => mk(3u8, 0u8, 0u8, VnLexiName::Uh, VnLexiName::O, VnLexiName::I, VowelSeq::Uh, VowelSeq::Uho, VowelSeq::Uhoi, -1i8, VowelSeq::Nil, 0i8, VowelSeq::Uhohi),
        65 => mk(3u8, 0u8, 0u8, VnLexiName::Uh, VnLexiName::O, VnLexiName::U, VowelSeq::Uh, VowelSeq::Uho, VowelSeq::Uhou, -1i8, VowelSeq::Nil, 0i8, VowelSeq::Uhohu),
        66 => mk(3u8, 1u8, 0u8, VnLexiName::Uh, VnLexiName::Oh, VnLexiName::I, VowelSeq::Uh, VowelSeq::Uhoh, VowelSeq::Uhohi, -1i8, VowelSeq::Nil, 0i8, VowelSeq::Nil),
        67 => mk(3u8, 1u8, 0u8, VnLexiName::Uh, VnLexiName::Oh, VnLexiName::U, VowelSeq::Uh, VowelSeq::Uhoh, VowelSeq::Uhohu, -1i8, VowelSeq::Nil, 0i8, VowelSeq::Nil),
        68 => mk(3u8, 0u8, 0u8, VnLexiName::Y, VnLexiName::E, VnLexiName::U, VowelSeq::Y, VowelSeq::Ye, VowelSeq::Yeu, -1i8, VowelSeq::Yeru, -1i8, VowelSeq::Nil),
        _ => mk(3u8, 1u8, 0u8, VnLexiName::Y, VnLexiName::Er, VnLexiName::U, VowelSeq::Y, VowelSeq::Yer, VowelSeq::Yeru, 1i8, VowelSeq::Nil, -1i8, VowelSeq::Nil),
    }
}

/// The table as a vector, in table order.
pub fn vseq_list() -> (r: Vec<VowelSeqInfo>)
    ensures
        r@ == vseq_table(),
{
    let mut v: Vec<VowelSeqInfo> = Vec::new();
    let mut i: usize = 0;
    while i < VSEQ_COUNT
        invariant
            i <= VSEQ_COUNT,
            v@.len() == i,
            forall|j: int| 0 <= j < i ==> v@[j] == vseq_entry(j),
        decreases VSEQ_COUNT - i,
    {
        v.push(vseq_at(i));
        i = i + 1;
    }
    assert(v@ =~= vseq_table());
    v
}

/// The lexical unit of a character: its lowercase form looked up among the
/// vowels and single-letter consonants.
pub open spec fn vnlexi_of(c: char) -> VnLexiName {
    match lower_of(c) {
        'a' => VnLexiName::A,
        'ă' => VnLexiName::Ar,
        'â' => VnLexiName::Ab,
        'e' => VnLexiName::E,
        'ê' => VnLexiName::Er,
        'i' => VnLexiName::I,
        'o' => VnLexiName::O,
        'ô' => VnLexiName::Or,
        'ơ' => VnLexiName::Oh,
        'u' => VnLexiName::U,
        'ư' => VnLexiName::Uh,
        'y' => VnLexiName::Y,
        'b' => VnLexiName::B,
        'c' => VnLexiName::C,
        'd' => VnLexiName::D,
        'đ' => VnLexiName::Dd,
        'g' => VnLexiName::G,
        'k' => VnLexiName::K,
        'l' => VnLexiName::L,
        'm' => VnLexiName::M,
        'n' => VnLexiName::N,
        'p' => VnLexiName::P,
        'q' => VnLexiName::Q,
        'r' => VnLexiName::R,
        's' => VnLexiName::S,
        't' => VnLexiName::T,
        'v' => VnLexiName::V,
        'x' => VnLexiName::X,
        _ => VnLexiName::NonVnChar,
    }
}

/// Converts a character to its lexical unit (`NonVnChar` when it is none).
pub fn char_to_vnlexi(c: char) -> (r: VnLexiName)
    ensures
        r == vnlexi_of(c),
{
    let lower = char_lower(c);
    match lower {
        'a' => VnLexiName::A,
        'ă' => VnLexiName::Ar,
        'â' => VnLexiName::Ab,
        'e' => VnLexiName::E,
        'ê' => VnLexiName::Er,
        'i' => VnLexiName::I,
        'o' => VnLexiName::O,
        'ô' => VnLexiName::Or,
        'ơ' => VnLexiName::Oh,
        'u' => VnLexiName::U,
        'ư' => VnLexiName::Uh,
        'y' => VnLexiName::Y,
        'b' => VnLexiName::B,
        'c' => VnLexiName::C,
        'd' => VnLexiName::D,
        'đ' => VnLexiName::Dd,
        'g' => VnLexiName::G,
        'k' => VnLexiName::K,
        'l' => VnLexiName::L,
        'm' => VnLexiName::M,
        'n' => VnLexiName::N,
        'p' => VnLexiName::P,
        'q' => VnLexiName::Q,
        'r' => VnLexiName::R,
        's' => VnLexiName::S,
        't' => VnLexiName::T,
        'v' => VnLexiName::V,
        'x' => VnLexiName::X,
        _ => VnLexiName::NonVnChar,
    }
}

/// Entry `e` has length `len` and the vowels `vowels`.
pub open spec fn entry_matches(e: VowelSeqInfo, vowels: Seq<VnLexiName>, len: int) -> bool {
    &&& e.len == len
    &&& e.vowels@[0] == vowels[0]
    &&& e.vowels@[1] == vowels[1]
    &&& e.vowels@[2] == vowels[2]
}

/// The first entry at index `i` or later that matches.
pub open spec fn vseq_find_from(vowels: Seq<VnLexiName>, len: int, i: int) -> Option<VowelSeqInfo>
    decreases 70 - i,
{
    if i < 0 || i >= 70 {
        None
    } else if entry_matches(vseq_entry(i), vowels, len) {
        Some(vseq_entry(i))
    } else {
        vseq_find_from(vowels, len, i + 1)
    }
}

/// The table entry for a vowel pattern of length 1 to 3: the first that matches.
pub open spec fn vseq_lookup(vowels: Seq<VnLexiName>, len: int) -> Option<VowelSeqInfo> {
    if 1 <= len <= 3 {
        vseq_find_from(vowels, len, 0)
    } else {
        None
    }
}

/// Looks up the sequence whose first `len` vowels are `vowels` (padded with
/// `NonVnChar`); `None` for a length outside 1..=3 or an unknown pattern.
pub fn lookup_vowel_seq(vowels: &[VnLexiName; 3], len: usize) -> (r: Option<VowelSeqInfo>)
    ensures
        r == vseq_lookup(vowels@, len as int),
{
    if len < 1 || len > 3 {
        return None;
    }
    let mut i: usize = 0;
    while i < VSEQ_COUNT
        invariant
            1 <= len <= 3,
            i <= VSEQ_COUNT,
            vseq_lookup(vowels@, len as int) == vseq_find_from(vowels@, len as int, i as int),
        decreases VSEQ_COUNT - i,
    {
        let e = vseq_at(i);
        if e.len as usize == len && e.vowels[0] == vowels[0] && e.vowels[1] == vowels[1]
            && e.vowels[2] == vowels[2]
        {
            return Some(e);
        }
        i = i + 1;
    }
    None
}

/// The padded vowel pattern of a string of up to three characters.
pub open spec fn pattern_vowels(s: Seq<char>) -> Seq<VnLexiName> {
    Seq::new(3, |i: int| if i < s.len() { vnlexi_of(s[i]) } else { VnLexiName::NonVnChar })
}

/// Looks up the sequence spelled by `pattern` (one to three characters).
pub fn lookup_vowel_seq_str(pattern: &str) -> (r: Option<VowelSeqInfo>)
    ensures
        r == (if 1 <= pattern@.len() <= 3 {
            vseq_lookup(pattern_vowels(pattern@), pattern@.len() as int)
        } else {
            None
        }),
{
    let chars = str_chars(pattern);
    let n = chars.len();
    if n == 0 || n > 3 {
        return None;
    }
    let v0 = char_to_vnlexi(chars[0]);
    let v1 = if n > 1 { char_to_vnlexi(chars[1]) } else { VnLexiName::NonVnChar };
    let v2 = if n > 2 { char_to_vnlexi(chars[2]) } else { VnLexiName::NonVnChar };
    let vowels = [v0, v1, v2];
    assert(vowels@ =~= pattern_vowels(pattern@));
    lookup_vowel_seq(&vowels, n)
}

/// Where the tone goes in a vowel sequence: the only vowel of a single;
/// the roofed vowel; for a hooked sequence the hooked vowel, except in
/// ươ, ươi, ươu where it is the ơ; the middle of a triple; the second vowel
/// of oa, oe, uy; otherwise the second vowel when a final consonant follows
/// and the first when none does.
pub open spec fn tone_position(e: VowelSeqInfo, has_final_consonant: bool) -> i8 {
    if e.len == 1 {
        0
    } else if e.roof_pos != -1 {
        e.roof_pos
    } else if e.hook_pos != -1 {
        if e.len >= 2 && e.vowels@[0] == VnLexiName::Uh && e.vowels@[1] == VnLexiName::Oh {
            1
        } else {
            e.hook_pos
        }
    } else if e.len == 3 {
        1
    } else if (e.vowels@[0] == VnLexiName::O && e.vowels@[1] == VnLexiName::A)
        || (e.vowels@[0] == VnLexiName::O && e.vowels@[1] == VnLexiName::E)
        || (e.vowels@[0] == VnLexiName::U && e.vowels@[1] == VnLexiName::Y) {
        1
    } else if has_final_consonant {
        1
    } else {
        0
    }
}

/// Index of the vowel that takes the tone (see `tone_position`).
pub fn get_tone_position(seq_info: &VowelSeqInfo, has_final_consonant: bool) -> (r: i8)
    ensures
        r == tone_position(*seq_info, has_final_consonant),
{
    if seq_info.len == 1 {
        return 0;
    }
    if seq_info.roof_pos != -1 {
        return seq_info.roof_pos;
    }
    if seq_info.hook_pos != -1 {
        let is_uhoh_family = seq_info.len >= 2 && seq_info.vowels[0] == VnLexiName::Uh
            && seq_info.vowels[1] == VnLexiName::Oh;
        if is_uhoh_family {
            return 1;
        }
        return seq_info.hook_pos;
    }
    if seq_info.len == 3 {
        return 1;
    }
    let is_oa = seq_info.vowels[0] == VnLexiName::O && seq_info.vowels[1] == VnLexiName::A;
    let is_oe = seq_info.vowels[0] == VnLexiName::O && seq_info.vowels[1] == VnLexiName::E;
    let is_uy = seq_info.vowels[0] == VnLexiName::U && seq_info.vowels[1] == VnLexiName::Y;
    if is_oa || is_oe || is_uy {
        return 1;
    }
    if has_final_consonant {
        1
    } else {
        0
    }
}

/// A single vowel takes the tone itself; a longer sequence with a roofed
/// vowel takes it on that vowel.
pub proof fn law_single_and_roofed_tone(e: VowelSeqInfo, has_final_consonant: bool)
    ensures
        e.len == 1 ==> tone_position(e, has_final_consonant) == 0,
        e.len != 1 && e.roof_pos != -1 ==> tone_position(e, has_final_consonant) == e.roof_pos,
{
}

/// A three-vowel sequence with no roofed and no hooked vowel takes the tone
/// on its middle vowel (`oai` → `ngoài`), with or without a final consonant.
pub proof fn law_triple_tone_in_middle(e: VowelSeqInfo, has_final_consonant: bool)
    requires
        e.len == 3,
        e.roof_pos == -1,
        e.hook_pos == -1,
    ensures
        tone_position(e, has_final_consonant) == 1,
{
}

/// For every table entry the tone lands on one of its vowels.
pub proof fn law_tone_position_in_sequence(i: int, has_final_consonant: bool)
    requires
        0 <= i < 70,
    ensures
        0 <= tone_position(vseq_entry(i), has_final_consonant) < vseq_entry(i).len,
{
}

/// A pattern found in the table has the asked length and vowels.
pub proof fn law_lookup_matches(vowels: Seq<VnLexiName>, len: int)
    ensures
        vseq_lookup(vowels, len) matches Some(e) ==> entry_matches(e, vowels, len)
            && vseq_table().contains(e),
{
    if 1 <= len <= 3 {
        lemma_find_from_matches(vowels, len, 0);
    }
}

proof fn lemma_find_from_matches(vowels: Seq<VnLexiName>, len: int, i: int)
    ensures
        vseq_find_from(vowels, len, i) matches Some(e) ==> entry_matches(e, vowels, len)
            && vseq_table().contains(e),
    decreases 70 - i,
{
    if 0 <= i < 70 {
        if entry_matches(vseq_entry(i), vowels, len) {
            assert(vseq_table()[i] == vseq_entry(i));
        } else {
            lemma_find_from_matches(vowels, len, i + 1);
        }
    }
}

/// Position of a lexical unit in the enumeration.
pub open spec fn lexi_rank(v: VnLexiName) -> int {
    match v {
        VnLexiName::NonVnChar => 0,
        VnLexiName::A => 1,
        VnLexiName::Ar => 2,
        VnLexiName::Ab => 3,
        VnLexiName::E => 4,
        VnLexiName::Er => 5,
        VnLexiName::I => 6,
        VnLexiName::O => 7,
        VnLexiName::Or => 8,
        VnLexiName::Oh => 9,
        VnLexiName::U => 10,
        VnLexiName::Uh => 11,
        VnLexiName::Y => 12,
        VnLexiName::B => 13,
        VnLexiName::C => 14,
        VnLexiName::Ch => 15,
        VnLexiName::D => 16,
        VnLexiName::Dd => 17,
        VnLexiName::Dz => 18,
        VnLexiName::G => 19,
        VnLexiName::Gh => 20,
        VnLexiName::Gi => 21,
        VnLexiName::Gin => 22,
        VnLexiName::K => 23,
        VnLexiName::Kh => 24,
        VnLexiName::L => 25,
        VnLexiName::M => 26,
        VnLexiName::N => 27,
        VnLexiName::Ng => 28,
        VnLexiName::Ngh => 29,
        VnLexiName::Nh => 30,
        VnLexiName::P => 31,
        VnLexiName::Ph => 32,
        VnLexiName::Q => 33,
        VnLexiName::Qu => 34,
        VnLexiName::R => 35,
        VnLexiName::S => 36,
        VnLexiName::T => 37,
        VnLexiName::Th => 38,
        VnLexiName::Tr => 39,
        VnLexiName::V => 40,
        VnLexiName::X => 41,
    }
}

/// A number that orders entries by length, then by their vowels.
pub open spec fn key_rank(e: VowelSeqInfo) -> int {
    e.len * 100_000_000 + lexi_rank(e.vowels@[0]) * 1_000_000 + lexi_rank(e.vowels@[1]) * 1_000
        + lexi_rank(e.vowels@[2])
}

proof fn lemma_table_sorted_step(i: int)
    requires
        0 <= i < 69,
    ensures
        key_rank(vseq_entry(i)) < key_rank(vseq_entry(i + 1)),
        1 <= vseq_entry(i).len <= 3,
        1 <= vseq_entry(i + 1).len <= 3,
{
}

proof fn lemma_table_sorted(i: int, j: int)
    requires
        0 <= i < j < 70,
    ensures
        key_rank(vseq_entry(i)) < key_rank(vseq_entry(j)),
    decreases j - i,
{
    lemma_table_sorted_step(j - 1);
    if i < j - 1 {
        lemma_table_sorted(i, j - 1);
    }
}

proof fn lemma_find_from_entry(i: int, j: int)
    requires
        0 <= j <= i < 70,
    ensures
        vseq_find_from(vseq_entry(i).vowels@, vseq_entry(i).len as int, j) == Some(vseq_entry(i)),
    decreases i - j,
{
    if j < i {
        lemma_table_sorted(j, i);
        lemma_find_from_entry(i, j + 1);
    }
}

/// Every pattern of the table is found by lookup, and finds its own entry.
pub proof fn law_table_patterns_found(i: int)
    requires
        0 <= i < 70,
    ensures
        vseq_lookup(vseq_entry(i).vowels@, vseq_entry(i).len as int) == Some(vseq_entry(i)),
{
    if i < 69 {
        lemma_table_sorted_step(i);
    } else {
        lemma_table_sorted_step(68);
    }
    lemma_find_from_entry(i, 0);
}

} // verus!
