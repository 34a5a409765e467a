//! Unicode handling for Vietnamese text: normalization forms and the vowel
//! sequence table.

pub mod normalization;
pub mod vowel_sequences;

pub use normalization::{normalize_nfc, normalize_nfd, sanitize_filename, str_eq_normalized};
pub use vowel_sequences::{
    char_to_vnlexi, get_tone_position, lookup_vowel_seq, lookup_vowel_seq_str, vseq_list,
    VnLexiName, VowelSeq, VowelSeqInfo,
};
