use buttre_engine::buffer::InputBuffer;
use buttre_engine::pipeline::stages::OutputStage;
use buttre_engine::pipeline::validation::{bit_index, decompose_ids};
use buttre_engine::types::Action;
use buttre_engine::unicode::normalization::{normalize_nfc, normalize_nfd, sanitize_filename, str_eq_normalized};
use buttre_engine::unicode::vowel_sequences::{
    char_to_vnlexi, get_tone_position, lookup_vowel_seq, lookup_vowel_seq_str, vseq_list, VnLexiName, VowelSeq,
};

#[test]
fn buffer_pop_returns_what_was_pushed() {
    let mut b = InputBuffer::new();
    b.push('x', true);
    b.push('Y', false);
    assert_eq!(b.pop(), Some(('Y', false)));
    assert_eq!(b.pop(), Some(('x', true)));
    assert_eq!(b.pop(), None);
}

#[test]
fn buffer_push_then_pop_restores_contents() {
    let mut b = InputBuffer::new();
    b.push('a', true);
    b.push('b', true);
    let before = b.to_string();
    b.push('c', true);
    b.pop();
    assert_eq!(b.to_string(), before);
}

#[test]
fn buffer_stays_bounded() {
    let mut b = InputBuffer::new();
    for i in 0..200u32 {
        b.push(char::from_u32('a' as u32 + (i % 26)).unwrap(), true);
        assert!(b.len() <= 40);
    }
}

#[test]
fn nfc_nfd_round_trip() {
    let s = "Việt Nam";
    let d = normalize_nfd(s);
    assert_ne!(d, s);
    assert_eq!(normalize_nfc(&d), s);
}

#[test]
fn eq_normalized_is_reflexive_and_symmetric() {
    let a = "Việt";
    let b = normalize_nfd(a);
    assert!(str_eq_normalized(a, a));
    assert!(str_eq_normalized(a, &b));
    assert!(str_eq_normalized(&b, a));
    assert!(!str_eq_normalized(a, "Viet"));
}

#[test]
fn sanitized_name_has_no_forbidden_chars() {
    assert_eq!(sanitize_filename("a/b:c*d?e\"f<g>h|i\\j\u{7}"), "a_b_c_d_e_f_g_h_i_j_");
    assert_eq!(sanitize_filename("tiếng việt.txt"), "tiếng việt.txt");
}

fn apply_edit(screen: &str, action: &Action) -> String {
    match action {
        Action::DoNothing => screen.to_string(),
        Action::Commit(t) => format!("{screen}{t}"),
        Action::Replace { backspace_count, text } => {
            let keep: String = screen.chars().take(screen.chars().count() - backspace_count).collect();
            format!("{keep}{text}")
        }
        _ => panic!("unexpected action"),
    }
}

#[test]
fn output_edit_reconstructs_new_text() {
    let stage = OutputStage::new(false);
    for (old, new) in [("vie", "việ"), ("", "a"), ("â", "ấ"), ("thuong", "thương"), ("abc", "ab")] {
        let action = stage.generate_action(old, new);
        assert_eq!(apply_edit(old, &action), new);
    }
}

#[test]
fn output_no_change_no_edit() {
    let stage = OutputStage::new(false);
    assert_eq!(stage.generate_action("việt", "việt"), Action::DoNothing);
    assert_eq!(OutputStage::new(true).generate_action("việt", "việt"), Action::DoNothing);
}

#[test]
fn output_edit_values() {
    let stage = OutputStage::new(false);
    assert_eq!(
        stage.generate_action("vie", "việ"),
        Action::Replace { backspace_count: 1, text: "ệ".to_string() }
    );
    assert_eq!(stage.generate_action("vi", "vie"), Action::Commit("e".to_string()));
    assert_eq!(
        OutputStage::new(true).generate_action("vi", "vie"),
        Action::UpdateComposition { text: "vie".to_string(), cursor: 3 }
    );
}

#[test]
fn every_table_pattern_is_found() {
    for info in vseq_list() {
        let found = lookup_vowel_seq(&info.vowels, info.len as usize).unwrap();
        assert_eq!(found.sub_seqs, info.sub_seqs);
        assert_eq!(found.len, info.len);
    }
    assert_eq!(vseq_list().len(), 70);
}

#[test]
fn tone_position_lies_in_sequence() {
    for info in vseq_list() {
        for fin in [false, true] {
            let p = get_tone_position(&info, fin);
            assert!(p >= 0 && (p as u8) < info.len);
        }
    }
}

#[test]
fn vowel_sequence_examples() {
    assert_eq!(char_to_vnlexi('a'), VnLexiName::A);
    assert_eq!(char_to_vnlexi('Ô'), VnLexiName::Or);
    assert_eq!(char_to_vnlexi('z'), VnLexiName::NonVnChar);
    let vowels = [VnLexiName::A, VnLexiName::I, VnLexiName::NonVnChar];
    assert_eq!(lookup_vowel_seq(&vowels, 2).unwrap().len, 2);
    assert!(lookup_vowel_seq(&vowels, 0).is_none());
    assert!(lookup_vowel_seq(&vowels, 4).is_none());
    let info = lookup_vowel_seq_str("ai").unwrap();
    assert_eq!(get_tone_position(&info, false), 0);
    let info = lookup_vowel_seq_str("oa").unwrap();
    assert_eq!(get_tone_position(&info, false), 1);
    let info = lookup_vowel_seq_str("ua").unwrap();
    assert_eq!(get_tone_position(&info, true), 1);
    assert_eq!(get_tone_position(&info, false), 0);
    let info = lookup_vowel_seq_str("ươ").unwrap();
    assert_eq!(info.sub_seqs[1], VowelSeq::Uhoh);
    assert_eq!(get_tone_position(&info, true), 1);
    assert!(lookup_vowel_seq_str("").is_none());
    assert!(lookup_vowel_seq_str("aaaa").is_none());
    assert!(lookup_vowel_seq_str("xy").is_none());
}

#[test]
fn decompose_ids_examples() {
    assert_eq!(decompose_ids("việt"), Some((15, 23, 5, 5)));
    assert_eq!(decompose_ids("VIỆT"), Some((15, 23, 5, 5)));
    assert_eq!(decompose_ids(&normalize_nfd("việt")), Some((15, 23, 5, 5)));
    assert_eq!(decompose_ids("a"), Some((0, 0, 0, 0)));
    assert_eq!(decompose_ids("áà"), None);
    assert_eq!(decompose_ids("fâllb"), None);
}

#[test]
fn vnlexi_breve_and_circumflex_a() {
    assert_eq!(char_to_vnlexi('ă'), VnLexiName::Ar);
    assert_eq!(char_to_vnlexi('â'), VnLexiName::Ab);
    assert_eq!(char_to_vnlexi('Ă'), VnLexiName::Ar);
    assert_eq!(char_to_vnlexi('Đ'), VnLexiName::Dd);
    assert_eq!(char_to_vnlexi('A'), VnLexiName::A);
    let info = lookup_vowel_seq_str("ău").unwrap();
    assert_eq!(info.sub_seqs[1], VowelSeq::Aru);
}

#[test]
fn bit_index_row_major_tone_fastest() {
    assert_eq!(bit_index(0, 0, 0, 1), 1);
    assert_eq!(bit_index(0, 0, 1, 0), 6);
    assert_eq!(bit_index(0, 1, 0, 0), 60);
    assert_eq!(bit_index(1, 0, 0, 0), 4020);
    assert_eq!(bit_index(29, 66, 9, 5), 30 * 67 * 10 * 6 - 1);
    assert_eq!(bit_index(3, 7, 2, 4) % 6, 4);
    assert_ne!(bit_index(3, 7, 2, 4), bit_index(3, 7, 4, 2));
}
