use buttre_engine::vowel::sequences::{VowelSeqInfo, VowelSeqTable};

fn info(sequence: &str, complete: bool, tone_positions: Vec<usize>) -> VowelSeqInfo {
    VowelSeqInfo {
        sequence: sequence.to_string(),
        len: sequence.chars().count(),
        complete,
        vowels: sequence.chars().collect(),
        tone_positions,
        roof_pos: None,
        hook_pos: None,
        with_roof: None,
        with_hook: None,
    }
}

#[test]
fn display_string_matches_format() {
    let i = info("oa", true, vec![1, 0]);
    assert_eq!(i.to_display_string(), "oa (len=2, complete=true, tone_pos=[1, 0])");
    assert_eq!(
        i.to_display_string(),
        format!("{} (len={}, complete={}, tone_pos={:?})", i.sequence, i.len, i.complete, i.tone_positions)
    );
    let j = info("uyê", false, vec![]);
    assert_eq!(j.to_display_string(), "uyê (len=3, complete=false, tone_pos=[])");
}

#[test]
fn table_find_by_text_and_vowels() {
    let table = VowelSeqTable::new(vec![info("oa", true, vec![1]), info("ua", true, vec![0])]);
    assert_eq!(table.len(), 2);
    assert_eq!(table.find("ua").unwrap().tone_positions, vec![0]);
    assert!(table.find("ie").is_none());
    assert_eq!(table.find_by_vowels(&['o', 'a']).unwrap().sequence, "oa");
    assert_eq!(table.find("oa").unwrap().primary_tone_position(), Some(1));
    assert!(table.find("oa").unwrap().can_receive_tone(1));
    assert!(!table.find("oa").unwrap().can_receive_tone(0));
    assert!(VowelSeqTable::empty().is_empty());
}
