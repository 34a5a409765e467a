use buttre_engine::pipeline::stages::telex_table::{
    can_start_transform, lookup_2char, lookup_3char, telex_2char_table, telex_3char_table,
};

#[test]
fn test_2char_lowercase() {
    assert_eq!(lookup_2char('a', 'a'), Some('â'));
    assert_eq!(lookup_2char('a', 'w'), Some('ă'));
    assert_eq!(lookup_2char('d', 'd'), Some('đ'));
    assert_eq!(lookup_2char('e', 'e'), Some('ê'));
    assert_eq!(lookup_2char('o', 'o'), Some('ô'));
    assert_eq!(lookup_2char('o', 'w'), Some('ơ'));
    assert_eq!(lookup_2char('u', 'w'), Some('ư'));
}

#[test]
fn test_2char_uppercase() {
    assert_eq!(lookup_2char('A', 'A'), Some('Â'));
    assert_eq!(lookup_2char('A', 'W'), Some('Ă'));
    assert_eq!(lookup_2char('A', 'w'), Some('Ă'));
    assert_eq!(lookup_2char('D', 'D'), Some('Đ'));
    assert_eq!(lookup_2char('D', 'd'), Some('Đ'));
    assert_eq!(lookup_2char('E', 'E'), Some('Ê'));
    assert_eq!(lookup_2char('O', 'O'), Some('Ô'));
    assert_eq!(lookup_2char('O', 'W'), Some('Ơ'));
    assert_eq!(lookup_2char('O', 'w'), Some('Ơ'));
    assert_eq!(lookup_2char('U', 'W'), Some('Ư'));
    assert_eq!(lookup_2char('U', 'w'), Some('Ư'));
}

#[test]
fn test_2char_no_match() {
    assert_eq!(lookup_2char('a', 'b'), None);
    assert_eq!(lookup_2char('x', 'y'), None);
    assert_eq!(lookup_2char('1', '2'), None);
}

#[test]
fn test_3char_transforms() {
    assert_eq!(lookup_3char('u', 'o', 'w'), Some("ươ"));
    assert_eq!(lookup_3char('U', 'O', 'W'), Some("ƯƠ"));
    assert_eq!(lookup_3char('U', 'o', 'w'), Some("Ươ"));
}

#[test]
fn test_3char_no_match() {
    assert_eq!(lookup_3char('u', 'o', 'x'), None);
    assert_eq!(lookup_3char('a', 'b', 'c'), None);
}

#[test]
fn test_can_start() {
    assert!(can_start_transform('a'));
    assert!(can_start_transform('A'));
    assert!(can_start_transform('d'));
    assert!(can_start_transform('D'));
    assert!(can_start_transform('e'));
    assert!(can_start_transform('E'));
    assert!(can_start_transform('o'));
    assert!(can_start_transform('O'));
    assert!(can_start_transform('u'));
    assert!(can_start_transform('U'));

    assert!(!can_start_transform('b'));
    assert!(!can_start_transform('x'));
    assert!(!can_start_transform('1'));
    assert!(!can_start_transform(' '));
}

#[test]
fn test_table_completeness() {
    assert_eq!(telex_2char_table().len(), 18);
    assert_eq!(telex_3char_table().len(), 3);
}
