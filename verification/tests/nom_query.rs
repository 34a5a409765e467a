use buttre_engine::pipeline::context::CandidateType;
use buttre_engine::pipeline::nom_dictionary::{fts_query, nom_candidate};

#[test]
fn single_keyword_is_prefix_term() {
    assert_eq!(fts_query("thien"), "thien*");
}

#[test]
fn keywords_are_joined_with_and() {
    assert_eq!(fts_query("thien thuong"), "thien* AND thuong*");
    assert_eq!(fts_query("  a   b "), "a* AND b*");
}

#[test]
fn tab_alone_is_not_a_separator_trigger() {
    assert_eq!(fts_query("a\tb"), "a\tb*");
}

#[test]
fn candidate_with_meaning_shows_it() {
    let c = nom_candidate("𡗶", "trời", 7);
    assert_eq!(c.text, "𡗶 (trời)");
    assert_eq!(c.value, Some("𡗶".to_string()));
    assert_eq!(c.candidate_type, CandidateType::Nom);
    assert_eq!(c.score_bits, 7);
}

#[test]
fn candidate_without_meaning_is_the_character() {
    let c = nom_candidate("𡗶", "", 0);
    assert_eq!(c.text, "𡗶");
    assert_eq!(c.value, None);
}
