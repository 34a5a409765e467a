use buttre_engine::pipeline::context::{Candidate, CandidateType};
use buttre_engine::pipeline::dictionary::{DictionaryProvider, SimpleDictionary};

#[test]
fn test_simple_dictionary() {
    let mut dict = SimpleDictionary::new();

    // Add candidates
    dict.add("nguoi", "người", CandidateType::Vietnamese, 1.0f32.to_bits());
    dict.add("nguoi", "𠊛", CandidateType::Nom, 0.5f32.to_bits());

    // Lookup
    let candidates = dict.lookup("nguoi");
    assert_eq!(candidates.len(), 2);
    assert_eq!(candidates[0].text, "người");
    assert_eq!(candidates[1].text, "𠊛");

    // Contains
    assert!(dict.contains("nguoi"));
    assert!(!dict.contains("xyz"));

    // Count
    assert_eq!(dict.count(), 1); // 1 unique keyword
}

#[test]
fn test_empty_dictionary() {
    let dict = SimpleDictionary::new();

    assert!(dict.lookup("test").is_empty());
    assert!(!dict.contains("test"));
    assert_eq!(dict.count(), 0);
}

#[test]
fn test_add_candidates() {
    let mut dict = SimpleDictionary::new();

    let candidates = vec![
        Candidate {
            text: "trời".to_string(),
            value: None,
            candidate_type: CandidateType::Vietnamese,
            score_bits: 1.0f32.to_bits(),
        },
        Candidate {
            text: "𡗶".to_string(),
            value: None,
            candidate_type: CandidateType::Nom,
            score_bits: 0.8f32.to_bits(),
        },
    ];

    dict.add_candidates("troi", candidates);

    let result = dict.lookup("troi");
    assert_eq!(result.len(), 2);
    assert_eq!(result[0].text, "trời");
    assert_eq!(result[1].text, "𡗶");
}

/// A provider that only answers lookups: `contains` and `count` come from
/// the trait's defaults.
struct OneWordProvider;

impl DictionaryProvider for OneWordProvider {
    fn lookup(&self, keyword: &str) -> Vec<Candidate> {
        if keyword == "troi" {
            vec![Candidate {
                text: "trời".to_string(),
                value: None,
                candidate_type: CandidateType::Vietnamese,
                score_bits: 1.0f32.to_bits(),
            }]
        } else {
            Vec::new()
        }
    }
}

#[test]
fn default_contains_follows_lookup() {
    let provider = OneWordProvider;
    assert!(provider.contains("troi"));
    assert!(!provider.contains("dat"));
}

#[test]
fn default_count_is_zero() {
    let provider = OneWordProvider;
    assert_eq!(provider.count(), 0);
}
