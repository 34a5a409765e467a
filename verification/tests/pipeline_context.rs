use buttre_engine::pipeline::context::{Candidate, CandidateType, CharInfo, TypingContext};

#[test]
fn test_new_context() {
    let ctx = TypingContext::new();
    assert!(ctx.is_empty());
    assert_eq!(ctx.len(), 0);
    assert!(!ctx.temp_english_mode);
}

#[test]
fn test_push_raw() {
    let mut ctx = TypingContext::new();
    ctx.push_raw('a');
    assert_eq!(ctx.raw_buffer(), "a");
    assert!(ctx.syllable_buffer.is_empty());
}

#[test]
fn test_set_syllable() {
    let mut ctx = TypingContext::new();
    ctx.set_syllable("â".to_string());
    assert_eq!(ctx.syllable_buffer, "â");
    assert_eq!(ctx.len(), 1);
}

#[test]
fn test_clear() {
    let mut ctx = TypingContext::new();
    ctx.push_raw('a');
    ctx.set_syllable("â".to_string());
    ctx.temp_english_mode = true;
    
    ctx.clear();
    
    assert!(ctx.is_empty());
    assert!(!ctx.temp_english_mode);
    assert_eq!(ctx.history.len(), 0);
}

#[test]
fn test_history() {
    let mut ctx = TypingContext::new();
    ctx.push_raw('a');
    ctx.set_syllable("a".to_string());
    ctx.save_to_history();
    
    ctx.push_raw('a');
    ctx.set_syllable("â".to_string());
    ctx.save_to_history();
    
    assert_eq!(ctx.history.len(), 2);
    assert_eq!(ctx.history[0], ("a".to_string(), "a".to_string()));
    assert_eq!(ctx.history[1], ("aa".to_string(), "â".to_string()));
}

#[test]
fn test_commit_output() {
    let mut ctx = TypingContext::new();
    ctx.set_syllable("thường".to_string());
    ctx.commit_output();
    
    assert_eq!(ctx.last_output, "thường");
}

// Candidate Selection Tests

#[test]
fn test_has_candidates() {
    let mut ctx = TypingContext::new();
    assert!(!ctx.has_candidates());

    ctx.candidates.push(Candidate {
        text: "người".to_string(),
        value: None,
        candidate_type: CandidateType::Vietnamese,
        score_bits: 1.0f32.to_bits(),
    });
    assert!(ctx.has_candidates());
}

#[test]
fn test_candidate_count() {
    let mut ctx = TypingContext::new();
    assert_eq!(ctx.candidate_count(), 0);

    ctx.candidates.push(Candidate {
        text: "người".to_string(),
        value: None,
        candidate_type: CandidateType::Vietnamese,
        score_bits: 1.0f32.to_bits(),
    });
    ctx.candidates.push(Candidate {
        text: "𠊛".to_string(),
        value: None,
        candidate_type: CandidateType::Nom,
        score_bits: 0.5f32.to_bits(),
    });
    assert_eq!(ctx.candidate_count(), 2);
}

#[test]
fn test_select_next_candidate() {
    let mut ctx = TypingContext::new();
    
    // Add 3 candidates
    for i in 0..3 {
        ctx.candidates.push(Candidate {
            text: format!("candidate{}", i),
            value: None,
            candidate_type: CandidateType::Vietnamese,
            score_bits: 1.0f32.to_bits(),
        });
    }

    // Initially no selection
    assert_eq!(ctx.selected_candidate, None);

    // First next -> select 0
    ctx.select_next_candidate();
    assert_eq!(ctx.selected_candidate, Some(0));

    // Second next -> select 1
    ctx.select_next_candidate();
    assert_eq!(ctx.selected_candidate, Some(1));

    // Third next -> select 2
    ctx.select_next_candidate();
    assert_eq!(ctx.selected_candidate, Some(2));

    // Fourth next -> wrap to 0
    ctx.select_next_candidate();
    assert_eq!(ctx.selected_candidate, Some(0));
}

#[test]
fn test_select_previous_candidate() {
    let mut ctx = TypingContext::new();
    
    // Add 3 candidates
    for i in 0..3 {
        ctx.candidates.push(Candidate {
            text: format!("candidate{}", i),
            value: None,
            candidate_type: CandidateType::Vietnamese,
            score_bits: 1.0f32.to_bits(),
        });
    }

    // Initially no selection
    assert_eq!(ctx.selected_candidate, None);

    // First previous -> select last (2)
    ctx.select_previous_candidate();
    assert_eq!(ctx.selected_candidate, Some(2));

    // Second previous -> select 1
    ctx.select_previous_candidate();
    assert_eq!(ctx.selected_candidate, Some(1));

    // Third previous -> select 0
    ctx.select_previous_candidate();
    assert_eq!(ctx.selected_candidate, Some(0));

    // Fourth previous -> wrap to last (2)
    ctx.select_previous_candidate();
    assert_eq!(ctx.selected_candidate, Some(2));
}

#[test]
fn test_select_candidate_by_index() {
    let mut ctx = TypingContext::new();
    
    // Add 3 candidates
    for i in 0..3 {
        ctx.candidates.push(Candidate {
            text: format!("candidate{}", i),
            value: None,
            candidate_type: CandidateType::Vietnamese,
            score_bits: 1.0f32.to_bits(),
        });
    }

    // Select valid index
    assert!(ctx.select_candidate(1));
    assert_eq!(ctx.selected_candidate, Some(1));

    // Select another valid index
    assert!(ctx.select_candidate(2));
    assert_eq!(ctx.selected_candidate, Some(2));

    // Select invalid index
    assert!(!ctx.select_candidate(10));
    assert_eq!(ctx.selected_candidate, Some(2)); // Unchanged
}

#[test]
fn test_get_selected_candidate() {
    let mut ctx = TypingContext::new();
    
    ctx.candidates.push(Candidate {
        text: "người".to_string(),
        value: None,
        candidate_type: CandidateType::Vietnamese,
        score_bits: 1.0f32.to_bits(),
    });
    ctx.candidates.push(Candidate {
        text: "𠊛".to_string(),
        value: None,
        candidate_type: CandidateType::Nom,
        score_bits: 0.5f32.to_bits(),
    });

    // No selection
    assert!(ctx.get_selected_candidate().is_none());

    // Select first
    ctx.select_candidate(0);
    let selected = ctx.get_selected_candidate().unwrap();
    assert_eq!(selected.text, "người");

    // Select second
    ctx.select_candidate(1);
    let selected = ctx.get_selected_candidate().unwrap();
    assert_eq!(selected.text, "𠊛");
}

#[test]
fn test_get_candidate() {
    let mut ctx = TypingContext::new();
    
    ctx.candidates.push(Candidate {
        text: "người".to_string(),
        value: None,
        candidate_type: CandidateType::Vietnamese,
        score_bits: 1.0f32.to_bits(),
    });

    assert!(ctx.get_candidate(0).is_some());
    assert_eq!(ctx.get_candidate(0).unwrap().text, "người");
    assert!(ctx.get_candidate(1).is_none());
}

#[test]
fn test_accept_selected_candidate() {
    let mut ctx = TypingContext::new();
    ctx.syllable_buffer = "nguoi".to_string();
    
    ctx.candidates.push(Candidate {
        text: "người".to_string(),
        value: None,
        candidate_type: CandidateType::Vietnamese,
        score_bits: 1.0f32.to_bits(),
    });
    ctx.candidates.push(Candidate {
        text: "𠊛".to_string(),
        value: None,
        candidate_type: CandidateType::Nom,
        score_bits: 0.5f32.to_bits(),
    });
    ctx.showing_candidates = true;

    // No selection -> returns None
    assert!(ctx.accept_selected_candidate().is_none());

    // Select and accept
    ctx.select_candidate(1);
    let accepted = ctx.accept_selected_candidate().unwrap();
    
    assert_eq!(accepted, "𠊛");
    assert_eq!(ctx.syllable_buffer, "𠊛");
    assert!(!ctx.has_candidates());
    assert!(!ctx.showing_candidates);
    assert_eq!(ctx.selected_candidate, None);
}

#[test]
fn test_dismiss_candidates() {
    let mut ctx = TypingContext::new();
    
    ctx.candidates.push(Candidate {
        text: "người".to_string(),
        value: None,
        candidate_type: CandidateType::Vietnamese,
        score_bits: 1.0f32.to_bits(),
    });
    ctx.showing_candidates = true;
    ctx.selected_candidate = Some(0);

    ctx.dismiss_candidates();

    assert!(!ctx.has_candidates());
    assert!(!ctx.showing_candidates);
    assert_eq!(ctx.selected_candidate, None);
}

#[test]
fn test_candidate_selection_empty_list() {
    let mut ctx = TypingContext::new();

    // Operations on empty list should not crash
    ctx.select_next_candidate();
    assert_eq!(ctx.selected_candidate, None);

    ctx.select_previous_candidate();
    assert_eq!(ctx.selected_candidate, None);

    assert!(!ctx.select_candidate(0));
    assert!(ctx.get_selected_candidate().is_none());
    assert!(ctx.accept_selected_candidate().is_none());
}

#[test]
fn char_info_lowercases_beyond_ascii() {
    let c = CharInfo::new('Ω');
    assert_eq!(c.ch, 'ω');
    assert!(c.is_uppercase);
    let d = CharInfo::new('Ệ');
    assert_eq!(d.ch, 'ệ');
    assert!(d.is_uppercase);
}
