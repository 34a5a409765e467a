use buttre_engine::pipeline::context::TypingContext;
use buttre_engine::pipeline::stage::{PipelineStage, StageResult};
use buttre_engine::pipeline::stages::VniOptimizedTransformStage;

#[test]
fn test_vni_transform_a6() {
    let stage = VniOptimizedTransformStage::new();
    let mut ctx = TypingContext::new();

    // Type 'a'
    ctx.syllable_buffer.push('a');
    ctx.push_raw('a');

    // Type '6' → should transform to 'â'
    let result = stage.process(&mut ctx, '6');

    assert_eq!(result, StageResult::Continue);
    assert_eq!(ctx.syllable_buffer, "â");
}

#[test]
fn test_vni_transform_a8() {
    let stage = VniOptimizedTransformStage::new();
    let mut ctx = TypingContext::new();

    ctx.syllable_buffer.push('a');
    ctx.push_raw('a');

    let result = stage.process(&mut ctx, '8');

    assert_eq!(result, StageResult::Continue);
    assert_eq!(ctx.syllable_buffer, "ă");
}

#[test]
fn test_vni_transform_d9() {
    let stage = VniOptimizedTransformStage::new();
    let mut ctx = TypingContext::new();

    ctx.syllable_buffer.push('d');
    ctx.push_raw('d');

    let result = stage.process(&mut ctx, '9');

    assert_eq!(result, StageResult::Continue);
    assert_eq!(ctx.syllable_buffer, "đ");
}

#[test]
fn test_vni_transform_e6() {
    let stage = VniOptimizedTransformStage::new();
    let mut ctx = TypingContext::new();

    ctx.syllable_buffer.push('e');
    stage.process(&mut ctx, '6');

    assert_eq!(ctx.syllable_buffer, "ê");
}

#[test]
fn test_vni_transform_o6() {
    let stage = VniOptimizedTransformStage::new();
    let mut ctx = TypingContext::new();

    ctx.syllable_buffer.push('o');
    stage.process(&mut ctx, '6');

    assert_eq!(ctx.syllable_buffer, "ô");
}

#[test]
fn test_vni_transform_o7() {
    let stage = VniOptimizedTransformStage::new();
    let mut ctx = TypingContext::new();

    ctx.syllable_buffer.push('o');
    stage.process(&mut ctx, '7');

    assert_eq!(ctx.syllable_buffer, "ơ");
}

#[test]
fn test_vni_transform_u7() {
    let stage = VniOptimizedTransformStage::new();
    let mut ctx = TypingContext::new();

    ctx.syllable_buffer.push('u');
    stage.process(&mut ctx, '7');

    assert_eq!(ctx.syllable_buffer, "ư");
}

#[test]
fn test_vni_no_transform() {
    let stage = VniOptimizedTransformStage::new();
    let mut ctx = TypingContext::new();

    ctx.syllable_buffer.push('b');
    stage.process(&mut ctx, '6');

    // 'b6' has no transformation, should append '6'
    assert_eq!(ctx.syllable_buffer, "b6");
}

#[test]
fn test_vni_uppercase_preservation() {
    let stage = VniOptimizedTransformStage::new();
    let mut ctx = TypingContext::new();

    // Type uppercase 'A'
    ctx.syllable_buffer.push('A');
    stage.process(&mut ctx, '6');

    // Should transform to uppercase 'Â'
    assert_eq!(ctx.syllable_buffer, "Â");
}

#[test]
fn test_vni_mixed_case() {
    let stage = VniOptimizedTransformStage::new();
    let mut ctx = TypingContext::new();

    // Lowercase
    ctx.syllable_buffer.push('o');
    stage.process(&mut ctx, '7');
    assert_eq!(ctx.syllable_buffer, "ơ");

    // Uppercase
    let mut ctx2 = TypingContext::new();
    ctx2.syllable_buffer.push('O');
    stage.process(&mut ctx2, '7');
    assert_eq!(ctx2.syllable_buffer, "Ơ");
}

#[test]
fn test_vni_sequential_transforms() {
    let stage = VniOptimizedTransformStage::new();
    let mut ctx = TypingContext::new();

    // Type "thuong" with VNI
    // Note: process() appends char if no transform, so don't pre-push

    // t
    stage.process(&mut ctx, 't');
    assert_eq!(ctx.syllable_buffer, "t");

    // h
    stage.process(&mut ctx, 'h');
    assert_eq!(ctx.syllable_buffer, "th");

    // u
    stage.process(&mut ctx, 'u');
    assert_eq!(ctx.syllable_buffer, "thu");

    // 7 → transform 'u' to 'ư'
    stage.process(&mut ctx, '7');
    assert_eq!(ctx.syllable_buffer, "thư");

    // o
    stage.process(&mut ctx, 'o');
    assert_eq!(ctx.syllable_buffer, "thưo");

    // 7 → transform 'o' to 'ơ'
    stage.process(&mut ctx, '7');
    assert_eq!(ctx.syllable_buffer, "thươ");

    // n
    stage.process(&mut ctx, 'n');
    assert_eq!(ctx.syllable_buffer, "thươn");

    // g
    stage.process(&mut ctx, 'g');

    assert_eq!(ctx.syllable_buffer, "thương");
}

#[test]
fn test_vni_empty_buffer() {
    let stage = VniOptimizedTransformStage::new();
    let mut ctx = TypingContext::new();

    // Input '6' with empty buffer
    stage.process(&mut ctx, '6');

    // Should just append '6'
    assert_eq!(ctx.syllable_buffer, "6");
}

#[test]
fn test_vni_all_transforms() {
    let stage = VniOptimizedTransformStage::new();

    // Test all 7 VNI transforms
    let test_cases = vec![
        ('a', '6', "â"),
        ('a', '8', "ă"),
        ('d', '9', "đ"),
        ('e', '6', "ê"),
        ('o', '6', "ô"),
        ('o', '7', "ơ"),
        ('u', '7', "ư"),
    ];

    for (base, key, expected) in test_cases {
        let mut ctx = TypingContext::new();
        ctx.syllable_buffer.push(base);
        stage.process(&mut ctx, key);
        assert_eq!(
            ctx.syllable_buffer, expected,
            "Transform {}{} failed",
            base, key
        );
    }
}

#[test]
fn test_vni_real_word_viet() {
    let stage = VniOptimizedTransformStage::new();
    let mut ctx = TypingContext::new();

    // Type "Vie6t" → "Viêt"
    // Note: process() appends char if no transform

    // V
    stage.process(&mut ctx, 'V');
    assert_eq!(ctx.syllable_buffer, "V");

    // i
    stage.process(&mut ctx, 'i');
    assert_eq!(ctx.syllable_buffer, "Vi");

    // e
    stage.process(&mut ctx, 'e');
    assert_eq!(ctx.syllable_buffer, "Vie");

    // 6 → e6 → ê
    stage.process(&mut ctx, '6');
    assert_eq!(ctx.syllable_buffer, "Viê");

    // Note: Tone '5' would be handled by ToneStage, not here
    // This only tests transform

    // t
    stage.process(&mut ctx, 't');

    assert_eq!(ctx.syllable_buffer, "Viêt");
}

#[test]
fn test_find_transform_method() {
    let stage = VniOptimizedTransformStage::new();

    // Valid transforms
    assert_eq!(stage.find_transform('a', '6'), Some(('â', false)));
    assert_eq!(stage.find_transform('A', '6'), Some(('â', true)));
    assert_eq!(stage.find_transform('d', '9'), Some(('đ', false)));

    // Invalid transforms
    assert_eq!(stage.find_transform('b', '6'), None);
    assert_eq!(stage.find_transform('a', 'x'), None);
}

#[test]
fn test_transform_history_recorded() {
    let stage = VniOptimizedTransformStage::new();
    let mut ctx = TypingContext::new();

    ctx.syllable_buffer.push('a');
    stage.process(&mut ctx, '6');

    // Check history was recorded
    assert_eq!(ctx.transform_history.len(), 1);
    let record = &ctx.transform_history[0];
    assert_eq!(record.before, "a");
    assert_eq!(record.after, "â");
}
