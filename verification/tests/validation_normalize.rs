use buttre_engine::pipeline::validation::normalize_vietnamese;
use buttre_engine::vowel::positioning::find_free_position;
use buttre_engine::vowel::{find_tone_position, find_vowel_clusters, TonePositioningMode};

#[test]
fn normalize_keeps_diacritics_drops_tones() {
    assert_eq!(normalize_vietnamese("Thường"), "thương");
    assert_eq!(normalize_vietnamese("ĐẮK"), "đăk");
    assert_eq!(normalize_vietnamese("Nghĩa"), "nghia");
}

#[test]
fn normalize_twice_is_normalize_once() {
    for s in ["Thường", "ĐẮK", "Nghĩa", "Trường Sa", "hello WORLD"] {
        let once = normalize_vietnamese(s);
        assert_eq!(normalize_vietnamese(&once), once);
    }
}

#[test]
fn free_position_nearest_vowel() {
    let clusters = find_vowel_clusters("khuyen");
    let c = &clusters[0];
    assert_eq!(find_free_position(c, Some(c.start_pos + 2)), Some(c.start_pos + 2));
    assert_eq!(find_free_position(c, Some(100)), Some(c.end_pos - 1));
    assert_eq!(find_free_position(c, None), None);
    assert_eq!(
        find_tone_position("khuyen", c, TonePositioningMode::Free, Some(usize::MAX)),
        Some(c.end_pos - 1)
    );
}

