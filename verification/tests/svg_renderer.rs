use adabraka_gpui::emoji::{
    check_is_known_emoji_font, is_emoji_presentation, select_emoji_font, EmojiFontCandidate,
};

#[test]
fn test_is_emoji_presentation() {
    let cases = [
        ("a", false),
        ("Z", false),
        ("1", false),
        ("#", false),
        ("*", false),
        ("漢", false),
        ("中", false),
        ("カ", false),
        ("©", false),
        ("♥", false),
        ("😀", true),
        ("✅", true),
        ("🇺🇸", true),
        ("©️", false),
        ("♥️", false),
        ("1️⃣", false),
    ];

    for (s, expected) in cases {
        assert_eq!(is_emoji_presentation(s.chars().next().unwrap()), expected, "for char {s:?}",);
    }
}

#[test]
fn only_noto_color_emoji_is_a_known_emoji_font() {
    assert!(check_is_known_emoji_font("NotoColorEmoji"));
    assert!(!check_is_known_emoji_font("NotoColorEmoji-Regular"));
    assert!(!check_is_known_emoji_font(""));
}

#[test]
fn test_select_emoji_font_skips_family_without_glyph() {
    let ibm_plex_sans = 1;
    let lilex = 2;
    // The bundled IBM Plex Sans has no glyph for '│'; Lilex has one.
    let candidates = vec![
        EmojiFontCandidate { face: Some(ibm_plex_sans), has_char: false },
        EmojiFontCandidate { face: Some(lilex), has_char: true },
    ];
    let selected = select_emoji_font(&vec![], &candidates).unwrap();

    assert_eq!(selected, lilex);
    assert!(!candidates[0].has_char);
    assert!(candidates[1].has_char);
}

#[test]
fn emoji_fonts_already_tried_or_missing_are_skipped() {
    let candidates = vec![
        EmojiFontCandidate { face: None, has_char: true },
        EmojiFontCandidate { face: Some(7), has_char: true },
        EmojiFontCandidate { face: Some(9), has_char: true },
    ];
    assert_eq!(select_emoji_font(&vec![7], &candidates), Some(9));
    assert_eq!(select_emoji_font(&vec![7, 9], &candidates), None);
    assert_eq!(select_emoji_font(&vec![], &vec![]), None);
}
