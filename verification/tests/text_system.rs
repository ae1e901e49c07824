use adabraka_gpui::glyph_runs::{
    face_is_usable, fallback_chain, group_glyph_runs, usable_faces, GlyphInfo,
};
use adabraka_gpui::run_spans::{
    compute_run_spans, pick_covering_slot, run_spans_from_clusters, slot_font_id, RunSpan,
};

const PRIMARY: usize = 0;
const FALLBACK: usize = 1;

#[test]
fn run_spans_prefer_configured_fallbacks_for_missing_glyphs() {
    let fallback_chain = vec![FALLBACK];
    let spans = compute_run_spans(
        "a😀b",
        0,
        "a😀b".len(),
        PRIMARY,
        &fallback_chain,
        &|font_id: usize, ch: char| match font_id {
            0 => ch.is_ascii(),
            1 => ch == '😀',
            _ => false,
        },
    );

    assert_eq!(
        spans.as_slice(),
        &[
            RunSpan { start: 0, end: 1, slot: None },
            RunSpan { start: 1, end: 5, slot: Some(0) },
            RunSpan { start: 5, end: 6, slot: None },
        ]
    );
}

#[test]
fn run_spans_keep_grapheme_clusters_together() {
    let fallback_chain = vec![FALLBACK];
    let text = "a👨‍👩‍👧‍👦b";
    let spans = compute_run_spans(
        text,
        0,
        text.len(),
        PRIMARY,
        &fallback_chain,
        &|font_id: usize, ch: char| match font_id {
            0 => ch.is_ascii(),
            1 => ch == '👨',
            _ => false,
        },
    );

    assert_eq!(
        spans.as_slice(),
        &[
            RunSpan { start: 0, end: 1, slot: None },
            RunSpan { start: 1, end: text.len() - 1, slot: Some(0) },
            RunSpan { start: text.len() - 1, end: text.len(), slot: None },
        ]
    );
}

#[test]
fn without_fallbacks_the_run_is_one_primary_span() {
    let spans = compute_run_spans("héllo", 1, 3, PRIMARY, &vec![], &|_: usize, _: char| false);
    assert_eq!(spans, vec![RunSpan { start: 1, end: 4, slot: None }]);
    let spans = compute_run_spans("abc", 0, 0, PRIMARY, &vec![FALLBACK], &|_: usize, _: char| true);
    assert!(spans.is_empty());
}

#[test]
fn runs_inside_a_line_keep_their_offsets() {
    let fallback_chain = vec![7, 9];
    let text = "xx→é";
    let spans = compute_run_spans(text, 2, text.len() - 2, 3, &fallback_chain, &|font: usize, ch: char| {
        match font {
            9 => ch == '→',
            7 => ch == 'é',
            _ => ch.is_ascii(),
        }
    });
    assert_eq!(
        spans,
        vec![
            RunSpan { start: 2, end: 5, slot: Some(1) },
            RunSpan { start: 5, end: 7, slot: Some(0) },
        ]
    );
    assert_eq!(slot_font_id(spans[0].slot, 3, &fallback_chain), 9);
    assert_eq!(slot_font_id(None, 3, &fallback_chain), 3);
}

#[test]
fn covering_slot_prefers_primary_then_current_then_first_fallback() {
    let chain = vec![10, 11, 12];
    let covers = |font: usize, ch: char| match font {
        0 => ch == 'ü',
        11 | 12 => ch == '★',
        _ => false,
    };
    assert_eq!(pick_covering_slot('a', Some(2), 0, &chain, &covers), None);
    assert_eq!(pick_covering_slot('ü', Some(2), 0, &chain, &covers), None);
    assert_eq!(pick_covering_slot('★', Some(2), 0, &chain, &covers), Some(2));
    assert_eq!(pick_covering_slot('★', None, 0, &chain, &covers), Some(1));
    assert_eq!(pick_covering_slot('♞', Some(1), 0, &chain, &covers), None);
}

#[test]
fn spans_from_clusters_keep_a_covering_current_fallback() {
    // Fallbacks A = 10 and B = 11: 'Ж' only in B, '★' in both.
    let chain = vec![10, 11];
    let covers = |font: usize, ch: char| match font {
        10 => ch == '★',
        11 => ch == 'Ж' || ch == '★',
        _ => ch.is_ascii(),
    };
    let clusters = vec![(0, "Ж".to_string()), (2, "★".to_string())];
    let spans = run_spans_from_clusters(&clusters, 4, 5, 0, &chain, &covers);
    assert_eq!(spans, vec![RunSpan { start: 4, end: 9, slot: Some(1) }]);
    let clusters = vec![(0, "★".to_string()), (3, "Ж".to_string())];
    let spans = run_spans_from_clusters(&clusters, 0, 5, 0, &chain, &covers);
    assert_eq!(
        spans,
        vec![
            RunSpan { start: 0, end: 3, slot: Some(0) },
            RunSpan { start: 3, end: 5, slot: Some(1) },
        ]
    );
}

#[test]
fn spans_from_clusters_follow_the_given_clusters() {
    let chain = vec![FALLBACK];
    let covers = |font: usize, ch: char| match font {
        0 => ch.is_ascii(),
        1 => ch == '👨',
        _ => false,
    };
    let family = "👨\u{200d}👩";
    let clusters = vec![(0, "a".to_string()), (1, family.to_string()), (1 + family.len(), "b".to_string())];
    let spans = run_spans_from_clusters(&clusters, 0, family.len() + 2, PRIMARY, &chain, &covers);
    assert_eq!(
        spans,
        vec![
            RunSpan { start: 0, end: 1, slot: None },
            RunSpan { start: 1, end: 1 + family.len(), slot: Some(0) },
            RunSpan { start: 1 + family.len(), end: family.len() + 2, slot: None },
        ]
    );
    // The same characters split into one cluster each: the woman and the
    // joiner are covered by nothing, so they fall back to the primary font.
    let clusters = vec![
        (0, "a".to_string()),
        (1, "👨".to_string()),
        (5, "\u{200d}".to_string()),
        (8, "👩".to_string()),
        (12, "b".to_string()),
    ];
    let spans = run_spans_from_clusters(&clusters, 0, 13, PRIMARY, &chain, &covers);
    assert_eq!(
        spans,
        vec![
            RunSpan { start: 0, end: 1, slot: None },
            RunSpan { start: 1, end: 5, slot: Some(0) },
            RunSpan { start: 5, end: 13, slot: None },
        ]
    );
}

fn glyph(font: Option<usize>, glyph_id: u32, is_emoji: bool) -> GlyphInfo {
    GlyphInfo { font, glyph_id, is_emoji }
}

#[test]
fn glyphs_group_into_runs_by_font() {
    let glyphs = vec![
        glyph(Some(0), 10, false),
        glyph(Some(0), 11, false),
        glyph(None, 12, false),
        glyph(Some(0), 13, false),
        glyph(Some(2), 40, true),
        glyph(Some(2), 3, true),
        glyph(Some(2), 41, true),
        glyph(Some(0), 3, false),
    ];
    assert_eq!(
        group_glyph_runs(&glyphs),
        vec![(0, vec![0, 1, 3]), (2, vec![4, 6]), (0, vec![7])]
    );
    assert!(group_glyph_runs(&vec![glyph(None, 1, false), glyph(Some(1), 3, true)]).is_empty());
}

#[test]
fn faces_without_m_are_dropped_but_icon_fonts_kept() {
    assert!(face_is_usable(true, "Inter-Regular"));
    assert!(!face_is_usable(false, "Inter-Regular"));
    assert!(face_is_usable(false, "SegoeFluentIcons"));
    assert!(face_is_usable(false, "Segoe Fluent Icons"));
    let faces = vec![
        (true, "Inter-Regular".to_string()),
        (false, "Symbols".to_string()),
        (false, "Segoe Fluent Icons".to_string()),
        (true, "Inter-Bold".to_string()),
    ];
    assert_eq!(usable_faces(&faces), vec![0, 2, 3]);
}

#[test]
fn fallback_chain_keeps_families_with_a_font_and_a_name() {
    let chain = fallback_chain(&vec![
        (Some(4), Some("Noto Sans CJK".to_string())),
        (None, Some("Missing".to_string())),
        (Some(6), None),
        (Some(7), Some("Noto Color Emoji".to_string())),
    ]);
    assert_eq!(chain, vec![(4, "Noto Sans CJK".to_string()), (7, "Noto Color Emoji".to_string())]);
}
