//! Splitting a shaping run into spans by the font that covers them: each
//! grapheme cluster is kept whole and assigned to the primary font or to the
//! first configured fallback font that covers its first character, and
//! neighbouring clusters with the same font form one span.

use vstd::prelude::*;
use vstd::utf8::is_char_boundary;
use vstd::string::StringSliceAdditionalSpecFns;
use unicode_segmentation::UnicodeSegmentation;

verus! {

/// A byte range of the text with the fallback slot that renders it; `None`
/// is the primary font.
#[derive(Clone, Copy, Debug, PartialEq, Eq, Structural)]
pub struct RunSpan {
    pub start: usize,
    pub end: usize,
    pub slot: Option<usize>,
}

/// The grapheme clusters of the bytes `from..to` of a text, each with its
/// byte offset from `from` (`UnicodeSegmentation::grapheme_indices` over
/// extended clusters).
pub uninterp spec fn run_graphemes(text: Seq<char>, from: usize, to: usize) -> Seq<(usize, Seq<char>)>;

/// The extended grapheme clusters of `text[from..to]` with their byte
/// offsets, in order (`UnicodeSegmentation::grapheme_indices(_, true)`).
///
/// As the crate documents, the clusters cover the text in order: offsets
/// increase strictly, the first is zero when the range is non-empty, each
/// lies inside the range, and no cluster is empty.
#[verifier::external_body]
fn grapheme_indices(text: &str, from: usize, to: usize) -> (r: Vec<(usize, String)>)
    requires
        from <= to,
        is_char_boundary(text.spec_bytes(), from as int),
        is_char_boundary(text.spec_bytes(), to as int),
    ensures
        cluster_view(r@) == run_graphemes(text@, from, to),
        clusters_of_run(cluster_view(r@), to - from),
{
    let mut clusters = Vec::new();
    for (offset, cluster) in text[from..to].grapheme_indices(true) {
        clusters.push((offset, cluster.to_string()));
    }
    clusters
}

/// Clusters as offsets and characters.
pub open spec fn cluster_view(cs: Seq<(usize, String)>) -> Seq<(usize, Seq<char>)> {
    cs.map_values(|g: (usize, String)| (g.0, g.1@))
}

/// Whether `cs` lists the clusters of a run of `len` bytes as
/// segmentation gives them: in order of strictly increasing offset, the
/// first at zero when the run is not empty, each inside the run and none
/// empty.
pub open spec fn clusters_of_run(cs: Seq<(usize, Seq<char>)>, len: int) -> bool {
    &&& len > 0 ==> cs.len() > 0 && cs[0].0 == 0
    &&& forall|k: int| 0 <= k < cs.len() ==> #[trigger] cs[k].0 < len && cs[k].1.len() > 0
    &&& forall|j: int, k: int| 0 <= j < k < cs.len() ==> #[trigger] cs[j].0 < #[trigger] cs[k].0
}

/// The font of a slot: the primary font, or the fallback at that index.
pub open spec fn slot_font(slot: Option<usize>, primary: usize, chain: Seq<usize>) -> usize {
    match slot {
        None => primary,
        Some(ix) => chain[ix as int],
    }
}

/// The font of a slot: the primary font, or the fallback at that index.
pub fn slot_font_id(slot: Option<usize>, primary: usize, fallback_chain: &Vec<usize>) -> (r: usize)
    requires
        slot matches Some(ix) ==> ix < fallback_chain.len(),
    ensures
        r == slot_font(slot, primary, fallback_chain@),
{
    match slot {
        None => primary,
        Some(ix) => fallback_chain[ix],
    }
}

/// The slot of a character: the primary font for ASCII and for characters
/// it covers; else the current slot when its font covers the character;
/// else the first fallback that covers it, or the primary font when none
/// does.
pub fn pick_covering_slot<F: Fn(usize, char) -> bool>(
    ch: char,
    current: Option<usize>,
    primary: usize,
    fallback_chain: &Vec<usize>,
    covers: &F,
) -> (r: Option<usize>)
    requires
        current matches Some(ix) ==> ix < fallback_chain.len(),
        forall|f: usize, c: char| call_requires(*covers, (f, c)),
    ensures
        r matches Some(ix) ==> ix < fallback_chain.len(),
        (ch as u32) < 128 ==> r is None,
        r matches Some(ix) ==> call_ensures(*covers, (fallback_chain@[ix as int], ch), true),
        r != current ==> (r matches Some(ix) ==> forall|k: int|
            0 <= k < ix ==> call_ensures(*covers, (#[trigger] fallback_chain@[k], ch), false)),
        r is Some ==> call_ensures(*covers, (primary, ch), false),
        r is Some && r != current ==> (current matches Some(c) ==> call_ensures(
            *covers,
            (fallback_chain@[c as int], ch),
            false,
        )),
        r is None ==> (ch as u32) < 128 || call_ensures(*covers, (primary, ch), true) || forall|k: int|
            0 <= k < fallback_chain@.len() ==> call_ensures(
                *covers,
                (#[trigger] fallback_chain@[k], ch),
                false,
            ),
{
    if (ch as u32) < 128 || covers(primary, ch) {
        return None;
    }
    let current_id = slot_font_id(current, primary, fallback_chain);
    if covers(current_id, ch) {
        return current;
    }
    let mut ix: usize = 0;
    while ix < fallback_chain.len()
        invariant
            ix <= fallback_chain.len(),
            (ch as u32) >= 128,
            call_ensures(*covers, (primary, ch), false),
            call_ensures(*covers, (current_id, ch), false),
            current_id == slot_font(current, primary, fallback_chain@),
            forall|f: usize, c: char| call_requires(*covers, (f, c)),
            forall|k: int| 0 <= k < ix ==> call_ensures(*covers, (#[trigger] fallback_chain@[k], ch), false),
        decreases fallback_chain.len() - ix,
    {
        if covers(fallback_chain[ix], ch) {
            return Some(ix);
        }
        ix = ix + 1;
    }
    None
}

/// Whether byte position `pos` is where one of the clusters `gs` of the run
/// starting at `from` starts.
pub open spec fn is_cluster_start(gs: Seq<(usize, Seq<char>)>, from: int, pos: int) -> bool {
    exists|g: int| 0 <= g < gs.len() && pos == from + #[trigger] gs[g].0
}

/// The spans cover `start..end` in order without gaps, none is empty, and
/// neighbouring spans have different slots.
pub open spec fn spans_partition(spans: Seq<RunSpan>, start: int, end: int) -> bool {
    &&& start < end ==> spans.len() > 0
    &&& start >= end ==> spans.len() == 0
    &&& spans.len() > 0 ==> spans[0].start == start && spans.last().end == end
    &&& forall|k: int| 0 <= k < spans.len() ==> #[trigger] spans[k].start < spans[k].end
    &&& forall|k: int|
        0 <= k < spans.len() - 1 ==> #[trigger] spans[k].end == spans[k + 1].start && spans[k].slot
            != spans[k + 1].slot
}

/// Whether `slot` keeps rendering character `c` once chosen, as
/// [`pick_covering_slot`] decides with `slot` as the current slot: a
/// fallback slot for a non-ASCII character that the primary font does not
/// cover and the slot's font does; the primary font for ASCII, for
/// characters it covers, and for characters no fallback covers.
pub open spec fn slot_fits<F: Fn(usize, char) -> bool>(
    slot: Option<usize>,
    c: char,
    primary: usize,
    chain: Seq<usize>,
    covers: F,
) -> bool {
    match slot {
        Some(ix) => {
            &&& (c as u32) >= 128
            &&& call_ensures(covers, (primary, c), false)
            &&& call_ensures(covers, (chain[ix as int], c), true)
        },
        None => (c as u32) < 128 || call_ensures(covers, (primary, c), true) || forall|j: int|
            0 <= j < chain.len() ==> call_ensures(covers, (#[trigger] chain[j], c), false),
    }
}

/// Whether `slot` is a font choice for the first character of every
/// cluster of `gs` (a run starting at `from`) that starts in `lo..hi`.
pub open spec fn fits_clusters<F: Fn(usize, char) -> bool>(
    slot: Option<usize>,
    gs: Seq<(usize, Seq<char>)>,
    from: int,
    lo: int,
    hi: int,
    primary: usize,
    chain: Seq<usize>,
    covers: F,
) -> bool {
    forall|g: int|
        0 <= g < gs.len() && lo <= from + (#[trigger] gs[g]).0 < hi ==> slot_fits(
            slot,
            gs[g].1[0],
            primary,
            chain,
            covers,
        )
}

/// Whether a span of `slot` may begin at a cluster whose first character
/// is `c`, right after text rendered by font `prev`: a fallback slot is
/// switched to only when `prev` does not cover `c` and no earlier fallback
/// covers it.
pub open spec fn enters_slot<F: Fn(usize, char) -> bool>(
    slot: Option<usize>,
    prev: usize,
    c: char,
    chain: Seq<usize>,
    covers: F,
) -> bool {
    slot matches Some(ix) ==> {
        &&& call_ensures(covers, (prev, c), false)
        &&& forall|j: int| 0 <= j < ix ==> call_ensures(covers, (#[trigger] chain[j], c), false)
    }
}

/// The font that renders the text just before span `k`: the primary font
/// before the first span, else the font of span `k - 1`.
pub open spec fn font_before(spans: Seq<RunSpan>, k: int, primary: usize, chain: Seq<usize>) -> usize {
    if k <= 0 {
        primary
    } else {
        slot_font(spans[k - 1].slot, primary, chain)
    }
}

/// Whether the spans assign fonts to the clusters `gs` of a run starting at
/// `from` as the fallback rules do: every span after the first starts at a
/// cluster, each span's slot keeps rendering every cluster inside it, and
/// each span's slot is the one switched to at its first cluster.
pub open spec fn spans_follow_clusters<F: Fn(usize, char) -> bool>(
    spans: Seq<RunSpan>,
    gs: Seq<(usize, Seq<char>)>,
    from: int,
    primary: usize,
    chain: Seq<usize>,
    covers: F,
) -> bool {
    &&& forall|k: int|
        0 < k < spans.len() ==> is_cluster_start(gs, from, (#[trigger] spans[k]).start as int)
    &&& forall|k: int|
        0 <= k < spans.len() ==> fits_clusters(
            (#[trigger] spans[k]).slot,
            gs,
            from,
            spans[k].start as int,
            spans[k].end as int,
            primary,
            chain,
            covers,
        )
    &&& forall|k: int, g: int|
        0 <= k < spans.len() && 0 <= g < gs.len() && from + (#[trigger] gs[g]).0
            == (#[trigger] spans[k]).start ==> enters_slot(
            spans[k].slot,
            font_before(spans, k, primary, chain),
            gs[g].1[0],
            chain,
            covers,
        )
}

/// Splits the run `run_offset..run_offset + run_len` into spans by covering
/// font, given the run's grapheme clusters with their offsets in the run.
/// With no fallback fonts the whole run is one span of the primary font.
/// Otherwise the clusters are walked in order: each goes to the slot that
/// [`pick_covering_slot`] picks for its first character with the current
/// span's slot, and a new span starts where that slot changes.
pub fn run_spans_from_clusters<F: Fn(usize, char) -> bool>(
    clusters: &Vec<(usize, String)>,
    run_offset: usize,
    run_len: usize,
    primary: usize,
    fallback_chain: &Vec<usize>,
    covers: &F,
) -> (r: Vec<RunSpan>)
    requires
        run_offset + run_len <= usize::MAX,
        fallback_chain.len() > 0 ==> clusters_of_run(cluster_view(clusters@), run_len as int),
        forall|f: usize, c: char| call_requires(*covers, (f, c)),
    ensures
        spans_partition(r@, run_offset as int, run_offset + run_len),
        forall|k: int|
            0 <= k < r@.len() ==> ((#[trigger] r@[k]).slot matches Some(ix) ==> ix
                < fallback_chain.len()),
        fallback_chain.len() == 0 && run_len > 0 ==> r@ == seq![
            RunSpan { start: run_offset, end: (run_offset + run_len) as usize, slot: None },
        ],
        fallback_chain.len() > 0 ==> spans_follow_clusters(
            r@,
            cluster_view(clusters@),
            run_offset as int,
            primary,
            fallback_chain@,
            *covers,
        ),
{
    let mut spans: Vec<RunSpan> = Vec::new();
    let run_end = run_offset + run_len;
    if run_end <= run_offset {
        return spans;
    }
    if fallback_chain.len() == 0 {
        spans.push(RunSpan { start: run_offset, end: run_end, slot: None });
        return spans;
    }
    let ghost gview = cluster_view(clusters@);
    proof {
        assert forall|k: int| 0 <= k < clusters@.len() implies gview[k] == (
        #[trigger] clusters@[k].0, clusters@[k].1@) by {}
        assert(clusters@[0].0 == gview[0].0);
        assert forall|j: int, k: int| 0 <= j < k < clusters@.len() implies #[trigger] clusters@[j].0
            < #[trigger] clusters@[k].0 by {
            assert(gview[j].0 < gview[k].0);
        }
    }
    let mut span_start = run_offset;
    let mut span_slot: Option<usize> = None;
    let mut i: usize = 0;
    while i < clusters.len()
        invariant
            forall|k: int|
                0 <= k < spans@.len() ==> fits_clusters(
                    (#[trigger] spans@[k]).slot,
                    gview,
                    run_offset as int,
                    spans@[k].start as int,
                    spans@[k].end as int,
                    primary,
                    fallback_chain@,
                    *covers,
                ),
            forall|g: int|
                0 <= g < i && span_start <= run_offset + (#[trigger] gview[g]).0 ==> slot_fits(
                    span_slot,
                    gview[g].1[0],
                    primary,
                    fallback_chain@,
                    *covers,
                ),
            forall|k: int, g: int|
                0 <= k < spans@.len() && 0 <= g < gview.len() && run_offset + (
                #[trigger] gview[g]).0 == (#[trigger] spans@[k]).start ==> enters_slot(
                    spans@[k].slot,
                    font_before(spans@, k, primary, fallback_chain@),
                    gview[g].1[0],
                    fallback_chain@,
                    *covers,
                ),
            forall|g: int|
                0 <= g < gview.len() && run_offset + (#[trigger] gview[g]).0 == span_start
                    ==> enters_slot(
                    span_slot,
                    font_before(spans@, spans@.len() as int, primary, fallback_chain@),
                    gview[g].1[0],
                    fallback_chain@,
                    *covers,
                ),
            run_offset < run_end,
            run_end == run_offset + run_len,
            gview == cluster_view(clusters@),
            clusters_of_run(gview, run_len as int),
            forall|k: int| 0 <= k < clusters@.len() ==> gview[k] == (
            #[trigger] clusters@[k].0, clusters@[k].1@),
            clusters@.len() > 0 && clusters@[0].0 == 0,
            forall|j: int, k: int|
                0 <= j < k < clusters@.len() ==> #[trigger] clusters@[j].0
                    < #[trigger] clusters@[k].0,
            forall|f: usize, c: char| call_requires(*covers, (f, c)),
            0 < i <= clusters@.len() ==> span_start <= run_offset + clusters@[i - 1].0,
            i == 0 ==> span_start == run_offset && spans@.len() == 0 && span_slot is None,
            i <= clusters@.len(),
            run_offset <= span_start < run_end,
            span_slot matches Some(ix) ==> ix < fallback_chain.len(),
            spans@.len() > 0 ==> spans@[0].start == run_offset && spans@.last().end
                == span_start && spans@.last().slot != span_slot,
            spans@.len() == 0 ==> span_start == run_offset,
            forall|k: int| 0 <= k < spans@.len() ==> #[trigger] spans@[k].start < spans@[k].end,
            forall|k: int|
                0 <= k < spans@.len() - 1 ==> #[trigger] spans@[k].end == spans@[k + 1].start
                    && spans@[k].slot != spans@[k + 1].slot,
            forall|k: int|
                0 <= k < spans@.len() ==> ((#[trigger] spans@[k]).slot matches Some(ix) ==> ix
                    < fallback_chain.len()),
            span_start != run_offset ==> is_cluster_start(gview, run_offset as int, span_start as int),
            forall|k: int|
                0 < k < spans@.len() ==> is_cluster_start(
                    gview,
                    run_offset as int,
                    (#[trigger] spans@[k]).start as int,
                ),
        decreases clusters@.len() - i,
    {
        let abs = run_offset + clusters[i].0;
        let ch = clusters[i].1.as_str().get_char(0);
        let next_slot = pick_covering_slot(ch, span_slot, primary, fallback_chain, covers);
        proof {
            assert(gview[i as int] == (clusters@[i as int].0, clusters@[i as int].1@));
            assert(ch == gview[i as int].1[0]);
            assert(slot_fits(next_slot, ch, primary, fallback_chain@, *covers));
            if i > 0 {
                assert(clusters@[i - 1].0 < clusters@[i as int].0);
            }
            assert(next_slot != span_slot ==> enters_slot(
                next_slot,
                slot_font(span_slot, primary, fallback_chain@),
                ch,
                fallback_chain@,
                *covers,
            ));
            assert forall|g: int|
                0 <= g < gview.len() && run_offset + (#[trigger] gview[g]).0 == abs implies g
                == i by {
                assert(gview[g] == (clusters@[g].0, clusters@[g].1@));
                if g < i {
                    assert(clusters@[g].0 < clusters@[i as int].0);
                } else if g > i {
                    assert(clusters@[i as int].0 < clusters@[g].0);
                }
            }
        }
        if next_slot != span_slot {
            if abs > span_start {
                let ghost before = spans@;
                let ghost old_slot = span_slot;
                let ghost old_start = span_start;
                spans.push(RunSpan { start: span_start, end: abs, slot: span_slot });
                proof {
                    assert forall|k: int| 0 <= k < spans@.len() implies fits_clusters(
                        (#[trigger] spans@[k]).slot,
                        gview,
                        run_offset as int,
                        spans@[k].start as int,
                        spans@[k].end as int,
                        primary,
                        fallback_chain@,
                        *covers,
                    ) by {
                        if k < before.len() {
                            assert(spans@[k] == before[k]);
                        } else {
                            assert forall|g: int|
                                0 <= g < gview.len() && span_start <= run_offset + (
                                #[trigger] gview[g]).0 < abs implies slot_fits(
                                span_slot,
                                gview[g].1[0],
                                primary,
                                fallback_chain@,
                                *covers,
                            ) by {
                                if g >= i {
                                    if g > i {
                                        assert(clusters@[i as int].0 < clusters@[g].0);
                                    }
                                    assert(gview[g].0 == clusters@[g].0);
                                }
                            }
                        }
                    }
                    assert forall|k: int, g: int|
                        0 <= k < spans@.len() && 0 <= g < gview.len() && run_offset + (
                        #[trigger] gview[g]).0 == (#[trigger] spans@[k]).start implies enters_slot(
                        spans@[k].slot,
                        font_before(spans@, k, primary, fallback_chain@),
                        gview[g].1[0],
                        fallback_chain@,
                        *covers,
                    ) by {
                        if k < before.len() {
                            assert(spans@[k] == before[k]);
                            if k > 0 {
                                assert(spans@[k - 1] == before[k - 1]);
                            }
                        } else {
                            if k > 0 {
                                assert(spans@[k - 1] == before[k - 1]);
                            }
                        }
                    }
                    if before.len() > 0 {
                        assert(spans@[before.len() - 1] == before.last());
                    }
                    assert forall|k: int|
                        0 < k < spans@.len() implies is_cluster_start(
                            gview,
                            run_offset as int,
                            (#[trigger] spans@[k]).start as int,
                        ) by {
                        if k < before.len() {
                            assert(spans@[k] == before[k]);
                        }
                    }
                    assert(font_before(spans@, spans@.len() as int, primary, fallback_chain@)
                        == slot_font(old_slot, primary, fallback_chain@));
                }
                span_start = abs;
                span_slot = next_slot;
                proof {
                    assert forall|g: int|
                        0 <= g < i + 1 && span_start <= run_offset + (#[trigger] gview[g]).0
                            implies slot_fits(span_slot, gview[g].1[0], primary, fallback_chain@, *covers) by {
                        if g < i {
                            assert(clusters@[g].0 < clusters@[i as int].0);
                            assert(gview[g].0 == clusters@[g].0);
                        }
                    }
                    assert(span_start == run_offset + gview[i as int].0);
                    assert(is_cluster_start(gview, run_offset as int, span_start as int));
                }
            } else {
                proof {
                    if i > 0 {
                        assert(run_offset + clusters@[i - 1].0 < abs);
                    }
                    assert(i == 0);
                }
                span_start = abs;
                span_slot = next_slot;
            }
        }
        i = i + 1;
    }
    if span_start < run_end {
        let ghost before = spans@;
        spans.push(RunSpan { start: span_start, end: run_end, slot: span_slot });
        proof {
            assert forall|k: int| 0 <= k < spans@.len() implies fits_clusters(
                (#[trigger] spans@[k]).slot,
                gview,
                run_offset as int,
                spans@[k].start as int,
                spans@[k].end as int,
                primary,
                fallback_chain@,
                *covers,
            ) by {
                if k < before.len() {
                    assert(spans@[k] == before[k]);
                }
            }
            assert forall|k: int, g: int|
                0 <= k < spans@.len() && 0 <= g < gview.len() && run_offset + (
                #[trigger] gview[g]).0 == (#[trigger] spans@[k]).start implies enters_slot(
                spans@[k].slot,
                font_before(spans@, k, primary, fallback_chain@),
                gview[g].1[0],
                fallback_chain@,
                *covers,
            ) by {
                if k > 0 {
                    assert(spans@[k - 1] == before[k - 1]);
                }
                if k < before.len() {
                    assert(spans@[k] == before[k]);
                }
            }
            if before.len() > 0 {
                assert(spans@[before.len() - 1] == before.last());
            }
            assert forall|k: int|
                0 < k < spans@.len() implies is_cluster_start(
                    gview,
                    run_offset as int,
                    (#[trigger] spans@[k]).start as int,
                ) by {
                if k < before.len() {
                    assert(spans@[k] == before[k]);
                }
            }
        }
    }
    spans
}

/// Splits the run `run_offset..run_offset + run_len` of `text` into spans
/// by covering font, over the run's extended grapheme clusters (see
/// [`run_spans_from_clusters`]). With no fallback fonts the whole run is
/// one span of the primary font. Span boundaries fall on grapheme cluster
/// boundaries, so a cluster is never split between fonts.
pub fn compute_run_spans<F: Fn(usize, char) -> bool>(
    text: &str,
    run_offset: usize,
    run_len: usize,
    primary: usize,
    fallback_chain: &Vec<usize>,
    covers: &F,
) -> (r: Vec<RunSpan>)
    requires
        run_offset + run_len <= usize::MAX,
        run_len > 0 && fallback_chain.len() > 0 ==> {
            &&& is_char_boundary(text.spec_bytes(), run_offset as int)
            &&& is_char_boundary(text.spec_bytes(), run_offset + run_len)
        },
        forall|f: usize, c: char| call_requires(*covers, (f, c)),
    ensures
        spans_partition(r@, run_offset as int, run_offset + run_len),
        forall|k: int|
            0 <= k < r@.len() ==> ((#[trigger] r@[k]).slot matches Some(ix) ==> ix
                < fallback_chain.len()),
        fallback_chain.len() == 0 && run_len > 0 ==> r@ == seq![
            RunSpan { start: run_offset, end: (run_offset + run_len) as usize, slot: None },
        ],
        run_len > 0 && fallback_chain.len() > 0 ==> spans_follow_clusters(
            r@,
            run_graphemes(text@, run_offset, (run_offset + run_len) as usize),
            run_offset as int,
            primary,
            fallback_chain@,
            *covers,
        ),
{
    let run_end = run_offset + run_len;
    if run_end <= run_offset || fallback_chain.len() == 0 {
        return run_spans_from_clusters(&Vec::new(), run_offset, run_len, primary, fallback_chain, covers);
    }
    let clusters = grapheme_indices(text, run_offset, run_end);
    run_spans_from_clusters(&clusters, run_offset, run_len, primary, fallback_chain, covers)
}

} // verus!
