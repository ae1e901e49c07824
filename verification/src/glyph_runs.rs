//! Grouping shaped glyphs into runs by the font that renders them, and
//! choosing the faces of a font family that are kept.

use vstd::prelude::*;
use crate::text::owned;

verus! {

/// A shaped glyph as far as grouping needs it: the loaded font it resolved
/// to (`None` when it resolved to none), its glyph id in that font, and
/// whether that font is a known emoji font.
#[derive(Clone, Copy, Debug, PartialEq, Eq, Structural)]
pub struct GlyphInfo {
    pub font: Option<usize>,
    pub glyph_id: u32,
    pub is_emoji: bool,
}

/// Whether a glyph is laid out: it resolved to a font, and it is not glyph
/// three of an emoji font, which variation selectors shape to.
pub open spec fn glyph_kept(g: GlyphInfo) -> bool {
    g.font is Some && !(g.glyph_id == 3 && g.is_emoji)
}

/// Runs as fonts and glyph index sequences.
pub open spec fn runs_view(runs: Seq<(usize, Vec<usize>)>) -> Seq<(usize, Seq<usize>)> {
    runs.map_values(|r: (usize, Vec<usize>)| (r.0, r.1@))
}

/// Whether `ids` is a non-empty, strictly increasing list of glyphs of `gs`
/// that are laid out and resolved to `font`.
pub open spec fn run_of_font(gs: Seq<GlyphInfo>, font: usize, ids: Seq<usize>) -> bool {
    &&& ids.len() > 0
    &&& forall|a: int|
        0 <= a < ids.len() ==> #[trigger] ids[a] < gs.len() && glyph_kept(gs[ids[a] as int])
            && gs[ids[a] as int].font == Some(font)
    &&& forall|a: int, b: int| 0 <= a < b < ids.len() ==> #[trigger] ids[a] < #[trigger] ids[b]
}

/// Whether glyph `i` is in one of the runs.
pub open spec fn in_runs(runs: Seq<(usize, Seq<usize>)>, i: int) -> bool {
    exists|k: int, a: int| 0 <= k < runs.len() && 0 <= a < runs[k].1.len() && #[trigger] runs[k].1[a] == i
}

/// Whether `runs` groups the glyphs `gs`: every glyph that is laid out is in
/// a run and no other is, in order, each run holding glyphs of its font,
/// and neighbouring runs of different fonts, so that each run is a
/// maximal stretch of consecutive laid-out glyphs of one font.
pub open spec fn groups_glyphs(gs: Seq<GlyphInfo>, runs: Seq<(usize, Seq<usize>)>) -> bool {
    &&& forall|k: int| 0 <= k < runs.len() ==> run_of_font(gs, (#[trigger] runs[k]).0, runs[k].1)
    &&& forall|k: int, l: int, a: int, b: int|
        0 <= k < l < runs.len() && 0 <= a < runs[k].1.len() && 0 <= b < runs[l].1.len()
            ==> #[trigger] runs[k].1[a] < #[trigger] runs[l].1[b]
    &&& forall|k: int| 0 <= k < runs.len() - 1 ==> #[trigger] runs[k].0 != runs[k + 1].0
    &&& forall|i: int| 0 <= i < gs.len() && glyph_kept(#[trigger] gs[i]) ==> in_runs(runs, i)
}

/// Groups shaped glyphs into runs of one font each: the glyphs that are
/// laid out, in order, with a new run wherever the font changes. Each run
/// is its font and the positions of its glyphs in `glyphs`.
pub fn group_glyph_runs(glyphs: &Vec<GlyphInfo>) -> (r: Vec<(usize, Vec<usize>)>)
    ensures
        groups_glyphs(glyphs@, runs_view(r@)),
{
    let mut runs: Vec<(usize, Vec<usize>)> = Vec::new();
    let mut cur_font: usize = 0;
    let mut cur: Vec<usize> = Vec::new();
    let mut i: usize = 0;
    while i < glyphs.len()
        invariant
            i <= glyphs@.len(),
            forall|k: int|
                0 <= k < runs_view(runs@).len() ==> run_of_font(
                    glyphs@,
                    (#[trigger] runs_view(runs@)[k]).0,
                    runs_view(runs@)[k].1,
                ),
            forall|k: int, l: int, a: int, b: int|
                0 <= k < l < runs_view(runs@).len() && 0 <= a < runs_view(runs@)[k].1.len() && 0
                    <= b < runs_view(runs@)[l].1.len() ==> #[trigger] runs_view(runs@)[k].1[a]
                    < #[trigger] runs_view(runs@)[l].1[b],
            forall|k: int|
                0 <= k < runs_view(runs@).len() - 1 ==> #[trigger] runs_view(runs@)[k].0
                    != runs_view(runs@)[k + 1].0,
            forall|k: int, a: int|
                0 <= k < runs_view(runs@).len() && 0 <= a < runs_view(runs@)[k].1.len()
                    ==> #[trigger] runs_view(runs@)[k].1[a] < i,
            forall|k: int, a: int, b: int|
                0 <= k < runs_view(runs@).len() && 0 <= a < runs_view(runs@)[k].1.len() && 0 <= b
                    < cur@.len() ==> #[trigger] runs_view(runs@)[k].1[a] < #[trigger] cur@[b],
            cur@.len() > 0 ==> run_of_font(glyphs@, cur_font, cur@),
            forall|b: int| 0 <= b < cur@.len() ==> #[trigger] cur@[b] < i,
            cur@.len() > 0 && runs_view(runs@).len() > 0 ==> runs_view(runs@).last().0 != cur_font,
            cur@.len() == 0 ==> runs@.len() == 0,
            forall|j: int|
                0 <= j < i && glyph_kept(#[trigger] glyphs@[j]) ==> in_runs(runs_view(runs@), j)
                    || cur@.contains(j as usize),
        decreases glyphs@.len() - i,
    {
        let g = glyphs[i];
        let kept = match g.font {
            Some(_) => !(g.glyph_id == 3 && g.is_emoji),
            None => false,
        };
        if kept {
            let font = match g.font {
                Some(f) => f,
                None => 0,
            };
            if cur.len() > 0 && cur_font != font {
                let ghost before = runs_view(runs@);
                let ghost pushed = cur@;
                let ghost pfont = cur_font;
                runs.push((cur_font, cur));
                cur = Vec::new();
                proof {
                    assert(runs_view(runs@) =~= before.push((pfont, pushed)));
                    assert forall|j: int|
                        0 <= j < i && glyph_kept(#[trigger] glyphs@[j]) implies in_runs(
                        runs_view(runs@),
                        j,
                    ) || cur@.contains(j as usize) by {
                        if in_runs(before, j) {
                            let (k, a) = choose|k: int, a: int|
                                0 <= k < before.len() && 0 <= a < before[k].1.len()
                                    && #[trigger] before[k].1[a] == j;
                            assert(runs_view(runs@)[k] == before[k]);
                        } else {
                            assert(pushed.contains(j as usize));
                            let a = choose|a: int| 0 <= a < pushed.len() && pushed[a] == j as usize;
                            assert(runs_view(runs@)[before.len() as int].1[a] == j);
                        }
                    }
                }
            }
            cur_font = font;
            let ghost old_cur = cur@;
            cur.push(i);
            proof {
                assert forall|j: int|
                    0 <= j < i + 1 && glyph_kept(#[trigger] glyphs@[j]) implies in_runs(
                    runs_view(runs@),
                    j,
                ) || cur@.contains(j as usize) by {
                    if j == i {
                        assert(cur@[cur@.len() - 1] == i);
                    } else if old_cur.contains(j as usize) {
                        let a = choose|a: int| 0 <= a < old_cur.len() && old_cur[a] == j as usize;
                        assert(cur@[a] == j as usize);
                    }
                }
            }
        }
        i = i + 1;
    }
    if cur.len() > 0 {
        let ghost before = runs_view(runs@);
        let ghost pushed = cur@;
        runs.push((cur_font, cur));
        proof {
            assert(runs_view(runs@) =~= before.push((cur_font, pushed)));
            assert forall|j: int|
                0 <= j < glyphs@.len() && glyph_kept(#[trigger] glyphs@[j]) implies in_runs(
                runs_view(runs@),
                j,
            ) by {
                if in_runs(before, j) {
                    let (k, a) = choose|k: int, a: int|
                        0 <= k < before.len() && 0 <= a < before[k].1.len()
                            && #[trigger] before[k].1[a] == j;
                    assert(runs_view(runs@)[k] == before[k]);
                } else {
                    let a = choose|a: int| 0 <= a < pushed.len() && pushed[a] == j as usize;
                    assert(runs_view(runs@)[before.len() as int].1[a] == j);
                }
            }
        }
    }
    runs
}

/// The PostScript names of icon fonts that are kept though they map no
/// glyph for `m`; the first is how Segoe Fluent Icons names itself on some
/// systems.
pub const SEGOE_FLUENT_ICONS_COMPACT: &'static str = "SegoeFluentIcons";

/// The other PostScript name of Segoe Fluent Icons.
pub const SEGOE_FLUENT_ICONS: &'static str = "Segoe Fluent Icons";

/// Whether a face of a family is kept: it has a glyph for `m`, or it is one
/// of the allowed icon fonts.
pub open spec fn face_usable(maps_m: bool, postscript_name: Seq<char>) -> bool {
    maps_m || postscript_name == SEGOE_FLUENT_ICONS_COMPACT@ || postscript_name
        == SEGOE_FLUENT_ICONS@
}

/// The positions of the kept faces among `faces`, in order.
pub open spec fn usable_face_indices(faces: Seq<(bool, String)>) -> Seq<usize>
    decreases faces.len(),
{
    if faces.len() == 0 {
        Seq::empty()
    } else {
        let before = usable_face_indices(faces.drop_last());
        if face_usable(faces.last().0, faces.last().1@) {
            before.push((faces.len() - 1) as usize)
        } else {
            before
        }
    }
}

/// Whether a face is kept, by whether it maps `m` to a glyph and by its
/// PostScript name.
pub fn face_is_usable(maps_m: bool, postscript_name: &str) -> (r: bool)
    ensures
        r == face_usable(maps_m, postscript_name@),
{
    if maps_m {
        return true;
    }
    let name = owned(postscript_name);
    name == owned(SEGOE_FLUENT_ICONS_COMPACT) || name == owned(SEGOE_FLUENT_ICONS)
}

/// The faces of a family that are loaded, given for each face whether it
/// maps `m` to a glyph and its PostScript name: the positions of the kept
/// faces, in order. The others are removed from the font database.
pub fn usable_faces(faces: &Vec<(bool, String)>) -> (r: Vec<usize>)
    ensures
        r@ == usable_face_indices(faces@),
{
    let mut out: Vec<usize> = Vec::new();
    let mut i: usize = 0;
    while i < faces.len()
        invariant
            i <= faces@.len(),
            out@ == usable_face_indices(faces@.subrange(0, i as int)),
        decreases faces@.len() - i,
    {
        proof {
            assert(faces@.subrange(0, i + 1).drop_last() =~= faces@.subrange(0, i as int));
        }
        if face_is_usable(faces[i].0, faces[i].1.as_str()) {
            out.push(i);
        }
        i = i + 1;
    }
    proof {
        assert(faces@.subrange(0, faces@.len() as int) =~= faces@);
    }
    out
}

/// The fallback chain of a family: for each configured fallback family in
/// order, its first loaded font with the family name of that font's face;
/// a fallback with no loaded font or no family name is left out.
pub open spec fn fallback_chain_of(fallbacks: Seq<(Option<usize>, Option<String>)>) -> Seq<
    (usize, Seq<char>),
>
    decreases fallbacks.len(),
{
    if fallbacks.len() == 0 {
        Seq::empty()
    } else {
        let before = fallback_chain_of(fallbacks.drop_last());
        match fallbacks.last() {
            (Some(id), Some(family)) => before.push((id, family@)),
            _ => before,
        }
    }
}

/// Builds the fallback chain from what loading each fallback family gave:
/// its first loaded font, if any, and the family name of that font's face,
/// if it has one.
pub fn fallback_chain(fallbacks: &Vec<(Option<usize>, Option<String>)>) -> (r: Vec<(usize, String)>)
    ensures
        r@.map_values(|e: (usize, String)| (e.0, e.1@)) == fallback_chain_of(fallbacks@),
{
    let mut out: Vec<(usize, String)> = Vec::new();
    let mut i: usize = 0;
    while i < fallbacks.len()
        invariant
            i <= fallbacks@.len(),
            out@.map_values(|e: (usize, String)| (e.0, e.1@)) == fallback_chain_of(
                fallbacks@.subrange(0, i as int),
            ),
        decreases fallbacks@.len() - i,
    {
        proof {
            assert(fallbacks@.subrange(0, i + 1).drop_last() =~= fallbacks@.subrange(0, i as int));
        }
        match &fallbacks[i] {
            (Some(id), Some(family)) => {
                let ghost before = out@;
                out.push((*id, family.clone()));
                proof {
                    assert(out@.map_values(|e: (usize, String)| (e.0, e.1@)) =~= before.map_values(
                        |e: (usize, String)| (e.0, e.1@),
                    ).push((*id, family@)));
                }
            },
            _ => {},
        }
        i = i + 1;
    }
    proof {
        assert(fallbacks@.subrange(0, fallbacks@.len() as int) =~= fallbacks@);
    }
    out
}

/// Segoe Fluent Icons is allowed under both of its PostScript names.
pub proof fn law_glyph_runs_constants()
    ensures
        SEGOE_FLUENT_ICONS_COMPACT@ == "SegoeFluentIcons"@,
        SEGOE_FLUENT_ICONS@ == "Segoe Fluent Icons"@,
{
}

} // verus!
