//! What an X11 window learns from the window manager's properties, and what
//! it derives from that state: the `_NET_WM_STATE` flags, the GTK edge
//! constraints, the decorations it shows and the frame extents it
//! announces.

use vstd::prelude::*;
use vstd::string::StringSliceAdditionalSpecFns;
use crate::window::{Decorations, Tiling, WindowBackgroundAppearance, WindowDecorations, WindowKind};
use crate::wire::{extract_words, le_word, be_word, word_of, words_in_order};
use crate::x11_hints::{edge_constraints_of, tiling_of, EdgeConstraints};

verus! {

/// The atoms of the `_NET_WM_STATE` values a window acts on.
#[derive(Clone, Copy, Debug, PartialEq, Eq, Structural)]
pub struct NetWmStateAtoms {
    pub focused: u32,
    pub fullscreen: u32,
    pub maximized_vert: u32,
    pub maximized_horz: u32,
    pub hidden: u32,
}

/// The window-manager state of a window, from `_NET_WM_STATE`.
#[derive(Clone, Copy, Debug, PartialEq, Eq, Structural)]
pub struct NetWmState {
    pub active: bool,
    pub fullscreen: bool,
    pub maximized_vertical: bool,
    pub maximized_horizontal: bool,
    pub hidden: bool,
}

/// The flag a state atom sets: the first of focused (0), fullscreen (1),
/// maximized vertically (2), maximized horizontally (3) and hidden (4) that
/// it equals, or none (-1).
pub open spec fn state_flag(a: u32, atoms: NetWmStateAtoms) -> int {
    if a == atoms.focused {
        0
    } else if a == atoms.fullscreen {
        1
    } else if a == atoms.maximized_vert {
        2
    } else if a == atoms.maximized_horz {
        3
    } else if a == atoms.hidden {
        4
    } else {
        -1
    }
}

/// Whether some atom of `words` sets flag `f`.
pub open spec fn sets_flag(words: Seq<u32>, atoms: NetWmStateAtoms, f: int) -> bool {
    exists|k: int| 0 <= k < words.len() && state_flag(#[trigger] words[k], atoms) == f
}

/// The state that the atoms `words` of `_NET_WM_STATE` describe.
pub open spec fn net_wm_state_of(words: Seq<u32>, atoms: NetWmStateAtoms) -> NetWmState {
    NetWmState {
        active: sets_flag(words, atoms, 0),
        fullscreen: sets_flag(words, atoms, 1),
        maximized_vertical: sets_flag(words, atoms, 2),
        maximized_horizontal: sets_flag(words, atoms, 3),
        hidden: sets_flag(words, atoms, 4),
    }
}

/// The state that the atoms of `_NET_WM_STATE` describe; every flag that no
/// atom names is off.
pub fn net_wm_state_from_words(words: &Vec<u32>, atoms: &NetWmStateAtoms) -> (r: NetWmState)
    ensures
        r == net_wm_state_of(words@, *atoms),
        r.active == (exists|k: int| 0 <= k < words@.len() && #[trigger] words@[k] == atoms.focused),
        r.fullscreen == (exists|k: int|
            0 <= k < words@.len() && #[trigger] words@[k] == atoms.fullscreen && words@[k]
                != atoms.focused),
        r.maximized_vertical == (exists|k: int|
            0 <= k < words@.len() && #[trigger] words@[k] == atoms.maximized_vert && words@[k]
                != atoms.focused && words@[k] != atoms.fullscreen),
        r.maximized_horizontal == (exists|k: int|
            0 <= k < words@.len() && #[trigger] words@[k] == atoms.maximized_horz && words@[k]
                != atoms.focused && words@[k] != atoms.fullscreen && words@[k] != atoms.maximized_vert),
        r.hidden == (exists|k: int|
            0 <= k < words@.len() && #[trigger] words@[k] == atoms.hidden && words@[k] != atoms.focused
                && words@[k] != atoms.fullscreen && words@[k] != atoms.maximized_vert && words@[k]
                != atoms.maximized_horz),
{
    let mut state = NetWmState {
        active: false,
        fullscreen: false,
        maximized_vertical: false,
        maximized_horizontal: false,
        hidden: false,
    };
    let mut i: usize = 0;
    while i < words.len()
        invariant
            i <= words@.len(),
            state == net_wm_state_of(words@.subrange(0, i as int), *atoms),
        decreases words@.len() - i,
    {
        let a = words[i];
        if a == atoms.focused {
            state.active = true;
        } else if a == atoms.fullscreen {
            state.fullscreen = true;
        } else if a == atoms.maximized_vert {
            state.maximized_vertical = true;
        } else if a == atoms.maximized_horz {
            state.maximized_horizontal = true;
        } else if a == atoms.hidden {
            state.hidden = true;
        }
        proof {
            let pre = words@.subrange(0, i as int);
            let post = words@.subrange(0, i + 1);
            assert(post == pre.push(a));
            assert forall|f: int| #[trigger] sets_flag(post, *atoms, f) == (sets_flag(pre, *atoms, f)
                || state_flag(a, *atoms) == f) by {
                if sets_flag(post, *atoms, f) && !sets_flag(pre, *atoms, f) {
                    let k = choose|k: int| 0 <= k < post.len() && state_flag(#[trigger] post[k], *atoms) == f;
                    if k < pre.len() {
                        assert(pre[k] == post[k]);
                    }
                }
                if sets_flag(pre, *atoms, f) {
                    let k = choose|k: int| 0 <= k < pre.len() && state_flag(#[trigger] pre[k], *atoms) == f;
                    assert(post[k] == pre[k]);
                }
                if state_flag(a, *atoms) == f {
                    assert(post[i as int] == a);
                }
            }
        }
        i = i + 1;
    }
    proof {
        assert(words@.subrange(0, words@.len() as int) == words@);
        law_net_wm_state_atoms(words@, *atoms);
    }
    state
}

/// Each flag of the state that `_NET_WM_STATE` describes is set exactly
/// when one of its atoms is its own atom, checked in the order focused,
/// fullscreen, maximized vertically, maximized horizontally, hidden: an atom
/// that equals an earlier one in that order sets only the earlier flag.
pub proof fn law_net_wm_state_atoms(words: Seq<u32>, atoms: NetWmStateAtoms)
    ensures
        net_wm_state_of(words, atoms).active == (exists|k: int|
            0 <= k < words.len() && #[trigger] words[k] == atoms.focused),
        net_wm_state_of(words, atoms).fullscreen == (exists|k: int|
            0 <= k < words.len() && #[trigger] words[k] == atoms.fullscreen && words[k]
                != atoms.focused),
        net_wm_state_of(words, atoms).maximized_vertical == (exists|k: int|
            0 <= k < words.len() && #[trigger] words[k] == atoms.maximized_vert && words[k]
                != atoms.focused && words[k] != atoms.fullscreen),
        net_wm_state_of(words, atoms).maximized_horizontal == (exists|k: int|
            0 <= k < words.len() && #[trigger] words[k] == atoms.maximized_horz && words[k]
                != atoms.focused && words[k] != atoms.fullscreen && words[k] != atoms.maximized_vert),
        net_wm_state_of(words, atoms).hidden == (exists|k: int|
            0 <= k < words.len() && #[trigger] words[k] == atoms.hidden && words[k] != atoms.focused
                && words[k] != atoms.fullscreen && words[k] != atoms.maximized_vert && words[k]
                != atoms.maximized_horz),
{
}

/// With distinct atoms, as the X server interns them, each flag is set
/// exactly when its own atom is among the words.
pub proof fn law_net_wm_state_distinct_atoms(words: Seq<u32>, atoms: NetWmStateAtoms)
    requires
        atoms.focused != atoms.fullscreen,
        atoms.focused != atoms.maximized_vert,
        atoms.focused != atoms.maximized_horz,
        atoms.focused != atoms.hidden,
        atoms.fullscreen != atoms.maximized_vert,
        atoms.fullscreen != atoms.maximized_horz,
        atoms.fullscreen != atoms.hidden,
        atoms.maximized_vert != atoms.maximized_horz,
        atoms.maximized_vert != atoms.hidden,
        atoms.maximized_horz != atoms.hidden,
    ensures
        net_wm_state_of(words, atoms).active == words.contains(atoms.focused),
        net_wm_state_of(words, atoms).fullscreen == words.contains(atoms.fullscreen),
        net_wm_state_of(words, atoms).maximized_vertical == words.contains(atoms.maximized_vert),
        net_wm_state_of(words, atoms).maximized_horizontal == words.contains(atoms.maximized_horz),
        net_wm_state_of(words, atoms).hidden == words.contains(atoms.hidden),
{
    law_net_wm_state_atoms(words, atoms);
}

/// The state that a `_NET_WM_STATE` property value describes: its atoms are
/// all read in the machine's byte order.
pub fn net_wm_state(value: &[u8], atoms: &NetWmStateAtoms) -> (r: NetWmState)
    ensures
        exists|little_endian: bool|
            r == net_wm_state_of(#[trigger] words_in_order(value@, little_endian), *atoms),
{
    let words = extract_words(value);
    let r = net_wm_state_from_words(&words, atoms);
    proof {
        let le = choose|le: bool| words@ == #[trigger] words_in_order(value@, le);
        assert(r == net_wm_state_of(words_in_order(value@, le), *atoms));
    }
    r
}

/// The edge constraints of a `_GTK_EDGE_CONSTRAINTS` property value of
/// `value_len` items: none when the property is empty, else those of its
/// first word.
pub fn edge_constraints_from_property(value_len: u32, value: &[u8]) -> (r: Option<EdgeConstraints>)
    requires
        value_len != 0 ==> value@.len() >= 4,
    ensures
        value_len == 0 <==> r is None,
        r matches Some(e) ==> e == edge_constraints_of(le_word(value@.subrange(0, 4))) || e
            == edge_constraints_of(be_word(value@.subrange(0, 4))),
{
    if value_len == 0 {
        return None;
    }
    let words = extract_words(value);
    proof {
        let le = choose|le: bool| words@ == #[trigger] words_in_order(value@, le);
        assert(words@.len() >= 1);
        assert(words@[0] == word_of(value@.subrange(0, 4), le));
    }
    Some(EdgeConstraints::from_atom(words[0]))
}

/// The part of an X11 window's state that decides its decorations.
#[derive(Clone, Copy, Debug, PartialEq, Eq, Structural)]
pub struct X11DecorationState {
    /// Whether a compositor runs, so that the window can draw its own
    /// decorations with transparent corners.
    pub client_side_decorations_supported: bool,
    pub decorations: WindowDecorations,
    pub fullscreen: bool,
    pub edge_constraints: Option<EdgeConstraints>,
    pub maximized_vertical: bool,
    pub maximized_horizontal: bool,
}

/// The tiled edges of a window that draws its own decorations: all when
/// fullscreen, else those of the edge constraints when the window manager
/// gives them, else the maximized directions.
pub open spec fn x11_tiling(s: X11DecorationState) -> Tiling {
    if s.fullscreen {
        Tiling { top: true, left: true, right: true, bottom: true }
    } else {
        match s.edge_constraints {
            Some(e) => tiling_of(e),
            None => Tiling {
                top: s.maximized_vertical,
                bottom: s.maximized_vertical,
                left: s.maximized_horizontal,
                right: s.maximized_horizontal,
            },
        }
    }
}

/// A fullscreen window is tiled on every edge. Otherwise the window
/// manager's edge constraints decide, edge by edge; without them, a window
/// maximized vertically is tiled at the top and bottom, and one maximized
/// horizontally at the left and right.
pub proof fn law_x11_tiling_edges(s: X11DecorationState)
    ensures
        s.fullscreen ==> x11_tiling(s).top && x11_tiling(s).bottom && x11_tiling(s).left
            && x11_tiling(s).right,
        !s.fullscreen && s.edge_constraints is None ==> {
            &&& x11_tiling(s).top == s.maximized_vertical
            &&& x11_tiling(s).bottom == s.maximized_vertical
            &&& x11_tiling(s).left == s.maximized_horizontal
            &&& x11_tiling(s).right == s.maximized_horizontal
        },
        !s.fullscreen ==> (s.edge_constraints matches Some(e) ==> {
            &&& x11_tiling(s).top == e.top_tiled
            &&& x11_tiling(s).bottom == e.bottom_tiled
            &&& x11_tiling(s).left == e.left_tiled
            &&& x11_tiling(s).right == e.right_tiled
        }),
{
}

/// The frame extent of one edge: none when the edge is tiled.
pub open spec fn edge_inset(tiled: bool, dp: u32) -> u32 {
    if tiled {
        0
    } else {
        dp
    }
}

impl X11DecorationState {
    /// The decorations the window shows: the window manager's when no
    /// compositor runs or they were asked for, else the window's own with
    /// its tiled edges.
    pub fn window_decorations(&self) -> (r: Decorations)
        ensures
            r == (if !self.client_side_decorations_supported {
                Decorations::Server
            } else {
                match self.decorations {
                    WindowDecorations::Server => Decorations::Server,
                    WindowDecorations::Client => Decorations::Client { tiling: x11_tiling(*self) },
                }
            }),
    {
        if !self.client_side_decorations_supported {
            return Decorations::Server;
        }
        match self.decorations {
            WindowDecorations::Server => Decorations::Server,
            WindowDecorations::Client => {
                let tiling = if self.fullscreen {
                    Tiling::tiled()
                } else {
                    match self.edge_constraints {
                        Some(e) => e.to_tiling(),
                        None => Tiling {
                            top: self.maximized_vertical,
                            bottom: self.maximized_vertical,
                            left: self.maximized_horizontal,
                            right: self.maximized_horizontal,
                        },
                    }
                };
                Decorations::Client { tiling }
            },
        }
    }

    /// The `_GTK_FRAME_EXTENTS` of a client inset of `dp` device pixels, as
    /// left, right, top and bottom: none when fullscreen, none on the edges
    /// the window is tiled against.
    pub fn client_insets(&self, dp: u32) -> (r: [u32; 4])
        ensures
            r@ == (if self.fullscreen {
                seq![0u32, 0u32, 0u32, 0u32]
            } else {
                let t = x11_tiling(*self);
                seq![
                    edge_inset(t.left, dp),
                    edge_inset(t.right, dp),
                    edge_inset(t.top, dp),
                    edge_inset(t.bottom, dp),
                ]
            }),
    {
        if self.fullscreen {
            [0, 0, 0, 0]
        } else {
            match self.edge_constraints {
                Some(e) => {
                    let left = if e.left_tiled { 0 } else { dp };
                    let top = if e.top_tiled { 0 } else { dp };
                    let right = if e.right_tiled { 0 } else { dp };
                    let bottom = if e.bottom_tiled { 0 } else { dp };
                    [left, right, top, bottom]
                },
                None => {
                    let (left, right) = if self.maximized_horizontal {
                        (0, 0)
                    } else {
                        (dp, dp)
                    };
                    let (top, bottom) = if self.maximized_vertical {
                        (0, 0)
                    } else {
                        (dp, dp)
                    };
                    [left, right, top, bottom]
                },
            }
        }
    }

    /// The decorations a request ends with: without a compositor a window
    /// cannot draw its own, and falls back to the window manager's.
    pub fn effective_decorations(&self, requested: WindowDecorations) -> (r: WindowDecorations)
        ensures
            r == (if requested == WindowDecorations::Client
                && !self.client_side_decorations_supported {
                WindowDecorations::Server
            } else {
                requested
            }),
    {
        match requested {
            WindowDecorations::Client => if self.client_side_decorations_supported {
                WindowDecorations::Client
            } else {
                WindowDecorations::Server
            },
            WindowDecorations::Server => WindowDecorations::Server,
        }
    }
}

/// Whether an X11 window draws a see-through background.
pub fn x11_is_transparent(background: WindowBackgroundAppearance) -> (r: bool)
    ensures
        r == (background != WindowBackgroundAppearance::Opaque),
{
    match background {
        WindowBackgroundAppearance::Opaque => false,
        _ => true,
    }
}

/// A visual type of a screen depth, with its colour masks.
#[derive(Clone, Copy, Debug, PartialEq, Eq, Structural)]
pub struct VisualType {
    pub visual_id: u32,
    pub red_mask: u32,
    pub green_mask: u32,
    pub blue_mask: u32,
}

/// A depth a screen allows, with its visual types.
#[derive(Clone, Debug)]
pub struct DepthVisuals {
    pub depth: u8,
    pub visuals: Vec<VisualType>,
}

/// What a window needs to know of a screen to choose its visual.
#[derive(Clone, Debug)]
pub struct ScreenVisuals {
    pub root: u32,
    pub root_visual: u32,
    pub default_colormap: u32,
    pub root_depth: u8,
    pub black_pixel: u32,
    pub allowed_depths: Vec<DepthVisuals>,
}

/// A visual with its colormap (zero: to be created) and depth.
#[derive(Clone, Copy, Debug, PartialEq, Eq, Structural)]
pub struct Visual {
    pub id: u32,
    pub colormap: u32,
    pub depth: u8,
}

/// The visuals a window can be created with: the root window's, and the
/// first 24-bit true-colour visual without and with an alpha channel.
#[derive(Clone, Copy, Debug, PartialEq, Eq, Structural)]
pub struct VisualSet {
    pub inherit: Visual,
    pub opaque: Option<Visual>,
    pub transparent: Option<Visual>,
    pub root: u32,
    pub black_pixel: u32,
}

/// The visual types of a list of depths, in order, each as a visual with
/// its depth.
pub open spec fn visual_list(depths: Seq<DepthVisuals>) -> Seq<(VisualType, u8)>
    decreases depths.len(),
{
    if depths.len() == 0 {
        Seq::empty()
    } else {
        visual_list(depths.drop_last()) + depths.last().visuals@.map_values(
            |v: VisualType| (v, depths.last().depth),
        )
    }
}

/// A visual with 8-bit red, green and blue channels in that order.
pub open spec fn is_true_color(v: VisualType) -> bool {
    v.red_mask == 0xFF0000 && v.green_mask == 0xFF00 && v.blue_mask == 0xFF
}

/// Whether a true-colour visual of depth `depth` counts as having an alpha
/// channel: the bits of its depth differ from the 24 bits of its colour
/// masks, which is so at every depth but 24.
pub open spec fn has_alpha(depth: u8) -> bool {
    depth != 24
}

/// The first true-colour visual of the list with (or without) an alpha
/// channel.
pub open spec fn first_true_color(list: Seq<(VisualType, u8)>, alpha: bool) -> Option<Visual>
    decreases list.len(),
{
    if list.len() == 0 {
        None
    } else {
        match first_true_color(list.drop_last(), alpha) {
            Some(v) => Some(v),
            None => {
                let (t, d) = list.last();
                if is_true_color(t) && has_alpha(d) == alpha {
                    Some(Visual { id: t.visual_id, colormap: 0, depth: d })
                } else {
                    None
                }
            },
        }
    }
}

/// Chooses the visuals of a screen: the root visual with the default
/// colormap, and among the allowed depths in order the first 24-bit
/// true-colour visual without alpha (opaque) and the first with alpha
/// (transparent).
pub fn find_visuals(screen: &ScreenVisuals) -> (r: VisualSet)
    ensures
        r.inherit == (Visual {
            id: screen.root_visual,
            colormap: screen.default_colormap,
            depth: screen.root_depth,
        }),
        r.root == screen.root,
        r.black_pixel == screen.black_pixel,
        r.opaque == first_true_color(visual_list(screen.allowed_depths@), false),
        r.transparent == first_true_color(visual_list(screen.allowed_depths@), true),
{
    let mut opaque: Option<Visual> = None;
    let mut transparent: Option<Visual> = None;
    let ghost depths = screen.allowed_depths@;
    let mut i: usize = 0;
    while i < screen.allowed_depths.len()
        invariant
            depths == screen.allowed_depths@,
            i <= depths.len(),
            opaque == first_true_color(visual_list(depths.subrange(0, i as int)), false),
            transparent == first_true_color(visual_list(depths.subrange(0, i as int)), true),
        decreases depths.len() - i,
    {
        let depth_info = &screen.allowed_depths[i];
        let depth = depth_info.depth;
        let ghost before = visual_list(depths.subrange(0, i as int));
        let ghost these = depth_info.visuals@.map_values(|v: VisualType| (v, depth));
        let mut j: usize = 0;
        while j < depth_info.visuals.len()
            invariant
                j <= depth_info.visuals@.len(),
                these == depth_info.visuals@.map_values(|v: VisualType| (v, depth)),
                opaque == first_true_color(before + these.subrange(0, j as int), false),
                transparent == first_true_color(before + these.subrange(0, j as int), true),
            decreases depth_info.visuals@.len() - j,
        {
            let t = depth_info.visuals[j];
            let ghost pre = before + these.subrange(0, j as int);
            let ghost post = before + these.subrange(0, j + 1);
            proof {
                assert(post.drop_last() =~= pre);
                assert(post.last() == (t, depth));
            }
            if t.red_mask == 0xFF0000 && t.green_mask == 0xFF00 && t.blue_mask == 0xFF {
                let visual = Visual { id: t.visual_id, colormap: 0, depth };
                if depth == 24 {
                    if opaque.is_none() {
                        opaque = Some(visual);
                    }
                } else {
                    if transparent.is_none() {
                        transparent = Some(visual);
                    }
                }
            }
            j = j + 1;
        }
        proof {
            let next = depths.subrange(0, i + 1);
            assert(next.drop_last() =~= depths.subrange(0, i as int));
            assert(next.last() == *depth_info);
            assert(these.subrange(0, these.len() as int) =~= these);
        }
        i = i + 1;
    }
    proof {
        assert(depths.subrange(0, depths.len() as int) =~= depths);
    }
    VisualSet {
        inherit: Visual {
            id: screen.root_visual,
            colormap: screen.default_colormap,
            depth: screen.root_depth,
        },
        opaque,
        transparent,
        root: screen.root,
        black_pixel: screen.black_pixel,
    }
}

/// A pixel as the 32-bit ARGB cardinal of `_NET_WM_ICON`:
/// `(A << 24) | (R << 16) | (G << 8) | B`, whatever the host byte order.
pub open spec fn argb_cardinal(r: u8, g: u8, b: u8, a: u8) -> u32 {
    (a as int * 0x1000000 + r as int * 0x10000 + g as int * 0x100 + b as int) as u32
}

/// The ARGB cardinal of one pixel.
fn pixel_cardinal(r: u8, g: u8, b: u8, a: u8) -> (c: u32)
    ensures
        c == argb_cardinal(r, g, b, a),
{
    let c: u32 = ((a as u32) << 24) | ((r as u32) << 16) | ((g as u32) << 8) | (b as u32);
    assert(c == (a as u32) * 0x1000000 + (r as u32) * 0x10000 + (g as u32) * 0x100 + (b as u32))
        by (bit_vector)
        requires
            c == ((a as u32) << 24) | ((r as u32) << 16) | ((g as u32) << 8) | (b as u32),
    ;
    c
}

/// The `_NET_WM_ICON` value of an RGBA image: its width, its height, then
/// each pixel, row by row, as an ARGB cardinal.
pub fn net_wm_icon_data(width: u32, height: u32, rgba: &Vec<u8>) -> (r: Vec<u32>)
    requires
        rgba@.len() == 4 * width * height,
    ensures
        r@.len() == 2 + width * height,
        r@[0] == width,
        r@[1] == height,
        forall|k: int|
            0 <= k < width * height ==> #[trigger] r@[2 + k] == argb_cardinal(
                rgba@[4 * k],
                rgba@[4 * k + 1],
                rgba@[4 * k + 2],
                rgba@[4 * k + 3],
            ),
{
    let mut data: Vec<u32> = Vec::new();
    data.push(width);
    data.push(height);
    let len = rgba.len();
    let n = len / 4;
    proof {
        assert(4 * width * height == 4 * (width * height)) by (nonlinear_arith);
        assert(n == width * height);
    }
    let mut k: usize = 0;
    while k < n
        invariant
            n == rgba@.len() / 4,
            4 * n == rgba@.len(),
            len == rgba@.len(),
            k <= n,
            data@.len() == 2 + k,
            data@[0] == width,
            data@[1] == height,
            forall|j: int|
                0 <= j < k ==> #[trigger] data@[2 + j] == argb_cardinal(
                    rgba@[4 * j],
                    rgba@[4 * j + 1],
                    rgba@[4 * j + 2],
                    rgba@[4 * j + 3],
                ),
        decreases n - k,
    {
        assert(4 * k + 3 < len);
        let c = pixel_cardinal(rgba[4 * k], rgba[4 * k + 1], rgba[4 * k + 2], rgba[4 * k + 3]);
        data.push(c);
        k = k + 1;
    }
    data
}

/// The `WM_CLASS` value of an application id: the id as instance name, a
/// zero byte, and the id again as class name.
pub fn wm_class_data(app_id: &str) -> (r: Vec<u8>)
    ensures
        r@ == app_id.spec_bytes() + seq![0u8] + app_id.spec_bytes(),
{
    let bytes = app_id.as_bytes();
    let mut data: Vec<u8> = Vec::new();
    let mut round: usize = 0;
    while round < 2
        invariant
            bytes@ == app_id.spec_bytes(),
            round <= 2,
            round == 0 ==> data@ == Seq::<u8>::empty(),
            round == 1 ==> data@ == bytes@ + seq![0u8],
            round == 2 ==> data@ == bytes@ + seq![0u8] + bytes@,
        decreases 2 - round,
    {
        let ghost start = data@;
        let mut i: usize = 0;
        while i < bytes.len()
            invariant
                i <= bytes@.len(),
                data@ == start + bytes@.subrange(0, i as int),
            decreases bytes@.len() - i,
        {
            data.push(bytes[i]);
            proof {
                assert(start + bytes@.subrange(0, i + 1) =~= (start + bytes@.subrange(0, i as int)).push(
                    bytes@[i as int],
                ));
            }
            i = i + 1;
        }
        proof {
            assert(bytes@.subrange(0, bytes@.len() as int) =~= bytes@);
        }
        if round == 0 {
            data.push(0);
        }
        round = round + 1;
    }
    data
}

/// What a `_NET_WM_STATE` client message asks of a state.
#[derive(Clone, Copy, Debug, PartialEq, Eq, Structural)]
pub enum WmHintPropertyState {
    Remove,
    Add,
    Toggle,
}

/// The data of a `_NET_WM_STATE` client message: the action (remove 0, add
/// 1, toggle 2), the one or two states it changes, and source indication 1
/// (a normal application).
pub fn net_wm_state_message(action: WmHintPropertyState, prop1: u32, prop2: u32) -> (r: [u32; 5])
    ensures
        r@ == seq![
            match action {
                WmHintPropertyState::Remove => 0u32,
                WmHintPropertyState::Add => 1u32,
                WmHintPropertyState::Toggle => 2u32,
            },
            prop1,
            prop2,
            1u32,
            0u32,
        ],
{
    let code: u32 = match action {
        WmHintPropertyState::Remove => 0,
        WmHintPropertyState::Add => 1,
        WmHintPropertyState::Toggle => 2,
    };
    let r = [code, prop1, prop2, 1, 0];
    assert(r@ =~= seq![code, prop1, prop2, 1u32, 0u32]);
    r
}

/// The screen a new window opens on: the one of the requested display,
/// else the main screen.
pub fn x11_screen_index(display_id: Option<u32>, main_screen_index: usize) -> (r: usize)
    ensures
        r == (match display_id {
            Some(d) => d as usize,
            None => main_screen_index,
        }),
{
    match display_id {
        Some(d) => d as usize,
        None => main_screen_index,
    }
}

/// The visual of a new window: the screen's transparent visual when it has
/// one, else the root window's; and whether a colormap has to be created
/// for it (it has none yet).
pub fn window_visual(set: &VisualSet) -> (r: (Visual, bool))
    ensures
        r.0 == (match set.transparent {
            Some(v) => v,
            None => set.inherit,
        }),
        r.1 == (r.0.colormap == 0),
{
    let visual = match set.transparent {
        Some(v) => v,
        None => set.inherit,
    };
    (visual, visual.colormap == 0)
}

/// A window rectangle in device pixels.
#[derive(Clone, Copy, Debug, PartialEq, Eq, Structural)]
pub struct DeviceBounds {
    pub x: i32,
    pub y: i32,
    pub width: i32,
    pub height: i32,
}

/// The rectangle a window is given when it is created: the requested one,
/// with 800 by 600 in place of a size without area.
pub fn initial_window_bounds(requested: DeviceBounds) -> (r: DeviceBounds)
    ensures
        r.x == requested.x,
        r.y == requested.y,
        (requested.width == 0 || requested.height == 0) ==> r.width == 800 && r.height == 600,
        !(requested.width == 0 || requested.height == 0) ==> r.width == requested.width && r.height
            == requested.height,
{
    let (width, height) = if requested.width == 0 || requested.height == 0 {
        (800, 600)
    } else {
        (requested.width, requested.height)
    };
    DeviceBounds { x: requested.x, y: requested.y, width, height }
}

/// The position `CreateWindow` is asked for: two pixels right of the
/// window's bounds.
pub fn creation_origin(bounds: DeviceBounds) -> (r: (i32, i32))
    requires
        bounds.x <= i32::MAX - 2,
    ensures
        r == ((bounds.x + 2) as i32, bounds.y),
{
    (bounds.x + 2, bounds.y)
}

/// The bounds of a new window once its geometry is known: when the server
/// placed it at the origin, the bounds move two pixels right and the window
/// is configured there, at the position it was created at; otherwise
/// nothing changes.
pub fn position_after_geometry(geometry_x: i16, geometry_y: i16, bounds: DeviceBounds) -> (r: Option<
    DeviceBounds,
>)
    requires
        bounds.x <= i32::MAX - 2,
    ensures
        (geometry_x == 0 && geometry_y == 0) ==> r == Some(DeviceBounds { x: (bounds.x + 2) as i32, ..bounds }),
        !(geometry_x == 0 && geometry_y == 0) ==> r is None,
{
    if geometry_x == 0 && geometry_y == 0 {
        Some(DeviceBounds { x: bounds.x + 2, ..bounds })
    } else {
        None
    }
}

/// What follows the setup of a newly created window.
#[derive(Clone, Copy, Debug, PartialEq, Eq, Structural)]
pub enum SetupCleanup {
    /// The setup succeeded: the window is kept.
    Keep,
    /// A setup step failed: the half-built window is destroyed and the
    /// connection flushed.
    DestroyAndFlush,
}

/// Whether a window whose setup ended with `setup` is kept or destroyed.
pub fn setup_cleanup<T, E>(setup: &Result<T, E>) -> (r: SetupCleanup)
    ensures
        r == (if setup is Ok {
            SetupCleanup::Keep
        } else {
            SetupCleanup::DestroyAndFlush
        }),
{
    match setup {
        Ok(_) => SetupCleanup::Keep,
        Err(_) => SetupCleanup::DestroyAndFlush,
    }
}

/// What creating a window returns: the setup's own result, unless the
/// window had to be destroyed after a failed setup (`destroyed` is the
/// outcome of that request, `None` when none was made) and destroying it
/// failed too, which is then the error returned.
pub fn creation_result<T, E>(setup: Result<T, E>, destroyed: Option<Result<(), E>>) -> (r: Result<
    T,
    E,
>)
    ensures
        r == (match destroyed {
            Some(Err(e)) => Err(e),
            _ => setup,
        }),
{
    match destroyed {
        Some(Err(e)) => Err(e),
        _ => setup,
    }
}

/// The window-manager properties a window kind adds when the window is
/// created.
#[derive(Clone, Copy, Debug, PartialEq, Eq, Structural)]
pub struct KindProperties {
    /// `WM_TRANSIENT_FOR`: the parent of a floating window, when it has one.
    pub transient_for: Option<u32>,
    /// `_NET_WM_STATE_ABOVE`: an overlay stays above other windows.
    pub state_above: bool,
}

/// The properties a window kind adds: a floating window is transient for
/// its parent, an overlay is kept above.
pub fn kind_properties(kind: WindowKind, parent: Option<u32>) -> (r: KindProperties)
    ensures
        r.transient_for == (if kind == WindowKind::Floating { parent } else { None }),
        r.state_above == (kind == WindowKind::Overlay),
{
    match kind {
        WindowKind::Floating => KindProperties { transient_for: parent, state_above: false },
        WindowKind::Overlay => KindProperties { transient_for: None, state_above: true },
        _ => KindProperties { transient_for: None, state_above: false },
    }
}

} // verus!
