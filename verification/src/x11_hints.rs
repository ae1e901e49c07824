//! X11 window-manager hints: the EWMH window type of a window kind, the
//! `_NET_WM_MOVERESIZE` direction of a resize edge, the tiling read from
//! `_GTK_EDGE_CONSTRAINTS`, the Motif hints and the normal size hints.

use vstd::prelude::*;
use crate::window::{ResizeEdge, Tiling, WindowDecorations, WindowKind};

verus! {

/// The EWMH window types used for the window kinds.
#[derive(Clone, Copy, Debug, PartialEq, Eq, Structural)]
pub enum X11WindowType {
    Normal,
    Notification,
    Dialog,
    Dock,
}

/// The error of a window kind that X11 cannot create: layer-shell surfaces
/// exist only on Wayland.
#[derive(Clone, Copy, Debug, PartialEq, Eq, Structural)]
pub struct LayerShellNotSupportedError;

/// The EWMH window type of a window kind; layer-shell windows are rejected
/// before any X11 window is created.
pub fn window_type_for_kind(kind: &WindowKind) -> (r: X11WindowType)
    requires
        *kind != WindowKind::LayerShell,
    ensures
        r == match *kind {
            WindowKind::Normal => X11WindowType::Normal,
            WindowKind::PopUp => X11WindowType::Notification,
            WindowKind::Floating => X11WindowType::Dialog,
            _ => X11WindowType::Dock,
        },
{
    match kind {
        WindowKind::Normal => X11WindowType::Normal,
        WindowKind::PopUp => X11WindowType::Notification,
        WindowKind::Floating => X11WindowType::Dialog,
        WindowKind::Overlay => X11WindowType::Dock,
        WindowKind::LayerShell => X11WindowType::Dock,
    }
}

/// Rejects the window kinds that X11 cannot create.
pub fn ensure_window_kind_supported(kind: &WindowKind) -> (r: Result<(), LayerShellNotSupportedError>)
    ensures
        r is Err <==> *kind == WindowKind::LayerShell,
{
    if *kind == WindowKind::LayerShell {
        return Err(LayerShellNotSupportedError);
    }
    Ok(())
}

/// The `_NET_WM_MOVERESIZE` direction of a resize edge.
pub open spec fn moveresize_direction(edge: ResizeEdge) -> u32 {
    match edge {
        ResizeEdge::TopLeft => 0,
        ResizeEdge::Top => 1,
        ResizeEdge::TopRight => 2,
        ResizeEdge::Right => 3,
        ResizeEdge::BottomRight => 4,
        ResizeEdge::Bottom => 5,
        ResizeEdge::BottomLeft => 6,
        ResizeEdge::Left => 7,
    }
}

impl ResizeEdge {
    /// The `_NET_WM_MOVERESIZE` direction of this edge.
    pub fn to_moveresize(self) -> (r: u32)
        ensures
            r == moveresize_direction(self),
    {
        match self {
            ResizeEdge::TopLeft => 0,
            ResizeEdge::Top => 1,
            ResizeEdge::TopRight => 2,
            ResizeEdge::Right => 3,
            ResizeEdge::BottomRight => 4,
            ResizeEdge::Bottom => 5,
            ResizeEdge::BottomLeft => 6,
            ResizeEdge::Left => 7,
        }
    }
}

/// Each resize edge has its own direction, and the directions are the eight
/// resize directions `0..8` of the specification.
pub proof fn lemma_moveresize_directions_distinct(a: ResizeEdge, b: ResizeEdge)
    ensures
        moveresize_direction(a) < 8,
        moveresize_direction(a) == moveresize_direction(b) ==> a == b,
{
}

/// The `_NET_WM_MOVERESIZE` directions of the EWMH specification: size
/// top-left 0, top 1, top-right 2, right 3, bottom-right 4, bottom 5,
/// bottom-left 6, left 7; going clockwise from the top-left corner, each
/// edge's direction is one more than the previous one.
pub proof fn law_moveresize_direction_values()
    ensures
        moveresize_direction(ResizeEdge::TopLeft) == 0,
        moveresize_direction(ResizeEdge::Top) == 1,
        moveresize_direction(ResizeEdge::TopRight) == 2,
        moveresize_direction(ResizeEdge::Right) == 3,
        moveresize_direction(ResizeEdge::BottomRight) == 4,
        moveresize_direction(ResizeEdge::Bottom) == 5,
        moveresize_direction(ResizeEdge::BottomLeft) == 6,
        moveresize_direction(ResizeEdge::Left) == 7,
{
}

/// Whether bit `i` of `atom` is set.
pub open spec fn bit_set(atom: u32, i: u32) -> bool {
    atom & (1u32 << i) != 0
}

/// The tiled and resizable flags of each edge, from `_GTK_EDGE_CONSTRAINTS`.
#[derive(Clone, Copy, Debug, PartialEq, Eq, Structural)]
pub struct EdgeConstraints {
    pub top_tiled: bool,
    pub top_resizable: bool,
    pub right_tiled: bool,
    pub right_resizable: bool,
    pub bottom_tiled: bool,
    pub bottom_resizable: bool,
    pub left_tiled: bool,
    pub left_resizable: bool,
}

/// The edge constraints a `_GTK_EDGE_CONSTRAINTS` value stands for.
pub open spec fn edge_constraints_of(atom: u32) -> EdgeConstraints {
    EdgeConstraints {
        top_tiled: bit_set(atom, 0),
        top_resizable: bit_set(atom, 1),
        right_tiled: bit_set(atom, 2),
        right_resizable: bit_set(atom, 3),
        bottom_tiled: bit_set(atom, 4),
        bottom_resizable: bit_set(atom, 5),
        left_tiled: bit_set(atom, 6),
        left_resizable: bit_set(atom, 7),
    }
}

/// `_GTK_EDGE_CONSTRAINTS` bits: top tiled is `0x1`, top resizable `0x2`,
/// right tiled `0x4`, right resizable `0x8`, bottom tiled `0x10`, bottom
/// resizable `0x20`, left tiled `0x40` and left resizable `0x80`; higher
/// bits are ignored.
pub proof fn law_edge_constraint_bits(atom: u32)
    ensures
        edge_constraints_of(atom).top_tiled == (atom & 0x1u32 != 0),
        edge_constraints_of(atom).top_resizable == (atom & 0x2u32 != 0),
        edge_constraints_of(atom).right_tiled == (atom & 0x4u32 != 0),
        edge_constraints_of(atom).right_resizable == (atom & 0x8u32 != 0),
        edge_constraints_of(atom).bottom_tiled == (atom & 0x10u32 != 0),
        edge_constraints_of(atom).bottom_resizable == (atom & 0x20u32 != 0),
        edge_constraints_of(atom).left_tiled == (atom & 0x40u32 != 0),
        edge_constraints_of(atom).left_resizable == (atom & 0x80u32 != 0),
        edge_constraints_of(atom) == edge_constraints_of(atom & 0xffu32),
{
    assert({
        &&& (atom & (1u32 << 0u32)) == (atom & 0x1u32)
        &&& (atom & (1u32 << 1u32)) == (atom & 0x2u32)
        &&& (atom & (1u32 << 2u32)) == (atom & 0x4u32)
        &&& (atom & (1u32 << 3u32)) == (atom & 0x8u32)
        &&& (atom & (1u32 << 4u32)) == (atom & 0x10u32)
        &&& (atom & (1u32 << 5u32)) == (atom & 0x20u32)
        &&& (atom & (1u32 << 6u32)) == (atom & 0x40u32)
        &&& (atom & (1u32 << 7u32)) == (atom & 0x80u32)
        &&& ((atom & 0xffu32) & 0x1u32) == (atom & 0x1u32)
        &&& ((atom & 0xffu32) & 0x2u32) == (atom & 0x2u32)
        &&& ((atom & 0xffu32) & 0x4u32) == (atom & 0x4u32)
        &&& ((atom & 0xffu32) & 0x8u32) == (atom & 0x8u32)
        &&& ((atom & 0xffu32) & 0x10u32) == (atom & 0x10u32)
        &&& ((atom & 0xffu32) & 0x20u32) == (atom & 0x20u32)
        &&& ((atom & 0xffu32) & 0x40u32) == (atom & 0x40u32)
        &&& ((atom & 0xffu32) & 0x80u32) == (atom & 0x80u32)
        &&& ((atom & 0xffu32) & (1u32 << 0u32)) == (atom & 0x1u32)
        &&& ((atom & 0xffu32) & (1u32 << 1u32)) == (atom & 0x2u32)
        &&& ((atom & 0xffu32) & (1u32 << 2u32)) == (atom & 0x4u32)
        &&& ((atom & 0xffu32) & (1u32 << 3u32)) == (atom & 0x8u32)
        &&& ((atom & 0xffu32) & (1u32 << 4u32)) == (atom & 0x10u32)
        &&& ((atom & 0xffu32) & (1u32 << 5u32)) == (atom & 0x20u32)
        &&& ((atom & 0xffu32) & (1u32 << 6u32)) == (atom & 0x40u32)
        &&& ((atom & 0xffu32) & (1u32 << 7u32)) == (atom & 0x80u32)
    }) by (bit_vector);
}

/// The tiled edges of edge constraints.
pub open spec fn tiling_of(e: EdgeConstraints) -> Tiling {
    Tiling { top: e.top_tiled, left: e.left_tiled, right: e.right_tiled, bottom: e.bottom_tiled }
}

impl EdgeConstraints {
    /// Decodes the bit mask: bits 0 to 7 are top tiled, top resizable,
    /// right tiled, right resizable, bottom tiled, bottom resizable, left
    /// tiled and left resizable.
    pub fn from_atom(atom: u32) -> (r: Self)
        ensures
            r == edge_constraints_of(atom),
            r.top_tiled == bit_set(atom, 0),
            r.top_resizable == bit_set(atom, 1),
            r.right_tiled == bit_set(atom, 2),
            r.right_resizable == bit_set(atom, 3),
            r.bottom_tiled == bit_set(atom, 4),
            r.bottom_resizable == bit_set(atom, 5),
            r.left_tiled == bit_set(atom, 6),
            r.left_resizable == bit_set(atom, 7),
    {
        EdgeConstraints {
            top_tiled: (atom & (1 << 0)) != 0,
            top_resizable: (atom & (1 << 1)) != 0,
            right_tiled: (atom & (1 << 2)) != 0,
            right_resizable: (atom & (1 << 3)) != 0,
            bottom_tiled: (atom & (1 << 4)) != 0,
            bottom_resizable: (atom & (1 << 5)) != 0,
            left_tiled: (atom & (1 << 6)) != 0,
            left_resizable: (atom & (1 << 7)) != 0,
        }
    }

    /// The tiled edges.
    pub fn to_tiling(&self) -> (r: Tiling)
        ensures
            r == tiling_of(*self),
            r.top == self.top_tiled,
            r.right == self.right_tiled,
            r.bottom == self.bottom_tiled,
            r.left == self.left_tiled,
    {
        Tiling {
            top: self.top_tiled,
            right: self.right_tiled,
            bottom: self.bottom_tiled,
            left: self.left_tiled,
        }
    }
}

/// `_MOTIF_WM_HINTS` flag: the functions field is set.
pub const MWM_HINTS_FUNCTIONS: u32 = 1;
/// `_MOTIF_WM_HINTS` flag: the decorations field is set.
pub const MWM_HINTS_DECORATIONS: u32 = 2;
/// Motif function: all functions.
pub const MWM_FUNC_ALL: u32 = 1;
/// Motif function: move.
pub const MWM_FUNC_MOVE: u32 = 4;
/// Motif function: minimize.
pub const MWM_FUNC_MINIMIZE: u32 = 8;
/// Motif function: close.
pub const MWM_FUNC_CLOSE: u32 = 32;

/// The five words of `_MOTIF_WM_HINTS`: resizable windows allow every
/// function, fixed-size windows keep move, minimize and close; server-side
/// decorations are requested exactly when the decorations are the server's.
pub fn motif_hints_data(decorations: WindowDecorations, is_resizable: bool) -> (r: [u32; 5])
    ensures
        r@ == seq![
            MWM_HINTS_FUNCTIONS | MWM_HINTS_DECORATIONS,
            if is_resizable { MWM_FUNC_ALL } else { MWM_FUNC_MOVE | MWM_FUNC_MINIMIZE | MWM_FUNC_CLOSE },
            if decorations == WindowDecorations::Server { 1u32 } else { 0u32 },
            0u32,
            0u32,
        ],
{
    let flags = MWM_HINTS_FUNCTIONS | MWM_HINTS_DECORATIONS;
    let functions = if is_resizable {
        MWM_FUNC_ALL
    } else {
        MWM_FUNC_MOVE | MWM_FUNC_MINIMIZE | MWM_FUNC_CLOSE
    };
    let decorations = match decorations {
        WindowDecorations::Server => 1,
        WindowDecorations::Client => 0,
    };
    let r = [flags, functions, decorations, 0, 0];
    assert(r@ =~= seq![flags, functions, decorations, 0u32, 0u32]);
    r
}

/// `WM_NORMAL_HINTS` sizes in pixels: a program-specified size, a minimum
/// and a maximum.
#[derive(Clone, Copy, Debug, PartialEq, Eq)]
pub struct NormalSizeHints {
    pub size: Option<(i32, i32)>,
    pub min_size: Option<(i32, i32)>,
    pub max_size: Option<(i32, i32)>,
}

/// The normal size hints of a window: a non-resizable window is fixed at its
/// size (program-specified size, minimum and maximum); otherwise a minimum
/// size, when one is given, becomes the minimum. No hints are produced when
/// none is set.
pub fn normal_size_hints(is_resizable: bool, window_size: (i32, i32), window_min_size: Option<(i32, i32)>) -> (r: Option<NormalSizeHints>)
    ensures
        !is_resizable ==> r == Some(
            NormalSizeHints {
                size: Some(window_size),
                min_size: Some(window_size),
                max_size: Some(window_size),
            },
        ),
        is_resizable ==> r == match window_min_size {
            Some(m) => Some(NormalSizeHints { size: None, min_size: Some(m), max_size: None }),
            None => None,
        },
{
    let mut hints = NormalSizeHints { size: None, min_size: None, max_size: None };
    if let Some(size) = window_min_size {
        hints.min_size = Some(size);
    }
    if !is_resizable {
        hints.size = Some(window_size);
        hints.min_size = Some(window_size);
        hints.max_size = Some(window_size);
    }
    if hints.size.is_some() || hints.min_size.is_some() || hints.max_size.is_some() {
        Some(hints)
    } else {
        None
    }
}

/// The Motif hint flags are functions 1 and decorations 2; the Motif functions are all 1, move 4, minimize 8 and close 32.
pub proof fn law_x11_hints_constants()
    ensures
        MWM_HINTS_FUNCTIONS == 1,
        MWM_HINTS_DECORATIONS == 2,
        MWM_FUNC_ALL == 1,
        MWM_FUNC_MOVE == 4,
        MWM_FUNC_MINIMIZE == 8,
        MWM_FUNC_CLOSE == 32,
{
}

} // verus!
