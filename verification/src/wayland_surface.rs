//! Decisions of a Wayland window about its surface: the role it plays and
//! whether a layer surface has been configured, the decorations it shows,
//! the scale its buffers are drawn at, and how its opaque region and blur
//! are updated.

use vstd::prelude::*;
use crate::layer_shell::LayerShellProtocol;
use crate::window::{Decorations, ResizeEdge, Tiling, WindowBackgroundAppearance, WindowDecorations};

verus! {

/// The role of a window's surface: an `xdg_toplevel`, or a layer surface of
/// one of the two layer-shell protocols, configured or not.
#[derive(Clone, Copy, Debug, PartialEq, Eq, Structural)]
pub enum SurfaceRole {
    XdgToplevel,
    ExtLayer { configured: bool },
    WlrLayer { configured: bool },
}

impl SurfaceRole {
    /// Whether the surface is a layer surface.
    pub fn is_layer_shell(&self) -> (r: bool)
        ensures
            r == !(*self is XdgToplevel),
    {
        match self {
            SurfaceRole::XdgToplevel => false,
            _ => true,
        }
    }

    /// Whether the surface is a layer surface that has not been configured
    /// yet; such a surface must not be drawn.
    pub fn is_unconfigured_layer_shell(&self) -> (r: bool)
        ensures
            r == (*self == SurfaceRole::ExtLayer { configured: false } || *self
                == SurfaceRole::WlrLayer { configured: false }),
    {
        match self {
            SurfaceRole::ExtLayer { configured } => !*configured,
            SurfaceRole::WlrLayer { configured } => !*configured,
            SurfaceRole::XdgToplevel => false,
        }
    }

    /// Takes a layer-surface configure event of `protocol`: a layer surface
    /// of that protocol becomes configured and the event is acknowledged;
    /// any other surface ignores it.
    pub fn accept_layer_configure(&mut self, protocol: LayerShellProtocol) -> (r: bool)
        ensures
            r == (match (*old(self), protocol) {
                (SurfaceRole::ExtLayer { .. }, LayerShellProtocol::Ext) => true,
                (SurfaceRole::WlrLayer { .. }, LayerShellProtocol::Wlr) => true,
                _ => false,
            }),
            *final(self) == (if r {
                match protocol {
                    LayerShellProtocol::Ext => SurfaceRole::ExtLayer { configured: true },
                    LayerShellProtocol::Wlr => SurfaceRole::WlrLayer { configured: true },
                }
            } else {
                *old(self)
            }),
    {
        match (*self, protocol) {
            (SurfaceRole::ExtLayer { .. }, LayerShellProtocol::Ext) => {
                *self = SurfaceRole::ExtLayer { configured: true };
                true
            },
            (SurfaceRole::WlrLayer { .. }, LayerShellProtocol::Wlr) => {
                *self = SurfaceRole::WlrLayer { configured: true };
                true
            },
            _ => false,
        }
    }
}

/// The decorations a Wayland window shows: a layer surface draws its own,
/// untiled; a toplevel shows those it was configured with.
pub fn wayland_window_decorations(role: SurfaceRole, decorations: WindowDecorations, tiling: Tiling) -> (r:
    Decorations)
    ensures
        r == (if !(role is XdgToplevel) {
            Decorations::Client { tiling: Tiling { top: false, left: false, right: false, bottom: false } }
        } else {
            match decorations {
                WindowDecorations::Server => Decorations::Server,
                WindowDecorations::Client => Decorations::Client { tiling },
            }
        }),
{
    if role.is_layer_shell() {
        return Decorations::Client {
            tiling: Tiling { top: false, left: false, right: false, bottom: false },
        };
    }
    match decorations {
        WindowDecorations::Server => Decorations::Server,
        WindowDecorations::Client => Decorations::Client { tiling },
    }
}

/// The `zxdg_toplevel_decoration_v1.mode` wire value of client-side decorations.
pub const DECORATION_MODE_CLIENT_SIDE: u32 = 1;
/// The `zxdg_toplevel_decoration_v1.mode` wire value of server-side decorations.
pub const DECORATION_MODE_SERVER_SIDE: u32 = 2;

/// The decorations a decoration mode stands for.
pub open spec fn decorations_of_mode(mode: u32) -> Option<WindowDecorations> {
    if mode == DECORATION_MODE_CLIENT_SIDE {
        Some(WindowDecorations::Client)
    } else if mode == DECORATION_MODE_SERVER_SIDE {
        Some(WindowDecorations::Server)
    } else {
        None
    }
}

/// The `zxdg_toplevel_decoration_v1.mode` enumeration: client-side is 1,
/// server-side 2; other values ask for nothing.
pub proof fn law_decoration_mode_values(mode: u32)
    ensures
        (decorations_of_mode(mode) == Some(WindowDecorations::Client)) == (mode == 1),
        (decorations_of_mode(mode) == Some(WindowDecorations::Server)) == (mode == 2),
        decorations_of_mode(mode) is None == (mode != 1 && mode != 2),
{
}

/// The decorations a decoration `configure` event asks for; unknown modes
/// ask for nothing.
pub fn decorations_from_wire(mode: u32) -> (r: Option<WindowDecorations>)
    ensures
        r == decorations_of_mode(mode),
{
    if mode == DECORATION_MODE_CLIENT_SIDE {
        Some(WindowDecorations::Client)
    } else if mode == DECORATION_MODE_SERVER_SIDE {
        Some(WindowDecorations::Server)
    } else {
        None
    }
}

/// The decoration mode requested of the compositor.
pub fn decorations_to_wire(decorations: WindowDecorations) -> (r: u32)
    ensures
        decorations_of_mode(r) == Some(decorations),
{
    match decorations {
        WindowDecorations::Client => DECORATION_MODE_CLIENT_SIDE,
        WindowDecorations::Server => DECORATION_MODE_SERVER_SIDE,
    }
}

/// The `xdg_toplevel.resize_edge` wire value of an edge.
pub open spec fn xdg_resize_edge(edge: ResizeEdge) -> u32 {
    match edge {
        ResizeEdge::Top => 1,
        ResizeEdge::Bottom => 2,
        ResizeEdge::Left => 4,
        ResizeEdge::TopLeft => 5,
        ResizeEdge::BottomLeft => 6,
        ResizeEdge::Right => 8,
        ResizeEdge::TopRight => 9,
        ResizeEdge::BottomRight => 10,
    }
}

/// The `xdg_toplevel.resize_edge` enumeration: the value is the sum of
/// the edge bits top 1, bottom 2, left 4 and right 8 that the edge touches.
pub proof fn law_xdg_resize_edge_bits()
    ensures
        xdg_resize_edge(ResizeEdge::Top) == 1,
        xdg_resize_edge(ResizeEdge::Bottom) == 2,
        xdg_resize_edge(ResizeEdge::Left) == 4,
        xdg_resize_edge(ResizeEdge::Right) == 8,
        xdg_resize_edge(ResizeEdge::TopLeft) == 1 + 4,
        xdg_resize_edge(ResizeEdge::BottomLeft) == 2 + 4,
        xdg_resize_edge(ResizeEdge::TopRight) == 1 + 8,
        xdg_resize_edge(ResizeEdge::BottomRight) == 2 + 8,
{
}

impl ResizeEdge {
    /// The `xdg_toplevel.resize_edge` wire value of the edge.
    pub fn to_xdg(self) -> (r: u32)
        ensures
            r == xdg_resize_edge(self),
    {
        match self {
            ResizeEdge::Top => 1,
            ResizeEdge::Bottom => 2,
            ResizeEdge::Left => 4,
            ResizeEdge::TopLeft => 5,
            ResizeEdge::BottomLeft => 6,
            ResizeEdge::Right => 8,
            ResizeEdge::TopRight => 9,
            ResizeEdge::BottomRight => 10,
        }
    }
}

/// Whether a Wayland window draws a see-through surface: with its own
/// decorations (for their rounded corners and shadows) or a see-through
/// background.
pub fn wayland_is_transparent(decorations: WindowDecorations, background: WindowBackgroundAppearance) -> (r:
    bool)
    ensures
        r == (decorations == WindowDecorations::Client || background
            != WindowBackgroundAppearance::Opaque),
{
    match decorations {
        WindowDecorations::Client => true,
        WindowDecorations::Server => match background {
            WindowBackgroundAppearance::Opaque => false,
            _ => true,
        },
    }
}

/// What happens to the blur of a surface.
#[derive(Clone, Copy, Debug, PartialEq, Eq, Structural)]
pub enum BlurUpdate {
    /// No blur manager is offered: nothing.
    Unavailable,
    /// Create a blur object and commit it.
    CreateAndCommit,
    /// Commit the existing blur object.
    Commit,
    /// Unset the blur of the surface, releasing the blur object if any.
    Unset,
}

/// How a surface is updated after its decorations or background change.
#[derive(Clone, Copy, Debug, PartialEq, Eq, Structural)]
pub struct SurfaceUpdate {
    /// Whether the renderer draws with transparency.
    pub transparent: bool,
    /// Whether the window promises the compositor an opaque region.
    pub opaque_region: bool,
    pub blur: BlurUpdate,
}

/// The update of a surface: an opaque region only for an opaque window with
/// server-side decorations (rounded client-side corners are not
/// rectangles); a blur for a blurred background when the compositor offers
/// one, else none.
pub fn surface_update(
    decorations: WindowDecorations,
    background: WindowBackgroundAppearance,
    has_blur_manager: bool,
    has_blur: bool,
) -> (r: SurfaceUpdate)
    ensures
        r.transparent == (decorations == WindowDecorations::Client || background
            != WindowBackgroundAppearance::Opaque),
        r.opaque_region == (background == WindowBackgroundAppearance::Opaque && decorations
            == WindowDecorations::Server),
        r.blur == (if !has_blur_manager {
            BlurUpdate::Unavailable
        } else if background == WindowBackgroundAppearance::Blurred {
            if has_blur {
                BlurUpdate::Commit
            } else {
                BlurUpdate::CreateAndCommit
            }
        } else {
            BlurUpdate::Unset
        }),
{
    let transparent = wayland_is_transparent(decorations, background);
    let opaque_region = match (background, decorations) {
        (WindowBackgroundAppearance::Opaque, WindowDecorations::Server) => true,
        _ => false,
    };
    let blur = if !has_blur_manager {
        BlurUpdate::Unavailable
    } else {
        match background {
            WindowBackgroundAppearance::Blurred => if has_blur {
                BlurUpdate::Commit
            } else {
                BlurUpdate::CreateAndCommit
            },
            _ => BlurUpdate::Unset,
        }
    };
    SurfaceUpdate { transparent, opaque_region, blur }
}

/// The largest of the scales, and at least one.
pub open spec fn max_scale(scales: Seq<i32>) -> int
    decreases scales.len(),
{
    if scales.len() == 0 {
        1
    } else {
        let m = max_scale(scales.drop_last());
        if scales.last() > m {
            scales.last() as int
        } else {
            m
        }
    }
}

/// The scale a window is drawn at, from the outputs it is on (each an id
/// and a scale, in the order they are visited) and the display it was last
/// placed on: the largest output scale, at least one; and the display with
/// that scale, the last display when it has it (or no output has a larger
/// one), else the first output that has it.
pub fn primary_output_scale(outputs: &Vec<(u64, i32)>, current: Option<(u64, i32)>) -> (r: (
    i32,
    Option<(u64, i32)>,
))
    ensures
        r.0 == max_scale(outputs@.map_values(|o: (u64, i32)| o.1)),
        outputs@.len() == 0 ==> r.1 == current,
        r.1 matches Some(d) ==> (Some(d) == current || outputs@.contains(d)),
        r.1 matches Some(d) ==> forall|k: int| 0 <= k < outputs@.len() ==> (#[trigger] outputs@[k]).1 <= d.1,
        r.1 matches Some(d) ==> (current matches Some(c) ==> c.1 <= d.1),
        outputs@.len() > 0 ==> r.1 is Some,
        r.1 != current ==> exists|j: int|
            0 <= j < outputs@.len() && r.1 == Some(#[trigger] outputs@[j]) && (forall|k: int|
                0 <= k < j ==> (#[trigger] outputs@[k]).1 < outputs@[j].1) && (current matches Some(
                c,
            ) ==> c.1 < outputs@[j].1),
{
    let ghost scales = outputs@.map_values(|o: (u64, i32)| o.1);
    let mut scale: i32 = 1;
    let mut display = current;
    let mut i: usize = 0;
    while i < outputs.len()
        invariant
            i <= outputs@.len(),
            scales == outputs@.map_values(|o: (u64, i32)| o.1),
            scale == max_scale(scales.subrange(0, i as int)),
            i == 0 ==> display == current,
            i > 0 ==> display is Some,
            display matches Some(d) ==> (Some(d) == current || outputs@.subrange(0, i as int).contains(d)),
            display matches Some(d) ==> forall|k: int| 0 <= k < i ==> (#[trigger] outputs@[k]).1 <= d.1,
            display matches Some(d) ==> (current matches Some(c) ==> c.1 <= d.1),
            display != current ==> exists|j: int|
                0 <= j < i && display == Some(#[trigger] outputs@[j]) && (forall|k: int|
                    0 <= k < j ==> (#[trigger] outputs@[k]).1 < outputs@[j].1) && (current matches Some(
                    c,
                ) ==> c.1 < outputs@[j].1),
        decreases outputs@.len() - i,
    {
        let output = outputs[i];
        proof {
            assert(scales.subrange(0, i + 1).drop_last() =~= scales.subrange(0, i as int));
            assert(scales.subrange(0, i + 1).last() == output.1);
            assert(outputs@.subrange(0, i + 1) =~= outputs@.subrange(0, i as int).push(output));
        }
        let ghost before = display;
        match display {
            Some(d) => {
                if output.1 > d.1 {
                    display = Some(output);
                }
            },
            None => {
                display = Some(output);
            },
        }
        proof {
            if display != before {
                assert(display == Some(outputs@[i as int]));
                assert(forall|k: int| 0 <= k < i ==> (#[trigger] outputs@[k]).1 < outputs@[i as int].1);
            }
        }
        if output.1 > scale {
            scale = output.1;
        }
        proof {
            let pre = outputs@.subrange(0, i as int);
            let post = outputs@.subrange(0, i + 1);
            if let Some(d) = display {
                if d == output {
                    assert(post[i as int] == output);
                    assert(post.contains(d));
                } else if !(Some(d) == current) {
                    let k = choose|k: int| 0 <= k < pre.len() && pre[k] == d;
                    assert(post[k] == d);
                    assert(post.contains(d));
                }
            }
        }
        i = i + 1;
    }
    proof {
        assert(scales.subrange(0, outputs@.len() as int) =~= scales);
        assert(outputs@.subrange(0, outputs@.len() as int) =~= outputs@);
    }
    (scale, display)
}

/// The first `wl_surface` version whose compositor sends the preferred
/// buffer scale.
pub const PREFERRED_BUFFER_SCALE_SINCE: u32 = 6;

/// A change that may set the buffer scale of a surface.
#[derive(Clone, Copy, Debug, PartialEq, Eq, Structural)]
pub enum ScaleEvent {
    /// The surface entered or left an output; the primary output scale is now `scale`.
    OutputsChanged { scale: i32 },
    /// The compositor prefers the buffer scale `factor`.
    PreferredBufferScale { factor: i32 },
}

/// The buffer scale a surface takes after an event, if any: output changes
/// set it only where the compositor does not send a preferred scale, and a
/// preferred scale sets it only where no fractional scale is offered.
pub fn buffer_scale_after(event: ScaleEvent, surface_version: u32, has_fractional_scale: bool) -> (r:
    Option<i32>)
    ensures
        r == (match event {
            ScaleEvent::OutputsChanged { scale } => if surface_version < PREFERRED_BUFFER_SCALE_SINCE {
                Some(scale)
            } else {
                None
            },
            ScaleEvent::PreferredBufferScale { factor } => if !has_fractional_scale {
                Some(factor)
            } else {
                None
            },
        }),
{
    match event {
        ScaleEvent::OutputsChanged { scale } => if surface_version < PREFERRED_BUFFER_SCALE_SINCE {
            Some(scale)
        } else {
            None
        },
        ScaleEvent::PreferredBufferScale { factor } => if !has_fractional_scale {
            Some(factor)
        } else {
            None
        },
    }
}

/// The decoration modes are client-side 1 and server-side 2; the preferred buffer scale event exists from surface version 6.
pub proof fn law_wayland_surface_constants()
    ensures
        DECORATION_MODE_CLIENT_SIDE == 1,
        DECORATION_MODE_SERVER_SIDE == 2,
        PREFERRED_BUFFER_SCALE_SINCE == 6,
{
}

} // verus!
