//! Window descriptions shared by the platform backends: the kind of a
//! window, its decorations, the edges it is tiled against, the edge a
//! resize is started from, and the window-manager controls it offers.

use vstd::prelude::*;

verus! {

/// The kind of a window, which decides how the window manager treats it.
#[derive(Clone, Copy, Debug, PartialEq, Eq, Structural)]
pub enum WindowKind {
    /// A normal application window.
    Normal,
    /// A window that appears above other windows, usually a popup or notification.
    PopUp,
    /// A floating window such as a dialog.
    Floating,
    /// An always-on-top overlay window.
    Overlay,
    /// A Wayland layer-shell surface.
    LayerShell,
}

/// Who draws the window decorations.
#[derive(Clone, Copy, Debug, PartialEq, Eq, Structural)]
pub enum WindowDecorations {
    /// The window manager draws them.
    Server,
    /// The application draws them.
    Client,
}

/// The edges of a window that are tiled against other windows or the screen.
#[derive(Clone, Copy, Debug, Default, PartialEq, Eq, Structural)]
pub struct Tiling {
    pub top: bool,
    pub left: bool,
    pub right: bool,
    pub bottom: bool,
}

impl Tiling {
    /// Tiled on every edge.
    pub fn tiled() -> (r: Self)
        ensures
            r.top && r.left && r.right && r.bottom,
    {
        Tiling { top: true, left: true, right: true, bottom: true }
    }
}

/// The decorations a window shows: drawn by the window manager, or drawn by
/// the application with the given edges tiled.
#[derive(Clone, Copy, Debug, PartialEq, Eq, Structural)]
pub enum Decorations {
    Server,
    Client { tiling: Tiling },
}

/// How the background of a window is drawn.
#[derive(Clone, Copy, Debug, PartialEq, Eq, Structural)]
pub enum WindowBackgroundAppearance {
    /// Fully opaque.
    Opaque,
    /// See-through where the window draws nothing.
    Transparent,
    /// See-through and blurred where the window draws nothing.
    Blurred,
}

/// The edge or corner a resize is started from.
#[derive(Clone, Copy, Debug, PartialEq, Eq, Structural)]
pub enum ResizeEdge {
    Top,
    TopRight,
    Right,
    BottomRight,
    Bottom,
    BottomLeft,
    Left,
    TopLeft,
}

/// The window-manager controls a window offers.
#[derive(Clone, Copy, Debug, PartialEq, Eq, Structural)]
pub struct WindowControls {
    pub fullscreen: bool,
    pub maximize: bool,
    pub minimize: bool,
    pub window_menu: bool,
}

impl WindowControls {
    /// The controls assumed when the window manager does not say: all of them.
    pub fn all() -> (r: Self)
        ensures
            r.fullscreen && r.maximize && r.minimize && r.window_menu,
    {
        WindowControls { fullscreen: true, maximize: true, minimize: true, window_menu: true }
    }

    /// No control at all.
    pub fn none() -> (r: Self)
        ensures
            !r.fullscreen && !r.maximize && !r.minimize && !r.window_menu,
    {
        WindowControls { fullscreen: false, maximize: false, minimize: false, window_menu: false }
    }
}

} // verus!
