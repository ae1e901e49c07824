//! Interpretation of `xdg_toplevel` events: the window states and window
//! manager capabilities carried by configure events, and how a pending
//! configure is applied when the surface configure arrives.

use vstd::prelude::*;
use crate::window::{Tiling, WindowControls};
use crate::wire::{extract_words, words_in_order};

verus! {

/// The `xdg_toplevel.state` values this backend acts on.
#[derive(Clone, Copy, Debug, PartialEq, Eq, Structural)]
pub enum ToplevelState {
    Maximized,
    Fullscreen,
    Resizing,
    Activated,
    TiledLeft,
    TiledRight,
    TiledTop,
    TiledBottom,
    Suspended,
}

/// The `xdg_toplevel.wm_capabilities` values.
#[derive(Clone, Copy, Debug, PartialEq, Eq, Structural)]
pub enum WmCapability {
    WindowMenu,
    Maximize,
    Fullscreen,
    Minimize,
}

/// The state a wire value stands for in the `xdg-shell` protocol.
pub open spec fn toplevel_state_of(v: u32) -> Option<ToplevelState> {
    if v == 1 {
        Some(ToplevelState::Maximized)
    } else if v == 2 {
        Some(ToplevelState::Fullscreen)
    } else if v == 3 {
        Some(ToplevelState::Resizing)
    } else if v == 4 {
        Some(ToplevelState::Activated)
    } else if v == 5 {
        Some(ToplevelState::TiledLeft)
    } else if v == 6 {
        Some(ToplevelState::TiledRight)
    } else if v == 7 {
        Some(ToplevelState::TiledTop)
    } else if v == 8 {
        Some(ToplevelState::TiledBottom)
    } else if v == 9 {
        Some(ToplevelState::Suspended)
    } else {
        None
    }
}

/// The capability a wire value stands for in the `xdg-shell` protocol.
pub open spec fn wm_capability_of(v: u32) -> Option<WmCapability> {
    if v == 1 {
        Some(WmCapability::WindowMenu)
    } else if v == 2 {
        Some(WmCapability::Maximize)
    } else if v == 3 {
        Some(WmCapability::Fullscreen)
    } else if v == 4 {
        Some(WmCapability::Minimize)
    } else {
        None
    }
}

/// The state a wire value stands for, if any.
pub fn toplevel_state_from_wire(v: u32) -> (r: Option<ToplevelState>)
    ensures
        r == toplevel_state_of(v),
        (r == Some(ToplevelState::Maximized)) == (v == 1),
        (r == Some(ToplevelState::Fullscreen)) == (v == 2),
        (r == Some(ToplevelState::Resizing)) == (v == 3),
        (r == Some(ToplevelState::Activated)) == (v == 4),
        (r == Some(ToplevelState::TiledLeft)) == (v == 5),
        (r == Some(ToplevelState::TiledRight)) == (v == 6),
        (r == Some(ToplevelState::TiledTop)) == (v == 7),
        (r == Some(ToplevelState::TiledBottom)) == (v == 8),
        (r == Some(ToplevelState::Suspended)) == (v == 9),
        r is None == (v == 0 || v > 9),
{
    proof {
        law_toplevel_state_wire_values(v);
    }
    match v {
        1 => Some(ToplevelState::Maximized),
        2 => Some(ToplevelState::Fullscreen),
        3 => Some(ToplevelState::Resizing),
        4 => Some(ToplevelState::Activated),
        5 => Some(ToplevelState::TiledLeft),
        6 => Some(ToplevelState::TiledRight),
        7 => Some(ToplevelState::TiledTop),
        8 => Some(ToplevelState::TiledBottom),
        9 => Some(ToplevelState::Suspended),
        _ => None,
    }
}

/// The `xdg_toplevel.state` enumeration of the `xdg-shell` protocol:
/// maximized is 1, fullscreen 2, resizing 3, activated 4, tiled left 5,
/// tiled right 6, tiled top 7, tiled bottom 8 and suspended 9; every other
/// value names no state this backend knows.
pub proof fn law_toplevel_state_wire_values(v: u32)
    ensures
        (toplevel_state_of(v) == Some(ToplevelState::Maximized)) == (v == 1),
        (toplevel_state_of(v) == Some(ToplevelState::Fullscreen)) == (v == 2),
        (toplevel_state_of(v) == Some(ToplevelState::Resizing)) == (v == 3),
        (toplevel_state_of(v) == Some(ToplevelState::Activated)) == (v == 4),
        (toplevel_state_of(v) == Some(ToplevelState::TiledLeft)) == (v == 5),
        (toplevel_state_of(v) == Some(ToplevelState::TiledRight)) == (v == 6),
        (toplevel_state_of(v) == Some(ToplevelState::TiledTop)) == (v == 7),
        (toplevel_state_of(v) == Some(ToplevelState::TiledBottom)) == (v == 8),
        (toplevel_state_of(v) == Some(ToplevelState::Suspended)) == (v == 9),
        toplevel_state_of(v) is None == (v == 0 || v > 9),
{
}

/// The `xdg_toplevel.wm_capabilities` enumeration of the `xdg-shell`
/// protocol: window menu is 1, maximize 2, fullscreen 3 and minimize 4;
/// every other value names no capability.
pub proof fn law_wm_capability_wire_values(v: u32)
    ensures
        (wm_capability_of(v) == Some(WmCapability::WindowMenu)) == (v == 1),
        (wm_capability_of(v) == Some(WmCapability::Maximize)) == (v == 2),
        (wm_capability_of(v) == Some(WmCapability::Fullscreen)) == (v == 3),
        (wm_capability_of(v) == Some(WmCapability::Minimize)) == (v == 4),
        wm_capability_of(v) is None == (v == 0 || v > 4),
{
}

/// A state is among the words exactly when its wire value is.
proof fn lemma_has_state_is_word(states: Seq<u32>, s: ToplevelState, code: u32)
    requires
        forall|v: u32| (toplevel_state_of(v) == Some(s)) == (v == code),
    ensures
        has_state(states, s) == states.contains(code),
{
    if has_state(states, s) {
        let k = choose|k: int| 0 <= k < states.len() && toplevel_state_of(#[trigger] states[k]) == Some(s);
        assert(states[k] == code);
    }
    if states.contains(code) {
        let k = choose|k: int| 0 <= k < states.len() && states[k] == code;
        assert(toplevel_state_of(states[k]) == Some(s));
    }
}

/// The configure of a `configure` event reads its states by their wire
/// values: maximized (1), fullscreen (2) and resizing (3) are flags of
/// their own; an edge is tiled when its tiled state is among the words,
/// left (5), right (6), top (7) or bottom (8), or when the window is
/// maximized or fullscreen.
pub proof fn law_configure_reads_wire_values(states: Seq<u32>, r: InProgressConfigure)
    requires
        r.maximized == has_state(states, ToplevelState::Maximized),
        r.fullscreen == has_state(states, ToplevelState::Fullscreen),
        r.resizing == has_state(states, ToplevelState::Resizing),
        r.fullscreen || r.maximized ==> r.tiling == (Tiling {
            top: true,
            left: true,
            right: true,
            bottom: true,
        }),
        !(r.fullscreen || r.maximized) ==> r.tiling == (Tiling {
            top: has_state(states, ToplevelState::TiledTop),
            left: has_state(states, ToplevelState::TiledLeft),
            right: has_state(states, ToplevelState::TiledRight),
            bottom: has_state(states, ToplevelState::TiledBottom),
        }),
    ensures
        r.maximized == states.contains(1u32),
        r.fullscreen == states.contains(2u32),
        r.resizing == states.contains(3u32),
        r.tiling.left == (states.contains(5u32) || states.contains(1u32) || states.contains(2u32)),
        r.tiling.right == (states.contains(6u32) || states.contains(1u32) || states.contains(2u32)),
        r.tiling.top == (states.contains(7u32) || states.contains(1u32) || states.contains(2u32)),
        r.tiling.bottom == (states.contains(8u32) || states.contains(1u32) || states.contains(2u32)),
{
    assert forall|v: u32| (toplevel_state_of(v) == Some(ToplevelState::Maximized)) == (v == 1) by {
        law_toplevel_state_wire_values(v);
    }
    assert forall|v: u32| (toplevel_state_of(v) == Some(ToplevelState::Fullscreen)) == (v == 2) by {
        law_toplevel_state_wire_values(v);
    }
    assert forall|v: u32| (toplevel_state_of(v) == Some(ToplevelState::Resizing)) == (v == 3) by {
        law_toplevel_state_wire_values(v);
    }
    assert forall|v: u32| (toplevel_state_of(v) == Some(ToplevelState::TiledLeft)) == (v == 5) by {
        law_toplevel_state_wire_values(v);
    }
    assert forall|v: u32| (toplevel_state_of(v) == Some(ToplevelState::TiledRight)) == (v == 6) by {
        law_toplevel_state_wire_values(v);
    }
    assert forall|v: u32| (toplevel_state_of(v) == Some(ToplevelState::TiledTop)) == (v == 7) by {
        law_toplevel_state_wire_values(v);
    }
    assert forall|v: u32| (toplevel_state_of(v) == Some(ToplevelState::TiledBottom)) == (v == 8) by {
        law_toplevel_state_wire_values(v);
    }
    lemma_has_state_is_word(states, ToplevelState::Maximized, 1);
    lemma_has_state_is_word(states, ToplevelState::Fullscreen, 2);
    lemma_has_state_is_word(states, ToplevelState::Resizing, 3);
    lemma_has_state_is_word(states, ToplevelState::TiledLeft, 5);
    lemma_has_state_is_word(states, ToplevelState::TiledRight, 6);
    lemma_has_state_is_word(states, ToplevelState::TiledTop, 7);
    lemma_has_state_is_word(states, ToplevelState::TiledBottom, 8);
}

/// The capability a wire value stands for, if any.
pub fn wm_capability_from_wire(v: u32) -> (r: Option<WmCapability>)
    ensures
        r == wm_capability_of(v),
{
    match v {
        1 => Some(WmCapability::WindowMenu),
        2 => Some(WmCapability::Maximize),
        3 => Some(WmCapability::Fullscreen),
        4 => Some(WmCapability::Minimize),
        _ => None,
    }
}

/// The states named by the words, in order; words that name no state are
/// skipped.
pub open spec fn known_states(words: Seq<u32>) -> Seq<ToplevelState>
    decreases words.len(),
{
    if words.len() == 0 {
        Seq::empty()
    } else {
        let before = known_states(words.drop_last());
        match toplevel_state_of(words.last()) {
            Some(state) => before.push(state),
            None => before,
        }
    }
}

/// The states of a `states` array of a configure event: its words in the
/// machine's byte order, each read as a state, unknown values skipped.
pub fn extract_states(bytes: &[u8]) -> (r: Vec<ToplevelState>)
    ensures
        exists|little_endian: bool|
            r@ == known_states(#[trigger] words_in_order(bytes@, little_endian)),
{
    let words = extract_words(bytes);
    let mut states: Vec<ToplevelState> = Vec::new();
    let mut i: usize = 0;
    while i < words.len()
        invariant
            i <= words@.len(),
            states@ == known_states(words@.subrange(0, i as int)),
        decreases words@.len() - i,
    {
        let state = toplevel_state_from_wire(words[i]);
        proof {
            assert(words@.subrange(0, i + 1).drop_last() =~= words@.subrange(0, i as int));
            assert(words@.subrange(0, i + 1).last() == words@[i as int]);
        }
        match state {
            Some(s) => states.push(s),
            None => {},
        }
        i = i + 1;
    }
    proof {
        assert(words@.subrange(0, words@.len() as int) =~= words@);
        let le = choose|le: bool| words@ == #[trigger] words_in_order(bytes@, le);
        assert(states@ == known_states(words_in_order(bytes@, le)));
    }
    states
}

/// A configure event of a toplevel that waits for the surface configure.
#[derive(Clone, Copy, Debug, PartialEq, Eq)]
pub struct InProgressConfigure {
    /// The configured size; `None` when the compositor leaves it to the client.
    pub size: Option<(i32, i32)>,
    pub fullscreen: bool,
    pub maximized: bool,
    pub resizing: bool,
    pub tiling: Tiling,
}

/// Whether some word of `states` stands for `s`.
pub open spec fn has_state(states: Seq<u32>, s: ToplevelState) -> bool {
    exists|k: int| 0 <= k < states.len() && toplevel_state_of(#[trigger] states[k]) == Some(s)
}

/// Whether some word of `caps` stands for `c`.
pub open spec fn has_capability(caps: Seq<u32>, c: WmCapability) -> bool {
    exists|k: int| 0 <= k < caps.len() && wm_capability_of(#[trigger] caps[k]) == Some(c)
}

/// The pending configure of a `configure` event: a size only when both
/// dimensions are set; the maximized, fullscreen, resizing and tiled edge
/// states found among the words; a maximized or fullscreen window counts
/// as tiled on every edge.
pub fn toplevel_configure(width: i32, height: i32, states: &Vec<u32>) -> (r: InProgressConfigure)
    ensures
        r.size == (if width == 0 || height == 0 { None } else { Some((width, height)) }),
        r.maximized == has_state(states@, ToplevelState::Maximized),
        r.fullscreen == has_state(states@, ToplevelState::Fullscreen),
        r.resizing == has_state(states@, ToplevelState::Resizing),
        r.fullscreen || r.maximized ==> r.tiling == (Tiling {
            top: true,
            left: true,
            right: true,
            bottom: true,
        }),
        !(r.fullscreen || r.maximized) ==> r.tiling == (Tiling {
            top: has_state(states@, ToplevelState::TiledTop),
            left: has_state(states@, ToplevelState::TiledLeft),
            right: has_state(states@, ToplevelState::TiledRight),
            bottom: has_state(states@, ToplevelState::TiledBottom),
        }),
        r.maximized == states@.contains(1u32),
        r.fullscreen == states@.contains(2u32),
        r.resizing == states@.contains(3u32),
        r.tiling.left == (states@.contains(5u32) || states@.contains(1u32) || states@.contains(2u32)),
        r.tiling.right == (states@.contains(6u32) || states@.contains(1u32) || states@.contains(2u32)),
        r.tiling.top == (states@.contains(7u32) || states@.contains(1u32) || states@.contains(2u32)),
        r.tiling.bottom == (states@.contains(8u32) || states@.contains(1u32) || states@.contains(
            2u32,
        )),
{
    let size = if width == 0 || height == 0 {
        None
    } else {
        Some((width, height))
    };
    let mut tiling = Tiling { top: false, left: false, right: false, bottom: false };
    let mut fullscreen = false;
    let mut maximized = false;
    let mut resizing = false;
    let mut i: usize = 0;
    while i < states.len()
        invariant
            i <= states@.len(),
            maximized == has_state(states@.subrange(0, i as int), ToplevelState::Maximized),
            fullscreen == has_state(states@.subrange(0, i as int), ToplevelState::Fullscreen),
            resizing == has_state(states@.subrange(0, i as int), ToplevelState::Resizing),
            tiling.top == has_state(states@.subrange(0, i as int), ToplevelState::TiledTop),
            tiling.left == has_state(states@.subrange(0, i as int), ToplevelState::TiledLeft),
            tiling.right == has_state(states@.subrange(0, i as int), ToplevelState::TiledRight),
            tiling.bottom == has_state(states@.subrange(0, i as int), ToplevelState::TiledBottom),
        decreases states@.len() - i,
    {
        let ghost pre = states@.subrange(0, i as int);
        let ghost post = states@.subrange(0, i + 1);
        let state = toplevel_state_from_wire(states[i]);
        match state {
            Some(ToplevelState::Maximized) => {
                maximized = true;
            },
            Some(ToplevelState::Fullscreen) => {
                fullscreen = true;
            },
            Some(ToplevelState::Resizing) => {
                resizing = true;
            },
            Some(ToplevelState::TiledTop) => {
                tiling.top = true;
            },
            Some(ToplevelState::TiledLeft) => {
                tiling.left = true;
            },
            Some(ToplevelState::TiledRight) => {
                tiling.right = true;
            },
            Some(ToplevelState::TiledBottom) => {
                tiling.bottom = true;
            },
            _ => {},
        }
        proof {
            assert(post[i as int] == states@[i as int]);
            assert forall|s: ToplevelState| has_state(post, s) == (has_state(pre, s) || toplevel_state_of(
                states@[i as int],
            ) == Some(s)) by {
                if has_state(pre, s) {
                    let k = choose|k: int| 0 <= k < pre.len() && toplevel_state_of(#[trigger] pre[k]) == Some(s);
                    assert(post[k] == pre[k]);
                }
                if has_state(post, s) {
                    let k = choose|k: int| 0 <= k < post.len() && toplevel_state_of(#[trigger] post[k]) == Some(s);
                    if k < i {
                        assert(pre[k] == post[k]);
                    }
                }
                if toplevel_state_of(states@[i as int]) == Some(s) {
                    assert(toplevel_state_of(post[i as int]) == Some(s));
                }
            }
        }
        i = i + 1;
    }
    proof {
        assert(states@.subrange(0, states@.len() as int) =~= states@);
    }
    if fullscreen || maximized {
        tiling = Tiling::tiled();
    }
    let r = InProgressConfigure { size, fullscreen, maximized, resizing, tiling };
    proof {
        law_configure_reads_wire_values(states@, r);
    }
    r
}

/// The controls of a `wm_capabilities` event: each capability named by a
/// word is turned on over the starting controls `base`.
pub fn wm_capabilities(base: WindowControls, caps: &Vec<u32>) -> (r: WindowControls)
    ensures
        r.window_menu == (base.window_menu || has_capability(caps@, WmCapability::WindowMenu)),
        r.maximize == (base.maximize || has_capability(caps@, WmCapability::Maximize)),
        r.fullscreen == (base.fullscreen || has_capability(caps@, WmCapability::Fullscreen)),
        r.minimize == (base.minimize || has_capability(caps@, WmCapability::Minimize)),
{
    let mut controls = base;
    let mut i: usize = 0;
    while i < caps.len()
        invariant
            i <= caps@.len(),
            controls.window_menu == (base.window_menu || has_capability(
                caps@.subrange(0, i as int),
                WmCapability::WindowMenu,
            )),
            controls.maximize == (base.maximize || has_capability(
                caps@.subrange(0, i as int),
                WmCapability::Maximize,
            )),
            controls.fullscreen == (base.fullscreen || has_capability(
                caps@.subrange(0, i as int),
                WmCapability::Fullscreen,
            )),
            controls.minimize == (base.minimize || has_capability(
                caps@.subrange(0, i as int),
                WmCapability::Minimize,
            )),
        decreases caps@.len() - i,
    {
        let ghost pre = caps@.subrange(0, i as int);
        let ghost post = caps@.subrange(0, i + 1);
        match wm_capability_from_wire(caps[i]) {
            Some(WmCapability::Maximize) => {
                controls.maximize = true;
            },
            Some(WmCapability::Minimize) => {
                controls.minimize = true;
            },
            Some(WmCapability::Fullscreen) => {
                controls.fullscreen = true;
            },
            Some(WmCapability::WindowMenu) => {
                controls.window_menu = true;
            },
            None => {},
        }
        proof {
            assert forall|c: WmCapability| has_capability(post, c) == (has_capability(pre, c)
                || wm_capability_of(caps@[i as int]) == Some(c)) by {
                if has_capability(pre, c) {
                    let k = choose|k: int| 0 <= k < pre.len() && wm_capability_of(#[trigger] pre[k]) == Some(c);
                    assert(post[k] == pre[k]);
                }
                if has_capability(post, c) {
                    let k = choose|k: int| 0 <= k < post.len() && wm_capability_of(#[trigger] post[k]) == Some(c);
                    if k < i {
                        assert(pre[k] == post[k]);
                    }
                }
                if wm_capability_of(caps@[i as int]) == Some(c) {
                    assert(wm_capability_of(post[i as int]) == Some(c));
                }
            }
        }
        i = i + 1;
    }
    proof {
        assert(caps@.subrange(0, caps@.len() as int) =~= caps@);
    }
    controls
}

/// The part of a toplevel window's state that configures change.
#[derive(Clone, Copy, Debug, PartialEq, Eq)]
pub struct ToplevelWindowState {
    pub fullscreen: bool,
    pub maximized: bool,
    pub tiling: Tiling,
    /// Set while an interactive resize has been applied and the next frame
    /// has not been drawn yet.
    pub resize_throttle: bool,
}

/// What the window does with its size after a configure is applied.
#[derive(Clone, Copy, Debug, PartialEq, Eq, Structural)]
pub enum ConfigureResize {
    /// An interactive resize arrived before the previous one was drawn: the
    /// size is not touched until the next frame.
    Throttled,
    /// The size is kept.
    Keep,
    /// The window was unmaximized: it returns to its windowed bounds.
    RestoreWindowBounds,
    /// The configured size plus the client-side decoration insets of the
    /// untiled edges becomes the window size.
    OuterOfConfigured,
    /// A fullscreen or maximized window takes the configured size as it is.
    Configured,
}

/// Applies a pending configure to the window state and decides how the
/// window is resized.
pub fn apply_configure(state: &mut ToplevelWindowState, configure: &InProgressConfigure) -> (r:
    ConfigureResize)
    ensures
        final(state).fullscreen == configure.fullscreen,
        final(state).maximized == configure.maximized,
        final(state).tiling == configure.tiling,
        final(state).resize_throttle == (old(state).resize_throttle || configure.resizing),
        r == (if configure.resizing && old(state).resize_throttle {
            ConfigureResize::Throttled
        } else if !configure.fullscreen && !configure.maximized {
            if old(state).maximized {
                ConfigureResize::RestoreWindowBounds
            } else if configure.size is Some {
                ConfigureResize::OuterOfConfigured
            } else {
                ConfigureResize::Keep
            }
        } else if configure.size is Some {
            ConfigureResize::Configured
        } else {
            ConfigureResize::Keep
        }),
{
    let got_unmaximized = state.maximized && !configure.maximized;
    state.fullscreen = configure.fullscreen;
    state.maximized = configure.maximized;
    state.tiling = configure.tiling;
    if configure.resizing && state.resize_throttle {
        return ConfigureResize::Throttled;
    } else if configure.resizing {
        state.resize_throttle = true;
    }
    if !configure.fullscreen && !configure.maximized {
        if got_unmaximized {
            ConfigureResize::RestoreWindowBounds
        } else if configure.size.is_some() {
            ConfigureResize::OuterOfConfigured
        } else {
            ConfigureResize::Keep
        }
    } else if configure.size.is_some() {
        ConfigureResize::Configured
    } else {
        ConfigureResize::Keep
    }
}

/// How applying configure `c` to a window in state `w` resizes it, as
/// [`apply_configure`] decides.
pub open spec fn configure_resize(w: ToplevelWindowState, c: InProgressConfigure) -> ConfigureResize {
    if c.resizing && w.resize_throttle {
        ConfigureResize::Throttled
    } else if !c.fullscreen && !c.maximized {
        if w.maximized {
            ConfigureResize::RestoreWindowBounds
        } else if c.size is Some {
            ConfigureResize::OuterOfConfigured
        } else {
            ConfigureResize::Keep
        }
    } else if c.size is Some {
        ConfigureResize::Configured
    } else {
        ConfigureResize::Keep
    }
}

/// The state of a window in state `w` once configure `c` is applied.
pub open spec fn configured_window(w: ToplevelWindowState, c: InProgressConfigure) -> ToplevelWindowState {
    ToplevelWindowState {
        fullscreen: c.fullscreen,
        maximized: c.maximized,
        tiling: c.tiling,
        resize_throttle: w.resize_throttle || c.resizing,
    }
}

/// What an `xdg_toplevel` window keeps between its toplevel events and the
/// surface configure that completes them.
#[derive(Clone, Copy, Debug, PartialEq, Eq)]
pub struct SurfaceConfigureState {
    /// The window controls in effect.
    pub window_controls: WindowControls,
    /// Window controls announced since the last surface configure.
    pub in_progress_window_controls: Option<WindowControls>,
    /// The toplevel configure waiting for the surface configure.
    pub in_progress_configure: Option<InProgressConfigure>,
    pub window: ToplevelWindowState,
    /// Whether a surface configure has been acknowledged yet.
    pub acknowledged_first_configure: bool,
}

/// What handling a surface configure asks of the window.
#[derive(Clone, Copy, Debug, PartialEq, Eq, Structural)]
pub struct SurfaceConfigureActions {
    /// The window controls changed: the appearance callback runs.
    pub controls_changed: bool,
    /// How the window is resized, when a toplevel configure was waiting.
    pub resize: Option<ConfigureResize>,
    /// Acknowledge the configure and set the window geometry.
    pub ack: bool,
    /// Request the first frame callback.
    pub request_frame: bool,
}

/// Handles an `xdg_surface.configure`: the announced window controls take
/// effect, the waiting toplevel configure is applied, and then, unless an
/// interactive resize is throttled or the surface is not an `xdg_toplevel`,
/// the configure is acknowledged; the first acknowledged configure also
/// requests a frame.
pub fn surface_configure(state: &mut SurfaceConfigureState, is_xdg_toplevel: bool) -> (r:
    SurfaceConfigureActions)
    ensures
        final(state).in_progress_window_controls is None,
        final(state).in_progress_configure is None,
        r.controls_changed == old(state).in_progress_window_controls is Some,
        final(state).window_controls == (match old(state).in_progress_window_controls {
            Some(c) => c,
            None => old(state).window_controls,
        }),
        r.resize == (match old(state).in_progress_configure {
            Some(c) => Some(configure_resize(old(state).window, c)),
            None => None,
        }),
        final(state).window == (match old(state).in_progress_configure {
            Some(c) => configured_window(old(state).window, c),
            None => old(state).window,
        }),
        r.ack == (is_xdg_toplevel && r.resize != Some(ConfigureResize::Throttled)),
        r.request_frame == (r.ack && !old(state).acknowledged_first_configure),
        final(state).acknowledged_first_configure == (old(state).acknowledged_first_configure
            || r.ack),
{
    let controls_changed = match state.in_progress_window_controls {
        Some(c) => {
            state.window_controls = c;
            true
        },
        None => false,
    };
    state.in_progress_window_controls = None;
    let resize = match state.in_progress_configure {
        Some(c) => {
            state.in_progress_configure = None;
            Some(apply_configure(&mut state.window, &c))
        },
        None => None,
    };
    let throttled = match resize {
        Some(ConfigureResize::Throttled) => true,
        _ => false,
    };
    if throttled || !is_xdg_toplevel {
        return SurfaceConfigureActions { controls_changed, resize, ack: false, request_frame: false };
    }
    let request_frame = !state.acknowledged_first_configure;
    state.acknowledged_first_configure = true;
    SurfaceConfigureActions { controls_changed, resize, ack: true, request_frame }
}

/// What a toplevel does when the compositor asks it to close.
#[derive(Clone, Copy, Debug, PartialEq, Eq, Structural)]
pub struct CloseDecision {
    /// Close the window now.
    pub close: bool,
    /// What the close request is answered: whether the window goes away.
    pub result: bool,
}

/// Decides a close request: with a should-close callback that answered
/// `answer`, the window closes exactly when the answer is yes, and the
/// answer is returned; with no callback nothing is closed here and the
/// request is answered yes.
pub fn close_request(should_close: Option<bool>) -> (r: CloseDecision)
    ensures
        r == (match should_close {
            Some(answer) => CloseDecision { close: answer, result: answer },
            None => CloseDecision { close: false, result: true },
        }),
{
    match should_close {
        Some(answer) => CloseDecision { close: answer, result: answer },
        None => CloseDecision { close: false, result: true },
    }
}

/// A window geometry dimension in whole pixels: at least one pixel.
pub fn geometry_dimension(v: i32) -> (r: i32)
    ensures
        r == if v <= 0 { 1 } else { v },
{
    if v <= 0 {
        1
    } else {
        v
    }
}

/// One for an edge that is not tiled: such an edge carries a client-side
/// decoration inset.
pub open spec fn untiled_count(tiled: bool) -> u32 {
    if tiled {
        0
    } else {
        1
    }
}

/// How many decoration insets a window's width and height carry: one per
/// untiled edge, left and right for the width, top and bottom for the
/// height. A configured size grows by them to become the window size, and
/// the window bounds shrink by them to become the drawn content.
pub fn decoration_insets(tiling: Tiling) -> (r: (u32, u32))
    ensures
        r.0 == untiled_count(tiling.left) + untiled_count(tiling.right),
        r.1 == untiled_count(tiling.top) + untiled_count(tiling.bottom),
{
    let mut width: u32 = 0;
    let mut height: u32 = 0;
    if !tiling.top {
        height = height + 1;
    }
    if !tiling.bottom {
        height = height + 1;
    }
    if !tiling.left {
        width = width + 1;
    }
    if !tiling.right {
        width = width + 1;
    }
    (width, height)
}

/// How many insets the content origin moves right and down: one when the
/// left (respectively top) edge is not tiled.
pub fn content_origin_insets(tiling: Tiling) -> (r: (u32, u32))
    ensures
        r.0 == untiled_count(tiling.left),
        r.1 == untiled_count(tiling.top),
{
    (if tiling.left { 0 } else { 1 }, if tiling.top { 0 } else { 1 })
}

} // verus!
