//! Wayland layer-shell surfaces: the layer, anchor, exclusive zone and
//! keyboard interactivity a surface asks for, their wire values in the
//! `wlr-layer-shell` and `ext-layer-shell` protocols, the choice of
//! protocol, and the size taken from a configure event.

use vstd::prelude::*;
use crate::window::WindowKind;

verus! {

/// The stacking layer of a layer-shell surface.
#[derive(Clone, Copy, Debug, PartialEq, Eq, Structural)]
pub enum LayerShellLayer {
    Background,
    Bottom,
    Top,
    Overlay,
}

/// Whether and how a layer-shell surface takes keyboard focus.
#[derive(Clone, Copy, Debug, PartialEq, Eq, Structural)]
pub enum LayerShellKeyboardInteractivity {
    /// The surface never takes keyboard focus.
    NoFocus,
    OnDemand,
    Exclusive,
}

/// How much of the output a layer-shell surface reserves.
#[derive(Clone, Copy, Debug, PartialEq, Eq, Structural)]
pub enum LayerShellExclusiveZone {
    /// Reserve nothing.
    NoZone,
    /// Let the compositor reserve the surface's size.
    Auto,
    /// Reserve the given number of pixels.
    Pixels(i32),
}

/// Which layer-shell protocols may be used.
#[derive(Clone, Copy, Debug, PartialEq, Eq, Structural)]
pub enum LayerShellProtocolPreference {
    /// `ext-layer-shell`, falling back to `wlr-layer-shell`.
    ExtThenWlr,
    /// Only `wlr-layer-shell`.
    Wlr,
}

/// The anchor edges of a layer-shell surface, as protocol bits.
#[derive(Clone, Copy, Debug, PartialEq, Eq, Structural)]
pub struct LayerShellAnchor {
    pub bits: u32,
}

/// Anchor bit of the top edge.
pub const ANCHOR_TOP: u32 = 1;
/// Anchor bit of the bottom edge.
pub const ANCHOR_BOTTOM: u32 = 2;
/// Anchor bit of the left edge.
pub const ANCHOR_LEFT: u32 = 4;
/// Anchor bit of the right edge.
pub const ANCHOR_RIGHT: u32 = 8;
/// Every anchor bit the protocols define.
pub const ANCHOR_ALL: u32 = 15;

impl LayerShellAnchor {
    /// The anchor with the given protocol bits.
    pub fn from_bits(bits: u32) -> (r: Self)
        ensures
            r.bits == bits,
    {
        LayerShellAnchor { bits }
    }

    /// The protocol bits of this anchor.
    pub fn bits(&self) -> (r: u32)
        ensures
            r == self.bits,
    {
        self.bits
    }

    /// The anchor as sent over either protocol: bits the protocols do not
    /// define are dropped (`from_bits_truncate`).
    pub fn to_wire(self) -> (r: u32)
        ensures
            r == self.bits & ANCHOR_ALL,
            r <= ANCHOR_ALL,
    {
        let bits = self.bits;
        let r = bits & ANCHOR_ALL;
        assert(bits & 15u32 <= 15u32) by (bit_vector);
        r
    }
}

/// The `zwlr_layer_shell_v1.layer` values.
#[derive(Clone, Copy, Debug, PartialEq, Eq, Structural)]
pub enum WlrLayer {
    Background,
    Bottom,
    Top,
    Overlay,
}

/// The `ext_layer_surface_v1.layer` values.
#[derive(Clone, Copy, Debug, PartialEq, Eq, Structural)]
pub enum ExtLayer {
    Background,
    Bottom,
    Top,
    Overlay,
}

/// The `zwlr_layer_surface_v1.keyboard_interactivity` values.
#[derive(Clone, Copy, Debug, PartialEq, Eq, Structural)]
pub enum WlrKeyboardInteractivity {
    NoFocus,
    Exclusive,
    OnDemand,
}

/// The `ext_layer_surface_v1.keyboard_interactivity` values used here.
#[derive(Clone, Copy, Debug, PartialEq, Eq, Structural)]
pub enum ExtKeyboardInteractivity {
    NoFocus,
    OnDemand,
}

/// The wire value of a `wlr-layer-shell` layer.
pub open spec fn wlr_layer_value(l: WlrLayer) -> u32 {
    match l {
        WlrLayer::Background => 0,
        WlrLayer::Bottom => 1,
        WlrLayer::Top => 2,
        WlrLayer::Overlay => 3,
    }
}

/// The wire value of an `ext-layer-shell` layer.
pub open spec fn ext_layer_value(l: ExtLayer) -> u32 {
    match l {
        ExtLayer::Background => 0,
        ExtLayer::Bottom => 1,
        ExtLayer::Top => 2,
        ExtLayer::Overlay => 3,
    }
}

/// Both layer-shell protocols number their layers from the bottom of the
/// stack: background 0, bottom 1, top 2, overlay 3.
pub proof fn law_layer_wire_values()
    ensures
        wlr_layer_value(WlrLayer::Background) == 0,
        wlr_layer_value(WlrLayer::Bottom) == 1,
        wlr_layer_value(WlrLayer::Top) == 2,
        wlr_layer_value(WlrLayer::Overlay) == 3,
        ext_layer_value(ExtLayer::Background) == 0,
        ext_layer_value(ExtLayer::Bottom) == 1,
        ext_layer_value(ExtLayer::Top) == 2,
        ext_layer_value(ExtLayer::Overlay) == 3,
        layer_index(LayerShellLayer::Background) == 0,
        layer_index(LayerShellLayer::Bottom) == 1,
        layer_index(LayerShellLayer::Top) == 2,
        layer_index(LayerShellLayer::Overlay) == 3,
{
}

impl WlrLayer {
    /// The wire value of this layer.
    pub fn wire_value(self) -> (r: u32)
        ensures
            r == wlr_layer_value(self),
    {
        match self {
            WlrLayer::Background => 0,
            WlrLayer::Bottom => 1,
            WlrLayer::Top => 2,
            WlrLayer::Overlay => 3,
        }
    }
}

impl ExtLayer {
    /// The wire value of this layer.
    pub fn wire_value(self) -> (r: u32)
        ensures
            r == ext_layer_value(self),
    {
        match self {
            ExtLayer::Background => 0,
            ExtLayer::Bottom => 1,
            ExtLayer::Top => 2,
            ExtLayer::Overlay => 3,
        }
    }
}

impl WlrKeyboardInteractivity {
    /// The wire value of this interactivity.
    pub fn wire_value(self) -> (r: u32)
        ensures
            r == match self {
                WlrKeyboardInteractivity::NoFocus => 0u32,
                WlrKeyboardInteractivity::Exclusive => 1u32,
                WlrKeyboardInteractivity::OnDemand => 2u32,
            },
    {
        match self {
            WlrKeyboardInteractivity::NoFocus => 0,
            WlrKeyboardInteractivity::Exclusive => 1,
            WlrKeyboardInteractivity::OnDemand => 2,
        }
    }
}

impl ExtKeyboardInteractivity {
    /// The wire value of this interactivity.
    pub fn wire_value(self) -> (r: u32)
        ensures
            r == match self {
                ExtKeyboardInteractivity::NoFocus => 0u32,
                ExtKeyboardInteractivity::OnDemand => 2u32,
            },
    {
        match self {
            ExtKeyboardInteractivity::NoFocus => 0,
            ExtKeyboardInteractivity::OnDemand => 2,
        }
    }
}

/// The layer of each stacking layer, the same in both protocols.
pub open spec fn layer_index(l: LayerShellLayer) -> u32 {
    match l {
        LayerShellLayer::Background => 0,
        LayerShellLayer::Bottom => 1,
        LayerShellLayer::Top => 2,
        LayerShellLayer::Overlay => 3,
    }
}

impl LayerShellLayer {
    /// The `wlr-layer-shell` layer.
    pub fn to_wlr(self) -> (r: WlrLayer)
        ensures
            wlr_layer_value(r) == layer_index(self),
    {
        match self {
            LayerShellLayer::Background => WlrLayer::Background,
            LayerShellLayer::Bottom => WlrLayer::Bottom,
            LayerShellLayer::Top => WlrLayer::Top,
            LayerShellLayer::Overlay => WlrLayer::Overlay,
        }
    }

    /// The `ext-layer-shell` layer.
    pub fn to_ext(self) -> (r: ExtLayer)
        ensures
            ext_layer_value(r) == layer_index(self),
    {
        match self {
            LayerShellLayer::Background => ExtLayer::Background,
            LayerShellLayer::Bottom => ExtLayer::Bottom,
            LayerShellLayer::Top => ExtLayer::Top,
            LayerShellLayer::Overlay => ExtLayer::Overlay,
        }
    }
}

impl LayerShellKeyboardInteractivity {
    /// The `wlr-layer-shell` interactivity, which supports every mode.
    pub fn to_wlr(self) -> (r: WlrKeyboardInteractivity)
        ensures
            r == match self {
                LayerShellKeyboardInteractivity::NoFocus => WlrKeyboardInteractivity::NoFocus,
                LayerShellKeyboardInteractivity::OnDemand => WlrKeyboardInteractivity::OnDemand,
                LayerShellKeyboardInteractivity::Exclusive => WlrKeyboardInteractivity::Exclusive,
            },
    {
        match self {
            LayerShellKeyboardInteractivity::NoFocus => WlrKeyboardInteractivity::NoFocus,
            LayerShellKeyboardInteractivity::OnDemand => WlrKeyboardInteractivity::OnDemand,
            LayerShellKeyboardInteractivity::Exclusive => WlrKeyboardInteractivity::Exclusive,
        }
    }

    /// The `ext-layer-shell` interactivity; exclusive focus is not used
    /// there.
    pub fn to_ext(self) -> (r: Option<ExtKeyboardInteractivity>)
        ensures
            r == match self {
                LayerShellKeyboardInteractivity::NoFocus => Some(ExtKeyboardInteractivity::NoFocus),
                LayerShellKeyboardInteractivity::OnDemand => Some(
                    ExtKeyboardInteractivity::OnDemand,
                ),
                LayerShellKeyboardInteractivity::Exclusive => None,
            },
    {
        match self {
            LayerShellKeyboardInteractivity::NoFocus => Some(ExtKeyboardInteractivity::NoFocus),
            LayerShellKeyboardInteractivity::OnDemand => Some(ExtKeyboardInteractivity::OnDemand),
            LayerShellKeyboardInteractivity::Exclusive => None,
        }
    }

    /// The `ext-layer-shell` interactivity that is sent: exclusive focus,
    /// which is not used there, becomes on-demand focus.
    pub fn to_ext_or_on_demand(self) -> (r: ExtKeyboardInteractivity)
        ensures
            r == match self {
                LayerShellKeyboardInteractivity::NoFocus => ExtKeyboardInteractivity::NoFocus,
                _ => ExtKeyboardInteractivity::OnDemand,
            },
    {
        match self.to_ext() {
            Some(interactivity) => interactivity,
            None => ExtKeyboardInteractivity::OnDemand,
        }
    }
}

/// The exclusive zone as sent over the protocols.
pub open spec fn exclusive_zone_value(z: LayerShellExclusiveZone) -> i32 {
    match z {
        LayerShellExclusiveZone::NoZone => 0i32,
        LayerShellExclusiveZone::Auto => -1i32,
        LayerShellExclusiveZone::Pixels(zone) => zone,
    }
}

impl LayerShellExclusiveZone {
    /// The exclusive zone as sent over the protocols: 0 for none, -1 for
    /// automatic, and the pixel count otherwise.
    pub fn to_wayland(self) -> (r: i32)
        ensures
            r == exclusive_zone_value(self),
    {
        match self {
            LayerShellExclusiveZone::NoZone => 0,
            LayerShellExclusiveZone::Auto => -1,
            LayerShellExclusiveZone::Pixels(zone) => zone,
        }
    }
}

/// Whether a layer-shell protocol that the preference allows is offered by
/// the compositor.
pub fn is_layer_shell_available(
    protocol: LayerShellProtocolPreference,
    has_ext_layer_shell: bool,
    has_wlr_layer_shell: bool,
) -> (r: bool)
    ensures
        r == match protocol {
            LayerShellProtocolPreference::ExtThenWlr => has_ext_layer_shell || has_wlr_layer_shell,
            LayerShellProtocolPreference::Wlr => has_wlr_layer_shell,
        },
{
    match protocol {
        LayerShellProtocolPreference::ExtThenWlr => has_ext_layer_shell || has_wlr_layer_shell,
        LayerShellProtocolPreference::Wlr => has_wlr_layer_shell,
    }
}

/// The layer-shell protocol a surface is created with.
#[derive(Clone, Copy, Debug, PartialEq, Eq, Structural)]
pub enum LayerShellProtocol {
    Ext,
    Wlr,
}

/// The protocol a surface uses: `ext-layer-shell` when preferred and
/// offered, else `wlr-layer-shell` when offered.
pub fn select_layer_shell_protocol(
    protocol: LayerShellProtocolPreference,
    has_ext_layer_shell: bool,
    has_wlr_layer_shell: bool,
) -> (r: Option<LayerShellProtocol>)
    ensures
        r is Some <==> match protocol {
            LayerShellProtocolPreference::ExtThenWlr => has_ext_layer_shell || has_wlr_layer_shell,
            LayerShellProtocolPreference::Wlr => has_wlr_layer_shell,
        },
        r == Some(LayerShellProtocol::Ext) <==> (protocol == LayerShellProtocolPreference::ExtThenWlr
            && has_ext_layer_shell),
{
    match protocol {
        LayerShellProtocolPreference::ExtThenWlr => {
            if has_ext_layer_shell {
                Some(LayerShellProtocol::Ext)
            } else if has_wlr_layer_shell {
                Some(LayerShellProtocol::Wlr)
            } else {
                None
            }
        },
        LayerShellProtocolPreference::Wlr => {
            if has_wlr_layer_shell {
                Some(LayerShellProtocol::Wlr)
            } else {
                None
            }
        },
    }
}

/// Where the layer-shell options of a new window come from.
#[derive(Clone, Copy, Debug, PartialEq, Eq, Structural)]
pub enum LayerShellOptionsSource {
    /// The options the window was opened with.
    Requested,
    /// Overlay defaults: overlay layer, no keyboard focus, namespace
    /// `gpui-overlay`, positioned by the window bounds inside the output at
    /// the given index.
    OverlayOnOutput(usize),
    /// Overlay defaults without an output to position against.
    OverlayDefault,
}

/// Decides how a new window becomes a layer-shell surface, if at all.
///
/// Options the window was opened with win; an overlay window without them
/// gets overlay defaults, placed on its output when one is found. When the
/// chosen protocol preference is not offered by the compositor, the window
/// falls back to an ordinary toplevel (`None`).
pub fn layer_shell_options_source(
    requested_protocol: Option<LayerShellProtocolPreference>,
    kind: WindowKind,
    output: Option<usize>,
    has_ext_layer_shell: bool,
    has_wlr_layer_shell: bool,
) -> (r: Option<LayerShellOptionsSource>)
    ensures
        ({
            let protocol = match requested_protocol {
                Some(p) => p,
                None => LayerShellProtocolPreference::ExtThenWlr,
            };
            let wanted = requested_protocol is Some || kind == WindowKind::Overlay;
            let available = match protocol {
                LayerShellProtocolPreference::ExtThenWlr => has_ext_layer_shell
                    || has_wlr_layer_shell,
                LayerShellProtocolPreference::Wlr => has_wlr_layer_shell,
            };
            &&& r is Some <==> wanted && available
            &&& r matches Some(s) ==> s == match requested_protocol {
                Some(_) => LayerShellOptionsSource::Requested,
                None => match output {
                    Some(ix) => LayerShellOptionsSource::OverlayOnOutput(ix),
                    None => LayerShellOptionsSource::OverlayDefault,
                },
            }
        }),
{
    let source = match requested_protocol {
        Some(_) => LayerShellOptionsSource::Requested,
        None => {
            if kind != WindowKind::Overlay {
                return None;
            }
            match output {
                Some(ix) => LayerShellOptionsSource::OverlayOnOutput(ix),
                None => LayerShellOptionsSource::OverlayDefault,
            }
        },
    };
    let protocol = match requested_protocol {
        Some(p) => p,
        None => LayerShellProtocolPreference::ExtThenWlr,
    };
    if !is_layer_shell_available(protocol, has_ext_layer_shell, has_wlr_layer_shell) {
        return None;
    }
    Some(source)
}

/// An output as seen when placing a window: its display id and whether it
/// contains the centre of the window's bounds.
#[derive(Clone, Copy, Debug, PartialEq, Eq, Structural)]
pub struct OutputCandidate {
    pub display_id: u32,
    pub contains_window_center: bool,
}

/// Whether index `ix` is the output chosen for a window asking for the
/// display `display_id`: the first output with that id, else the first one
/// containing the window's centre, else the first one.
pub open spec fn output_choice(display_id: Option<u32>, outputs: Seq<OutputCandidate>, ix: int) -> bool {
    let by_id = match display_id {
        Some(id) => exists|k: int| 0 <= k < outputs.len() && (#[trigger] outputs[k]).display_id == id,
        None => false,
    };
    let by_center = exists|k: int|
        0 <= k < outputs.len() && (#[trigger] outputs[k]).contains_window_center;
    if by_id {
        outputs[ix].display_id == display_id->0 && forall|k: int|
            0 <= k < ix ==> (#[trigger] outputs[k]).display_id != display_id->0
    } else if by_center {
        outputs[ix].contains_window_center && forall|k: int|
            0 <= k < ix ==> !(#[trigger] outputs[k]).contains_window_center
    } else {
        ix == 0
    }
}

/// The index of the output a window is placed on: the output with the
/// requested display id, else the first output containing the window's
/// centre, else the first output.
pub fn find_output_for_params(display_id: Option<u32>, outputs: &Vec<OutputCandidate>) -> (r:
    Option<usize>)
    ensures
        outputs@.len() == 0 <==> r is None,
        r matches Some(ix) ==> ix < outputs@.len(),
        r matches Some(ix) ==> output_choice(display_id, outputs@, ix as int),
{
    if let Some(id) = display_id {
        let mut k: usize = 0;
        while k < outputs.len()
            invariant
                k <= outputs@.len(),
                display_id == Some(id),
                forall|j: int| 0 <= j < k ==> (#[trigger] outputs@[j]).display_id != id,
            decreases outputs@.len() - k,
        {
            if outputs[k].display_id == id {
                proof {
                    assert(display_id == Some(id));
                    assert(outputs@[k as int].display_id == id);
                    assert(exists|j: int|
                        0 <= j < outputs@.len() && (#[trigger] outputs@[j]).display_id == id);
                }
                return Some(k);
            }
            k = k + 1;
        }
    }
    let mut k: usize = 0;
    while k < outputs.len()
        invariant
            k <= outputs@.len(),
            forall|j: int| 0 <= j < k ==> !(#[trigger] outputs@[j]).contains_window_center,
            display_id matches Some(id) ==> forall|j: int|
                0 <= j < outputs@.len() ==> (#[trigger] outputs@[j]).display_id != id,
        decreases outputs@.len() - k,
    {
        if outputs[k].contains_window_center {
            assert(outputs@[k as int].contains_window_center);
            return Some(k);
        }
        k = k + 1;
    }
    if outputs.len() > 0 {
        Some(0)
    } else {
        None
    }
}

/// A width and height.
#[derive(Clone, Copy, Debug, PartialEq, Eq)]
pub struct Size<T> {
    pub width: T,
    pub height: T,
}

/// The size a layer surface takes from a configure event: a dimension the
/// compositor leaves at zero keeps its current value; any other dimension
/// becomes the configured pixel count, converted by `to_pixels`.
pub fn layer_configure_size<T: Copy, F: Fn(i32) -> T>(
    current_size: Size<T>,
    width: i32,
    height: i32,
    to_pixels: F,
) -> (r: Size<T>)
    requires
        forall|v: i32| call_requires(to_pixels, (v,)),
    ensures
        width == 0 ==> r.width == current_size.width,
        width != 0 ==> call_ensures(to_pixels, (width,), r.width),
        height == 0 ==> r.height == current_size.height,
        height != 0 ==> call_ensures(to_pixels, (height,), r.height),
{
    if width == 0 && height == 0 {
        current_size
    } else if width == 0 {
        Size { width: current_size.width, height: to_pixels(height) }
    } else if height == 0 {
        Size { width: to_pixels(width), height: current_size.height }
    } else {
        Size { width: to_pixels(width), height: to_pixels(height) }
    }
}

/// The requested layer surface size in whole pixels: at least one pixel in
/// each dimension.
pub fn layer_surface_dimension(requested: i32) -> (r: i32)
    ensures
        r == if requested < 1 { 1 } else { requested },
        r >= 1,
{
    if requested < 1 {
        1
    } else {
        requested
    }
}

/// The layer-shell settings of a window, with its margins in whole pixels.
#[derive(Clone, Copy, Debug, PartialEq, Eq, Structural)]
pub struct LayerSurfaceOptions {
    pub layer: LayerShellLayer,
    pub anchor: LayerShellAnchor,
    pub margin_top: i32,
    pub margin_right: i32,
    pub margin_bottom: i32,
    pub margin_left: i32,
    pub exclusive_zone: LayerShellExclusiveZone,
    pub keyboard_interactivity: LayerShellKeyboardInteractivity,
}

/// The state a layer surface is configured with, whichever protocol it
/// uses: its size (at least one pixel each way), its anchor bits, its
/// margins, its exclusive zone as sent, and its
/// keyboard interactivity.
#[derive(Clone, Copy, Debug, PartialEq, Eq, Structural)]
pub struct LayerSurfaceState {
    pub width: i32,
    pub height: i32,
    pub anchor: u32,
    pub margin_top: i32,
    pub margin_right: i32,
    pub margin_bottom: i32,
    pub margin_left: i32,
    pub exclusive_zone: i32,
    pub keyboard_interactivity: LayerShellKeyboardInteractivity,
}

/// The state a layer surface of requested size `width` by `height` is
/// configured with.
pub fn configure_layer_surface_state(options: &LayerSurfaceOptions, width: i32, height: i32) -> (r:
    LayerSurfaceState)
    ensures
        r.width == (if width < 1 { 1 } else { width }),
        r.height == (if height < 1 { 1 } else { height }),
        r.anchor == options.anchor.bits,
        r.margin_top == options.margin_top,
        r.margin_right == options.margin_right,
        r.margin_bottom == options.margin_bottom,
        r.margin_left == options.margin_left,
        r.exclusive_zone == exclusive_zone_value(options.exclusive_zone),
        r.keyboard_interactivity == options.keyboard_interactivity,
{
    LayerSurfaceState {
        width: layer_surface_dimension(width),
        height: layer_surface_dimension(height),
        anchor: options.anchor.bits(),
        margin_top: options.margin_top,
        margin_right: options.margin_right,
        margin_bottom: options.margin_bottom,
        margin_left: options.margin_left,
        exclusive_zone: options.exclusive_zone.to_wayland(),
        keyboard_interactivity: options.keyboard_interactivity,
    }
}

/// The requests that configure a layer surface, in protocol values: the
/// layer when it is set at configuration, the size, the anchor bits the
/// protocol defines, the margins, the exclusive zone and the keyboard
/// interactivity.
#[derive(Clone, Copy, Debug, PartialEq, Eq, Structural)]
pub struct LayerSurfaceRequests {
    pub layer: Option<u32>,
    pub width: u32,
    pub height: u32,
    pub anchor: u32,
    pub margin_top: i32,
    pub margin_right: i32,
    pub margin_bottom: i32,
    pub margin_left: i32,
    pub exclusive_zone: i32,
    pub keyboard_interactivity: u32,
}

/// The requests configuring an `ext-layer-shell` surface: its layer is set
/// here, and exclusive keyboard focus, which the protocol is not used with,
/// becomes on-demand focus.
pub fn configure_ext_layer_surface(options: &LayerSurfaceOptions, width: i32, height: i32) -> (r:
    LayerSurfaceRequests)
    ensures
        r.layer == Some(layer_index(options.layer)),
        r.width == (if width < 1 { 1 } else { width }),
        r.height == (if height < 1 { 1 } else { height }),
        r.anchor == options.anchor.bits & ANCHOR_ALL,
        r.margin_top == options.margin_top,
        r.margin_right == options.margin_right,
        r.margin_bottom == options.margin_bottom,
        r.margin_left == options.margin_left,
        r.exclusive_zone == exclusive_zone_value(options.exclusive_zone),
        r.keyboard_interactivity == (if options.keyboard_interactivity
            == LayerShellKeyboardInteractivity::NoFocus {
            0u32
        } else {
            2u32
        }),
{
    let state = configure_layer_surface_state(options, width, height);
    let layer = options.layer.to_ext().wire_value();
    let anchor = LayerShellAnchor::from_bits(state.anchor).to_wire();
    let interactivity = state.keyboard_interactivity.to_ext_or_on_demand().wire_value();
    LayerSurfaceRequests {
        layer: Some(layer),
        width: state.width as u32,
        height: state.height as u32,
        anchor,
        margin_top: state.margin_top,
        margin_right: state.margin_right,
        margin_bottom: state.margin_bottom,
        margin_left: state.margin_left,
        exclusive_zone: state.exclusive_zone,
        keyboard_interactivity: interactivity,
    }
}

/// The requests configuring a `wlr-layer-shell` surface: its layer was
/// given when it was created, and every keyboard interactivity is sent as
/// it is.
pub fn configure_wlr_layer_surface(options: &LayerSurfaceOptions, width: i32, height: i32) -> (r:
    LayerSurfaceRequests)
    ensures
        r.layer is None,
        r.width == (if width < 1 { 1 } else { width }),
        r.height == (if height < 1 { 1 } else { height }),
        r.anchor == options.anchor.bits & ANCHOR_ALL,
        r.margin_top == options.margin_top,
        r.margin_right == options.margin_right,
        r.margin_bottom == options.margin_bottom,
        r.margin_left == options.margin_left,
        r.exclusive_zone == exclusive_zone_value(options.exclusive_zone),
        r.keyboard_interactivity == (match options.keyboard_interactivity {
            LayerShellKeyboardInteractivity::NoFocus => 0u32,
            LayerShellKeyboardInteractivity::Exclusive => 1u32,
            LayerShellKeyboardInteractivity::OnDemand => 2u32,
        }),
{
    let state = configure_layer_surface_state(options, width, height);
    let anchor = LayerShellAnchor::from_bits(state.anchor).to_wire();
    let interactivity = state.keyboard_interactivity.to_wlr().wire_value();
    LayerSurfaceRequests {
        layer: None,
        width: state.width as u32,
        height: state.height as u32,
        anchor,
        margin_top: state.margin_top,
        margin_right: state.margin_right,
        margin_bottom: state.margin_bottom,
        margin_left: state.margin_left,
        exclusive_zone: state.exclusive_zone,
        keyboard_interactivity: interactivity,
    }
}

/// The layer-shell anchor bits are top 1, bottom 2, left 4 and right 8; all four together are 15.
pub proof fn law_layer_shell_constants()
    ensures
        ANCHOR_TOP == 1,
        ANCHOR_BOTTOM == 2,
        ANCHOR_LEFT == 4,
        ANCHOR_RIGHT == 8,
        ANCHOR_ALL == 15,
{
}

} // verus!
